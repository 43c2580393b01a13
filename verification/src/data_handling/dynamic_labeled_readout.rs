use vstd::prelude::*;

use crate::data_handling::labeled_readout::{
    consts::{
        BAROMETER_SENSOR_TYPE, HIGROMETER_SENSOR_TYPE, LUXMETER_SENSOR_TYPE, SENSOR_ID_OFFSET,
        SENSOR_TYPE_OFFSET, THERMOMETER_SENSOR_TYPE, UNIT_SCALE_OFFSET,
    },
    label_byte, lemma_label_fields, lemma_readout_bytes_roundtrip, readout_bytes, LabeledReadout,
};
use crate::le_bytes::{u32_from_le_bytes, u32_le_value, u32_to_le_bytes};

verus! {

/// A readout whose label is only known at run time, such as one read
/// back from a received frame.
pub struct DynamicLabeledReadout {
    data: u32,
    sensor_id: u8,
    unit_scale: u8,
    label: u8,
    sensor_type: SensorType,
}

/// What `new_labeled_data` makes of a label and a value: `None` when the
/// type bits of the label name no sensor type, else the readout's
/// (label, data, sensor id, unit scale, sensor type).
pub open spec fn labeled_data_model(label: u8, data: u32) -> Option<(u8, u32, u8, u8, SensorType)> {
    match SensorType::spec_from_bits(label % 16) {
        Some(t) => Some((label, data, ((label & 0b11u8) >> 6u8), ((label & 0b11u8) >> 4u8), t)),
        None => None,
    }
}

impl DynamicLabeledReadout {
    /// The readout's (label, data, sensor id, unit scale, sensor type).
    pub closed spec fn model(&self) -> (u8, u32, u8, u8, SensorType) {
        (self.label, self.data, self.sensor_id, self.unit_scale, self.sensor_type)
    }

    #[verifier::type_invariant]
    closed spec fn wf(&self) -> bool {
        labeled_data_model(self.label, self.data) == Some(self.model())
    }

    pub fn new_labeled_data(label: u8, data: u32) -> (r: Option<Self>)
        ensures
            r is Some <==> label % 16 < 4,
            r matches Some(x) ==> Some(x.model()) == labeled_data_model(label, data),
            r matches Some(x) ==> x.model().2 == 0 && x.model().3 == 0,
    {
        let sensor_type = match SensorType::from_bits((label & 0b1111) >> SENSOR_TYPE_OFFSET) {
            Some(t) => t,
            None => {
                assert((label & 0b1111u8) >> 0u8 == label % 16) by (bit_vector);
                return None;
            },
        };
        assert((label & 0b1111u8) >> 0u8 == label % 16) by (bit_vector);
        assert((label & 0b11u8) >> 6u8 == 0 && (label & 0b11u8) >> 4u8 == 0) by (bit_vector);
        let sensor_id = (label & 0b11) >> SENSOR_ID_OFFSET;
        let unit_scale = (label & 0b11) >> UNIT_SCALE_OFFSET;

        Some(Self { sensor_id, sensor_type, unit_scale, data, label })
    }

    pub fn sensor_id(&self) -> (r: u8)
        ensures
            r == self.model().2,
            r == 0,
    {
        proof {
            use_type_invariant(self);
            let l = self.label;
            assert((l & 0b11u8) >> 6u8 == 0) by (bit_vector);
        }
        self.sensor_id
    }

    pub fn unit_scale(&self) -> (r: u8)
        ensures
            r == self.model().3,
            r == 0,
    {
        proof {
            use_type_invariant(self);
            let l = self.label;
            assert((l & 0b11u8) >> 4u8 == 0) by (bit_vector);
        }
        self.unit_scale
    }

    pub fn sensor_type(&self) -> (r: &SensorType)
        ensures
            *r == self.model().4,
            SensorType::spec_from_bits(self.model().0 % 16) == Some(*r),
    {
        proof {
            use_type_invariant(self);
        }
        &self.sensor_type
    }

    pub fn from_bytes(bytes: &[u8]) -> (r: Option<Self>)
        ensures
            bytes@.len() < 5 ==> r is None,
            bytes@.len() >= 5 ==> (r is Some <==> bytes@[0] % 16 < 4),
            r matches Some(x) ==> Some(x.model()) == labeled_data_model(
                bytes@[0],
                u32_le_value(bytes@[1], bytes@[2], bytes@[3], bytes@[4]) as u32,
            ),
    {
        if bytes.len() < 5 {
            return None;
        }
        let data = u32_from_le_bytes([bytes[1], bytes[2], bytes[3], bytes[4]]);
        Self::new_labeled_data(bytes[0], data)
    }
}

impl LabeledReadout<5> for DynamicLabeledReadout {
    type Data = u32;

    fn get_bytes(&self) -> (r: [u8; 5])
        ensures
            r@ == readout_bytes(self.model().0, self.model().1),
    {
        let data = u32_to_le_bytes(self.data);
        let r = [self.label, data[0], data[1], data[2], data[3]];
        assert(r@ =~= readout_bytes(self.model().0, self.model().1));
        r
    }

    fn get_data(&self) -> (r: u32)
        ensures
            r == self.model().1,
    {
        self.data
    }

    fn get_label(&self) -> (r: u8)
        ensures
            r == self.model().0,
    {
        self.label
    }
}

/// The quantity a readout measures.
pub enum SensorType {
    Thermometer,
    Higrometer,
    Barometer,
    Luxmeter,
}

impl SensorType {
    /// The label bits of a sensor type.
    pub open spec fn spec_bits(self) -> u8 {
        match self {
            SensorType::Thermometer => THERMOMETER_SENSOR_TYPE,
            SensorType::Higrometer => HIGROMETER_SENSOR_TYPE,
            SensorType::Barometer => BAROMETER_SENSOR_TYPE,
            SensorType::Luxmeter => LUXMETER_SENSOR_TYPE,
        }
    }

    /// The sensor type that label bits name, if any.
    pub open spec fn spec_from_bits(bits: u8) -> Option<SensorType> {
        if bits == THERMOMETER_SENSOR_TYPE {
            Some(SensorType::Thermometer)
        } else if bits == HIGROMETER_SENSOR_TYPE {
            Some(SensorType::Higrometer)
        } else if bits == BAROMETER_SENSOR_TYPE {
            Some(SensorType::Barometer)
        } else if bits == LUXMETER_SENSOR_TYPE {
            Some(SensorType::Luxmeter)
        } else {
            None
        }
    }

    pub fn get_bits(&self) -> (r: u8)
        ensures
            r == self.spec_bits(),
    {
        match self {
            Self::Thermometer => THERMOMETER_SENSOR_TYPE,
            Self::Higrometer => HIGROMETER_SENSOR_TYPE,
            Self::Barometer => BAROMETER_SENSOR_TYPE,
            Self::Luxmeter => LUXMETER_SENSOR_TYPE,
        }
    }

    pub fn from_bits(bits: u8) -> (r: Option<Self>)
        ensures
            r == Self::spec_from_bits(bits),
            r is Some <==> bits < 4,
    {
        match bits {
            THERMOMETER_SENSOR_TYPE => Some(Self::Thermometer),
            HIGROMETER_SENSOR_TYPE => Some(Self::Higrometer),
            BAROMETER_SENSOR_TYPE => Some(Self::Barometer),
            LUXMETER_SENSOR_TYPE => Some(Self::Luxmeter),
            _ => None,
        }
    }
}

/// The bits of a sensor type name it, and every value below four names the
/// sensor type whose bits it is.
pub proof fn lemma_sensor_type_bits_roundtrip(t: SensorType, bits: u8)
    ensures
        SensorType::spec_from_bits(t.spec_bits()) == Some(t),
        t.spec_bits() < 4,
        bits < 4 ==> SensorType::spec_from_bits(bits).unwrap().spec_bits() == bits,
{
}

/// The bytes of a readout whose type bits name a sensor type decode to a
/// readout with the same label, data and sensor type; sensor id and unit
/// scale are read as 0.
pub proof fn lemma_readout_decodes(sensor_id: u8, unit_scale: u8, sensor_type: u8, data: u32)
    requires
        sensor_type < 4,
    ensures
        ({
            let label = label_byte(sensor_id, unit_scale, sensor_type);
            let b = readout_bytes(label, data);
            labeled_data_model(b[0], u32_le_value(b[1], b[2], b[3], b[4]) as u32) == Some(
                (label, data, 0u8, 0u8, SensorType::spec_from_bits(sensor_type).unwrap()),
            )
        }),
{
    let label = label_byte(sensor_id, unit_scale, sensor_type);
    lemma_label_fields(sensor_id, unit_scale, sensor_type);
    lemma_readout_bytes_roundtrip(label, data);
    assert((label & 0b11u8) >> 6u8 == 0 && (label & 0b11u8) >> 4u8 == 0) by (bit_vector);
}

} // verus!
