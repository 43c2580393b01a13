use vstd::prelude::*;

pub mod consts;

verus! {

/// A readout that carries a label byte next to its data and can be laid
/// out as `N_BYTES` bytes.
pub trait LabeledReadout<const N_BYTES: usize> {
    type Data;

    fn get_label(&self) -> u8;

    fn get_data(&self) -> Self::Data;

    fn get_bytes(&self) -> [u8; N_BYTES];
}

/// The label byte of a readout: bits 7..6 hold the sensor id, bits 5..4 the
/// unit scale and bits 3..0 the sensor type.
pub open spec fn label_byte(sensor_id: u8, unit_scale: u8, sensor_type: u8) -> u8 {
    ((sensor_id % 4) * 64 + (unit_scale % 4) * 16 + sensor_type % 16) as u8
}

/// The five bytes of a readout: the label, then the data least significant
/// byte first.
pub open spec fn readout_bytes(label: u8, data: u32) -> Seq<u8> {
    seq![label] + crate::le_bytes::u32_le_seq(data)
}

/// The label that the shifts and masks of a typed readout compute is the
/// field layout of `label_byte`.
pub proof fn lemma_label_bits(sensor_id: u8, unit_scale: u8, sensor_type: u8)
    ensures
        (sensor_id << 6u8) | ((unit_scale & 0b11u8) << 4u8) | (sensor_type & 0b1111u8)
            == label_byte(sensor_id, unit_scale, sensor_type),
{
    let l = (sensor_id << 6u8) | ((unit_scale & 0b11u8) << 4u8) | (sensor_type & 0b1111u8);
    assert(l == (sensor_id % 4) * 64 + (unit_scale % 4) * 16 + sensor_type % 16) by (bit_vector)
        requires
            l == (sensor_id << 6u8) | ((unit_scale & 0b11u8) << 4u8) | (sensor_type & 0b1111u8),
    ;
}

/// Each field of a label can be read back from the label byte.
pub proof fn lemma_label_fields(sensor_id: u8, unit_scale: u8, sensor_type: u8)
    ensures
        label_byte(sensor_id, unit_scale, sensor_type) / 64 == sensor_id % 4,
        (label_byte(sensor_id, unit_scale, sensor_type) / 16) % 4 == unit_scale % 4,
        label_byte(sensor_id, unit_scale, sensor_type) % 16 == sensor_type % 16,
{
}

/// The five bytes of a readout give back its label and its data.
pub proof fn lemma_readout_bytes_roundtrip(label: u8, data: u32)
    ensures
        readout_bytes(label, data).len() == 5,
        readout_bytes(label, data)[0] == label,
        crate::le_bytes::u32_le_value(
            readout_bytes(label, data)[1],
            readout_bytes(label, data)[2],
            readout_bytes(label, data)[3],
            readout_bytes(label, data)[4],
        ) == data,
{
    crate::le_bytes::lemma_u32_le_roundtrip(data, 0, 0, 0, 0);
}

} // verus!
