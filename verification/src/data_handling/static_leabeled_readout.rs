use core::marker::PhantomData;

use vstd::prelude::*;

use crate::data_handling::labeled_readout::{
    label_byte, lemma_label_bits, readout_bytes, LabeledReadout,
};
use crate::le_bytes::u32_to_le_bytes;

verus! {

/// A readout whose label is fixed by its type parameters.
pub struct TypedLabelReadout<ID, SCALE, TYPE> {
    data: u32,
    _label: PhantomData<(ID, SCALE, TYPE)>,
}

impl<ID: SensorId, SCALE: UnitScale, TYPE: SensorType> TypedLabelReadout<ID, SCALE, TYPE> {
    /// The label byte that this readout type carries.
    pub open spec fn spec_label() -> u8 {
        label_byte(ID::BITS, SCALE::BITS, TYPE::BITS)
    }

    /// The data that this readout carries.
    pub closed spec fn spec_data(&self) -> u32 {
        self.data
    }

    pub fn new(data: u32) -> (r: Self)
        ensures
            r.spec_data() == data,
    {
        Self { data, _label: PhantomData }
    }

    fn label() -> (r: u8)
        ensures
            r == Self::spec_label(),
    {
        let l = ID::BITS << 6 | (SCALE::BITS & 0b11) << 4 | (TYPE::BITS & 0b1111);
        proof {
            lemma_label_bits(ID::BITS, SCALE::BITS, TYPE::BITS);
        }
        l
    }
}

impl<ID: SensorId, SCALE: UnitScale, TYPE: SensorType> LabeledReadout<5> for TypedLabelReadout<
    ID,
    SCALE,
    TYPE,
> {
    type Data = u32;

    fn get_label(&self) -> (r: u8)
        ensures
            r == Self::spec_label(),
    {
        Self::label()
    }

    fn get_data(&self) -> (r: u32)
        ensures
            r == self.spec_data(),
    {
        self.data
    }

    fn get_bytes(&self) -> (r: [u8; 5])
        ensures
            r@ == readout_bytes(Self::spec_label(), self.spec_data()),
    {
        let data = u32_to_le_bytes(self.data);
        let r = [Self::label(), data[0], data[1], data[2], data[3]];
        assert(r@ =~= readout_bytes(Self::spec_label(), self.spec_data()));
        r
    }
}

/// The two label bits that name a sensor among those of one kind.
pub trait SensorId {
    const BITS: u8;
}

pub struct SensorId0;

pub struct SensorId1;

pub struct SensorId2;

pub struct SensorId3;

impl SensorId for SensorId0 {
    const BITS: u8 = 0b00;
}

impl SensorId for SensorId1 {
    const BITS: u8 = 0b01;
}

impl SensorId for SensorId2 {
    const BITS: u8 = 0b10;
}

impl SensorId for SensorId3 {
    const BITS: u8 = 0b11;
}

/// The two label bits that give the power of ten the data is scaled by.
pub trait UnitScale {
    const BITS: u8;
}

/// Unit scale of 1
pub struct UnitScale1;

/// Unit scale of 0.1
pub struct UnitScale1_10;

/// Unit scale of 0.01
pub struct UnitScale1_100;

/// Unit scale of 0.001
pub struct UnitScale1_1000;

impl UnitScale for UnitScale1 {
    const BITS: u8 = 0b00;
}

impl UnitScale for UnitScale1_10 {
    const BITS: u8 = 0b01;
}

impl UnitScale for UnitScale1_100 {
    const BITS: u8 = 0b10;
}

impl UnitScale for UnitScale1_1000 {
    const BITS: u8 = 0b11;
}

/// The four label bits that name the measured quantity.
pub trait SensorType {
    const BITS: u8;
}

pub struct Thermometer;

pub struct Higrometer;

pub struct Barometer;

pub struct Luxmeter;

impl SensorType for Thermometer {
    const BITS: u8 = 0b0000;
}

impl SensorType for Higrometer {
    const BITS: u8 = 0b0001;
}

impl SensorType for Barometer {
    const BITS: u8 = 0b0010;
}

impl SensorType for Luxmeter {
    const BITS: u8 = 0b0011;
}

/// The bits each label field type stands for.
pub proof fn lemma_label_field_bits()
    ensures
        SensorId0::BITS == 0,
        SensorId1::BITS == 1,
        SensorId2::BITS == 2,
        SensorId3::BITS == 3,
        UnitScale1::BITS == 0,
        UnitScale1_10::BITS == 1,
        UnitScale1_100::BITS == 2,
        UnitScale1_1000::BITS == 3,
        Thermometer::BITS == 0,
        Higrometer::BITS == 1,
        Barometer::BITS == 2,
        Luxmeter::BITS == 3,
{
}

} // verus!
