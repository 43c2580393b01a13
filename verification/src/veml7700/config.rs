use vstd::prelude::*;

verus! {

/// Sensitivity mode settings
pub trait AlsSm {
    /// Bits in config register
    const BITS: u16;

    /// Scaling for calculations to avoid floating point arithmetics
    const SCALE_NUM: u32;

    const SCALE_DEN: u32;
}

/// The register bits and scaling of every setting.
pub proof fn lemma_setting_values()
    ensures
        Sm1::BITS == 0x0000 && Sm1::SCALE_NUM == 1000 && Sm1::SCALE_DEN == 1000,
        Sm2::BITS == 0x0800 && Sm2::SCALE_NUM == 42 && Sm2::SCALE_DEN == 1000,
        Sm1_4::BITS == 0x1000 && Sm1_4::SCALE_NUM == 336 && Sm1_4::SCALE_DEN == 1000,
        Sm1_8::BITS == 0x1800 && Sm1_8::SCALE_NUM == 168 && Sm1_8::SCALE_DEN == 1000,
        It100::BITS == 0x0000 && It100::IT_MS == 100,
        It200::BITS == 0x0040 && It200::IT_MS == 200,
        It400::BITS == 0x0080 && It400::IT_MS == 400,
        It800::BITS == 0x00C0 && It800::IT_MS == 800,
{
    assert(0b00u16 << 11u16 == 0x0000u16 && 0b01u16 << 11u16 == 0x0800u16 && 0b10u16 << 11u16
        == 0x1000u16 && 0b11u16 << 11u16 == 0x1800u16) by (bit_vector);
    assert(0b0000u16 << 6u16 == 0x0000u16 && 0b0001u16 << 6u16 == 0x0040u16 && 0b0010u16 << 6u16
        == 0x0080u16 && 0b0011u16 << 6u16 == 0x00C0u16) by (bit_vector);
}

/// Sensitivity: 1
pub struct Sm1;

/// Sensitivity: 2
pub struct Sm2;

/// Sensitivity 1/4
pub struct Sm1_4;

/// Sensitivity: 1/8
pub struct Sm1_8;

impl AlsSm for Sm1 {
    const BITS: u16 = 0b00 << 11;

    const SCALE_DEN: u32 = 1000;

    const SCALE_NUM: u32 = 1000;
}

impl AlsSm for Sm2 {
    const BITS: u16 = 0b01 << 11;

    const SCALE_DEN: u32 = 1000;

    const SCALE_NUM: u32 = 42;
}

impl AlsSm for Sm1_4 {
    const BITS: u16 = 0b10 << 11;

    const SCALE_DEN: u32 = 1000;

    const SCALE_NUM: u32 = 336;
}

impl AlsSm for Sm1_8 {
    const BITS: u16 = 0b11 << 11;

    const SCALE_DEN: u32 = 1000;

    const SCALE_NUM: u32 = 168;
}

/// Integration time settings
pub trait AlsIt {
    /// Bits in config register
    const BITS: u16;

    /// Time in ms
    const IT_MS: u32;
}

pub struct It100;

pub struct It200;

pub struct It400;

pub struct It800;

impl AlsIt for It100 {
    const BITS: u16 = 0b0000 << 6;

    const IT_MS: u32 = 100;
}

impl AlsIt for It200 {
    const BITS: u16 = 0b0001 << 6;

    const IT_MS: u32 = 200;
}

impl AlsIt for It400 {
    const BITS: u16 = 0b0010 << 6;

    const IT_MS: u32 = 400;
}

impl AlsIt for It800 {
    const BITS: u16 = 0b0011 << 6;

    const IT_MS: u32 = 800;
}

} // verus!
