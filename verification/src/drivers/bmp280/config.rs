use vstd::prelude::*;

verus! {

// Register 0xf4 (ctrl_meas)
pub const TEMP_OVERSAMPLING_OFFSET: u8 = 5;

pub const PRESS_OVERSAMPLING_OFFSET: u8 = 2;

pub const POWER_MODE_OFFSET: u8 = 0;

// Register 0xf5 (config)
pub const STANDBY_OFFSET: u8 = 5;

pub const IIR_CONSTANT_OFFSET: u8 = 2;

pub const EN_SPI_OFFSET: u8 = 0;

/// A sensor setting, chosen at the type level; its register values are
/// derived from the chosen settings.
pub trait Config {
    type TempOversampling: Oversampling;

    type PressOversampling: Oversampling;

    type PowerMode: PowerMode;

    type Standby: Standby;

    type IIR: IIRConstant;

    const CTRL_MEAS_VALUE: u8 = Self::TempOversampling::BITS << TEMP_OVERSAMPLING_OFFSET
        | Self::PressOversampling::BITS << PRESS_OVERSAMPLING_OFFSET
        | Self::PowerMode::BITS << POWER_MODE_OFFSET;

    const CONFIG_VALUE: u8 = Self::Standby::BITS << STANDBY_OFFSET
        | Self::IIR::BITS << IIR_CONSTANT_OFFSET
    // Disable SPI mode
    | 0b0 << EN_SPI_OFFSET;
}

/// The ctrl_meas register: | 3 bit temperature oversampling | 3 bit pressure
/// oversampling | 2 bit power mode |.
pub open spec fn ctrl_meas_value(temp_os: u8, press_os: u8, mode: u8) -> u8 {
    ((temp_os * 32 + press_os * 4 + mode) % 256) as u8
}

/// The config register: | 3 bit standby | 3 bit IIR filter | 1 bit unused |
/// 1 bit SPI enable (off) |.
pub open spec fn config_value(standby: u8, iir: u8) -> u8 {
    ((standby * 32 + iir * 4) % 256) as u8
}

/// The register values a configuration derives from its settings (the
/// shifts and ors in `Config`) are the field layouts above, whenever each
/// setting fits its field.
pub proof fn lemma_config_register_values(t: u8, p: u8, m: u8, s: u8, f: u8)
    requires
        t < 8,
        p < 8,
        m < 4,
        s < 8,
        f < 8,
    ensures
        t << TEMP_OVERSAMPLING_OFFSET | p << PRESS_OVERSAMPLING_OFFSET | m << POWER_MODE_OFFSET
            == ctrl_meas_value(t, p, m),
        s << STANDBY_OFFSET | f << IIR_CONSTANT_OFFSET | 0b0u8 << EN_SPI_OFFSET == config_value(
            s,
            f,
        ),
{
    assert(t << 5u8 | p << 2u8 | m << 0u8 == ((t * 32 + p * 4 + m) % 256) as u8) by (bit_vector)
        requires
            t < 8,
            p < 8,
            m < 4,
    ;
    assert(s << 5u8 | f << 2u8 | 0u8 << 0u8 == ((s * 32 + f * 4) % 256) as u8) by (bit_vector)
        requires
            s < 8,
            f < 8,
    ;
}

/// Every setting can be read back from its register value.
pub proof fn lemma_register_fields(t: u8, p: u8, m: u8, s: u8, f: u8)
    requires
        t < 8,
        p < 8,
        m < 4,
        s < 8,
        f < 8,
    ensures
        ctrl_meas_value(t, p, m) / 32 == t,
        (ctrl_meas_value(t, p, m) / 4) % 8 == p,
        ctrl_meas_value(t, p, m) % 4 == m,
        config_value(s, f) / 32 == s,
        (config_value(s, f) / 4) % 8 == f,
        config_value(s, f) % 4 == 0,
{
}

/// The bits of every setting, and the register values of `DefaultConfig`.
pub proof fn lemma_setting_bits()
    ensures
        OversamplingSkipped::BITS == 0b000,
        OversamplingX1::BITS == 0b001,
        OversamplingX2::BITS == 0b010,
        OversamplingX4::BITS == 0b011,
        OversamplingX8::BITS == 0b100,
        OversamplingX16::BITS == 0b101,
        PowerModeSleep::BITS == 0b00,
        PowerModeForced::BITS == 0b10,
        PowerModeNormal::BITS == 0b11,
        Standby0_5ms::BITS == 0b000,
        Standby62_5ms::BITS == 0b001,
        Standby125ms::BITS == 0b010,
        Standby250ms::BITS == 0b011,
        Standby500ms::BITS == 0b100,
        Standby1000ms::BITS == 0b101,
        Standby2000ms::BITS == 0b110,
        Standby4000ms::BITS == 0b111,
        IIROff::BITS == 0b000,
        IIR2::BITS == 0b001,
        IIR4::BITS == 0b010,
        IIR8::BITS == 0b011,
        IIR16::BITS == 0b100,
        DefaultConfig::CTRL_MEAS_VALUE == 0x2A,
        DefaultConfig::CONFIG_VALUE == 0x00,
{
    lemma_config_register_values(0b001, 0b010, 0b10, 0b000, 0b000);
}

pub struct DefaultConfig;

impl Config for DefaultConfig {
    type TempOversampling = OversamplingX1;

    type PressOversampling = OversamplingX2;

    type PowerMode = PowerModeForced;

    type Standby = Standby0_5ms;

    type IIR = IIROff;
}

/// Temperature and pressure oversampling
pub trait Oversampling {
    const BITS: u8;
}

pub struct OversamplingSkipped;

pub struct OversamplingX1;

pub struct OversamplingX2;

pub struct OversamplingX4;

pub struct OversamplingX8;

pub struct OversamplingX16;

impl Oversampling for OversamplingSkipped {
    const BITS: u8 = 0b000;
}

impl Oversampling for OversamplingX1 {
    const BITS: u8 = 0b001;
}

impl Oversampling for OversamplingX2 {
    const BITS: u8 = 0b010;
}

impl Oversampling for OversamplingX4 {
    const BITS: u8 = 0b011;
}

impl Oversampling for OversamplingX8 {
    const BITS: u8 = 0b100;
}

impl Oversampling for OversamplingX16 {
    const BITS: u8 = 0b101;
}

/// Power mode
pub trait PowerMode {
    const BITS: u8;
}

pub struct PowerModeSleep;

pub struct PowerModeForced;

pub struct PowerModeNormal;

impl PowerMode for PowerModeSleep {
    const BITS: u8 = 0b00;
}

impl PowerMode for PowerModeForced {
    const BITS: u8 = 0b10;
}

impl PowerMode for PowerModeNormal {
    const BITS: u8 = 0b11;
}

/// Normal mode standby
pub trait Standby {
    const BITS: u8;
}

pub struct Standby0_5ms;

pub struct Standby62_5ms;

pub struct Standby125ms;

pub struct Standby250ms;

pub struct Standby500ms;

pub struct Standby1000ms;

pub struct Standby2000ms;

pub struct Standby4000ms;

impl Standby for Standby0_5ms {
    const BITS: u8 = 0b000;
}

impl Standby for Standby62_5ms {
    const BITS: u8 = 0b001;
}

impl Standby for Standby125ms {
    const BITS: u8 = 0b010;
}

impl Standby for Standby250ms {
    const BITS: u8 = 0b011;
}

impl Standby for Standby500ms {
    const BITS: u8 = 0b100;
}

impl Standby for Standby1000ms {
    const BITS: u8 = 0b101;
}

impl Standby for Standby2000ms {
    const BITS: u8 = 0b110;
}

impl Standby for Standby4000ms {
    const BITS: u8 = 0b111;
}

/// IIR filter time constant
pub trait IIRConstant {
    const BITS: u8;
}

pub struct IIROff;

pub struct IIR2;

pub struct IIR4;

pub struct IIR8;

pub struct IIR16;

impl IIRConstant for IIROff {
    const BITS: u8 = 0b000;
}

impl IIRConstant for IIR2 {
    const BITS: u8 = 0b001;
}

impl IIRConstant for IIR4 {
    const BITS: u8 = 0b010;
}

impl IIRConstant for IIR8 {
    const BITS: u8 = 0b011;
}

impl IIRConstant for IIR16 {
    const BITS: u8 = 0b100;
}

} // verus!
