//! Control-register map of the ES8388 audio codec.
//!
//! The chip itself sits behind an I2C bus that this crate never touches; what
//! lives here is the pure register table: addresses, datasheet default
//! values, and the bit-field constructors for the handful of configuration
//! registers the driver programs.

use vstd::prelude::*;

verus! {

/// ES8388 control registers, one variant per register address.
#[derive(Debug, Clone, Copy, PartialEq, Eq, Structural)]
pub enum Command {
    ChipControl1,
    ChipControl2,
    ChipPowerManagement,
    AdcPowerManagement,
    DacPowerManagement,
    ChipLowPower1,
    ChipLowPower2,
    AnalogVoltageManagement,
    MasterModeControl,
    AdcControl1,
    AdcControl2,
    AdcControl3,
    AdcControl4,
    AdcControl5,
    AdcControl6,
    AdcControl7,
    AdcControl8,
    AdcControl9,
    AdcControl10,
    AdcControl11,
    AdcControl12,
    AdcControl13,
    AdcControl14,
    DacControl1,
    DacControl2,
    DacControl3,
    DacControl4,
    DacControl5,
    DacControl6,
    DacControl7,
    DacControl8,
    DacControl9,
    DacControl10,
    DacControl11,
    DacControl12,
    DacControl13,
    DacControl14,
    DacControl15,
    DacControl16,
    DacControl17,
    DacControl18,
    DacControl19,
    DacControl20,
    DacControl21,
    DacControl22,
    DacControl23,
    DacControl24,
    DacControl25,
    DacControl26,
    DacControl27,
    DacControl28,
    DacControl29,
    DacControl30,
}

impl Command {
    /// Register address of each command, as the datasheet numbers them.
    pub open spec fn spec_reg_addr(self) -> u8 {
        match self {
            Command::ChipControl1 => 0x00,
            Command::ChipControl2 => 0x01,
            Command::ChipPowerManagement => 0x02,
            Command::AdcPowerManagement => 0x03,
            Command::DacPowerManagement => 0x04,
            Command::ChipLowPower1 => 0x05,
            Command::ChipLowPower2 => 0x06,
            Command::AnalogVoltageManagement => 0x07,
            Command::MasterModeControl => 0x08,
            Command::AdcControl1 => 0x09,
            Command::AdcControl2 => 0x0A,
            Command::AdcControl3 => 0x0B,
            Command::AdcControl4 => 0x0C,
            Command::AdcControl5 => 0x0D,
            Command::AdcControl6 => 0x0E,
            Command::AdcControl7 => 0x0F,
            Command::AdcControl8 => 0x10,
            Command::AdcControl9 => 0x11,
            Command::AdcControl10 => 0x12,
            Command::AdcControl11 => 0x13,
            Command::AdcControl12 => 0x14,
            Command::AdcControl13 => 0x15,
            Command::AdcControl14 => 0x16,
            Command::DacControl1 => 0x17,
            Command::DacControl2 => 0x18,
            Command::DacControl3 => 0x19,
            Command::DacControl4 => 0x1A,
            Command::DacControl5 => 0x1B,
            Command::DacControl6 => 0x1C,
            Command::DacControl7 => 0x1D,
            Command::DacControl8 => 0x1E,
            Command::DacControl9 => 0x1F,
            Command::DacControl10 => 0x20,
            Command::DacControl11 => 0x21,
            Command::DacControl12 => 0x22,
            Command::DacControl13 => 0x23,
            Command::DacControl14 => 0x24,
            Command::DacControl15 => 0x25,
            Command::DacControl16 => 0x26,
            Command::DacControl17 => 0x27,
            Command::DacControl18 => 0x28,
            Command::DacControl19 => 0x29,
            Command::DacControl20 => 0x2A,
            Command::DacControl21 => 0x2B,
            Command::DacControl22 => 0x2C,
            Command::DacControl23 => 0x2D,
            Command::DacControl24 => 0x2E,
            Command::DacControl25 => 0x2F,
            Command::DacControl26 => 0x30,
            Command::DacControl27 => 0x31,
            Command::DacControl28 => 0x32,
            Command::DacControl29 => 0x33,
            Command::DacControl30 => 0x34,
        }
    }

    /// Register address of this command.
    pub fn reg_addr(&self) -> (r: u8)
        ensures
            r == self.spec_reg_addr(),
    {
        match self {
            Command::ChipControl1 => 0x00,
            Command::ChipControl2 => 0x01,
            Command::ChipPowerManagement => 0x02,
            Command::AdcPowerManagement => 0x03,
            Command::DacPowerManagement => 0x04,
            Command::ChipLowPower1 => 0x05,
            Command::ChipLowPower2 => 0x06,
            Command::AnalogVoltageManagement => 0x07,
            Command::MasterModeControl => 0x08,
            Command::AdcControl1 => 0x09,
            Command::AdcControl2 => 0x0A,
            Command::AdcControl3 => 0x0B,
            Command::AdcControl4 => 0x0C,
            Command::AdcControl5 => 0x0D,
            Command::AdcControl6 => 0x0E,
            Command::AdcControl7 => 0x0F,
            Command::AdcControl8 => 0x10,
            Command::AdcControl9 => 0x11,
            Command::AdcControl10 => 0x12,
            Command::AdcControl11 => 0x13,
            Command::AdcControl12 => 0x14,
            Command::AdcControl13 => 0x15,
            Command::AdcControl14 => 0x16,
            Command::DacControl1 => 0x17,
            Command::DacControl2 => 0x18,
            Command::DacControl3 => 0x19,
            Command::DacControl4 => 0x1A,
            Command::DacControl5 => 0x1B,
            Command::DacControl6 => 0x1C,
            Command::DacControl7 => 0x1D,
            Command::DacControl8 => 0x1E,
            Command::DacControl9 => 0x1F,
            Command::DacControl10 => 0x20,
            Command::DacControl11 => 0x21,
            Command::DacControl12 => 0x22,
            Command::DacControl13 => 0x23,
            Command::DacControl14 => 0x24,
            Command::DacControl15 => 0x25,
            Command::DacControl16 => 0x26,
            Command::DacControl17 => 0x27,
            Command::DacControl18 => 0x28,
            Command::DacControl19 => 0x29,
            Command::DacControl20 => 0x2A,
            Command::DacControl21 => 0x2B,
            Command::DacControl22 => 0x2C,
            Command::DacControl23 => 0x2D,
            Command::DacControl24 => 0x2E,
            Command::DacControl25 => 0x2F,
            Command::DacControl26 => 0x30,
            Command::DacControl27 => 0x31,
            Command::DacControl28 => 0x32,
            Command::DacControl29 => 0x33,
            Command::DacControl30 => 0x34,
        }
    }

    /// Power-on default of each register, as the datasheet gives it;
    /// registers the datasheet leaves at zero are zero.
    pub open spec fn spec_default_value(self) -> u8 {
        match self {
            Command::ChipControl1 => 0x06,
            Command::ChipControl2 => 0x5C,
            Command::ChipPowerManagement => 0xC3,
            Command::AdcPowerManagement => 0xFC,
            Command::DacPowerManagement => 0xC0,
            Command::AnalogVoltageManagement => 0x7C,
            Command::MasterModeControl => 0x80,
            Command::AdcControl3 => 0x02,
            Command::AdcControl5 => 0x06,
            Command::AdcControl6 => 0x30,
            Command::AdcControl7 => 0x20,
            Command::AdcControl8 => 0xC0,
            Command::AdcControl9 => 0xC0,
            Command::AdcControl10 => 0x38,
            Command::AdcControl11 => 0xB0,
            Command::AdcControl12 => 0x32,
            Command::AdcControl13 => 0x06,
            Command::DacControl2 => 0x06,
            Command::DacControl3 => 0x22,
            Command::DacControl4 => 0xC0,
            Command::DacControl5 => 0xC0,
            Command::DacControl6 => 0x08,
            Command::DacControl8 => 0x1F,
            Command::DacControl9 => 0xF7,
            Command::DacControl10 => 0xFD,
            Command::DacControl11 => 0xFF,
            Command::DacControl12 => 0x1F,
            Command::DacControl13 => 0xF7,
            Command::DacControl14 => 0xFD,
            Command::DacControl15 => 0xFF,
            Command::DacControl17 => 0x38,
            Command::DacControl18 => 0x28,
            Command::DacControl19 => 0x28,
            Command::DacControl20 => 0x38,
            Command::DacControl29 => 0xAA,
            Command::DacControl30 => 0xAA,
            _ => 0x00,
        }
    }

    /// Power-on default value of this register.
    pub fn default_value(&self) -> (r: u8)
        ensures
            r == self.spec_default_value(),
    {
        match self {
            Command::ChipControl1 => 0x06,
            Command::ChipControl2 => 0x5C,
            Command::ChipPowerManagement => 0xC3,
            Command::AdcPowerManagement => 0xFC,
            Command::DacPowerManagement => 0xC0,
            Command::AnalogVoltageManagement => 0x7C,
            Command::MasterModeControl => 0x80,
            Command::AdcControl3 => 0x02,
            Command::AdcControl5 => 0x06,
            Command::AdcControl6 => 0x30,
            Command::AdcControl7 => 0x20,
            Command::AdcControl8 => 0xC0,
            Command::AdcControl9 => 0xC0,
            Command::AdcControl10 => 0x38,
            Command::AdcControl11 => 0xB0,
            Command::AdcControl12 => 0x32,
            Command::AdcControl13 => 0x06,
            Command::DacControl2 => 0x06,
            Command::DacControl3 => 0x22,
            Command::DacControl4 => 0xC0,
            Command::DacControl5 => 0xC0,
            Command::DacControl6 => 0x08,
            Command::DacControl8 => 0x1F,
            Command::DacControl9 => 0xF7,
            Command::DacControl10 => 0xFD,
            Command::DacControl11 => 0xFF,
            Command::DacControl12 => 0x1F,
            Command::DacControl13 => 0xF7,
            Command::DacControl14 => 0xFD,
            Command::DacControl15 => 0xFF,
            Command::DacControl17 => 0x38,
            Command::DacControl18 => 0x28,
            Command::DacControl19 => 0x28,
            Command::DacControl20 => 0x38,
            Command::DacControl29 => 0xAA,
            Command::DacControl30 => 0xAA,
            _ => 0x00,
        }
    }

    /// The command a register address stands for, `None` for an address
    /// outside the register map.
    pub fn from_reg_addr(addr: u8) -> (r: Option<Command>)
        ensures
            r matches Some(c) ==> c.spec_reg_addr() == addr,
            r is None <==> addr > 0x34,
    {
        match addr {
            0x00 => Some(Command::ChipControl1),
            0x01 => Some(Command::ChipControl2),
            0x02 => Some(Command::ChipPowerManagement),
            0x03 => Some(Command::AdcPowerManagement),
            0x04 => Some(Command::DacPowerManagement),
            0x05 => Some(Command::ChipLowPower1),
            0x06 => Some(Command::ChipLowPower2),
            0x07 => Some(Command::AnalogVoltageManagement),
            0x08 => Some(Command::MasterModeControl),
            0x09 => Some(Command::AdcControl1),
            0x0A => Some(Command::AdcControl2),
            0x0B => Some(Command::AdcControl3),
            0x0C => Some(Command::AdcControl4),
            0x0D => Some(Command::AdcControl5),
            0x0E => Some(Command::AdcControl6),
            0x0F => Some(Command::AdcControl7),
            0x10 => Some(Command::AdcControl8),
            0x11 => Some(Command::AdcControl9),
            0x12 => Some(Command::AdcControl10),
            0x13 => Some(Command::AdcControl11),
            0x14 => Some(Command::AdcControl12),
            0x15 => Some(Command::AdcControl13),
            0x16 => Some(Command::AdcControl14),
            0x17 => Some(Command::DacControl1),
            0x18 => Some(Command::DacControl2),
            0x19 => Some(Command::DacControl3),
            0x1A => Some(Command::DacControl4),
            0x1B => Some(Command::DacControl5),
            0x1C => Some(Command::DacControl6),
            0x1D => Some(Command::DacControl7),
            0x1E => Some(Command::DacControl8),
            0x1F => Some(Command::DacControl9),
            0x20 => Some(Command::DacControl10),
            0x21 => Some(Command::DacControl11),
            0x22 => Some(Command::DacControl12),
            0x23 => Some(Command::DacControl13),
            0x24 => Some(Command::DacControl14),
            0x25 => Some(Command::DacControl15),
            0x26 => Some(Command::DacControl16),
            0x27 => Some(Command::DacControl17),
            0x28 => Some(Command::DacControl18),
            0x29 => Some(Command::DacControl19),
            0x2A => Some(Command::DacControl20),
            0x2B => Some(Command::DacControl21),
            0x2C => Some(Command::DacControl22),
            0x2D => Some(Command::DacControl23),
            0x2E => Some(Command::DacControl24),
            0x2F => Some(Command::DacControl25),
            0x30 => Some(Command::DacControl26),
            0x31 => Some(Command::DacControl27),
            0x32 => Some(Command::DacControl28),
            0x33 => Some(Command::DacControl29),
            0x34 => Some(Command::DacControl30),
            _ => None,
        }
    }
}

/// Addresses and commands map to each other exactly: decoding an encoded
/// command gives the command back, for every register.
pub proof fn lemma_reg_addr_round_trip(c: Command)
    ensures
        forall|d: Command| c.spec_reg_addr() == d.spec_reg_addr() ==> c == d,
{
}

/// VMID divider selection bits of `ChipControl1`.
#[derive(Debug, Clone, Copy, PartialEq, Eq, Structural)]
pub enum VmidDivider {
    Disabled,
    Divider50k,
    Divider500k,
    Divider5k,
}

impl VmidDivider {
    /// The field's encoding in the register.
    pub open spec fn spec_value(self) -> u8 {
        match self {
            VmidDivider::Disabled => 0x00,
            VmidDivider::Divider50k => 0x01,
            VmidDivider::Divider500k => 0x02,
            VmidDivider::Divider5k => 0x03,
        }
    }

    /// The field's encoding in the register.
    pub fn value(self) -> (r: u8)
        ensures
            r == self.spec_value(),
    {
        match self {
            VmidDivider::Disabled => 0x00,
            VmidDivider::Divider50k => 0x01,
            VmidDivider::Divider500k => 0x02,
            VmidDivider::Divider5k => 0x03,
        }
    }
}

/// Serial port mode bit of `MasterModeControl`.
#[derive(Debug, Clone, Copy, PartialEq, Eq, Structural)]
pub enum SerialPortMode {
    Slave,
    Master,
}

impl SerialPortMode {
    /// The field's encoding in the register.
    pub open spec fn spec_value(self) -> u8 {
        match self {
            SerialPortMode::Slave => 0x00,
            SerialPortMode::Master => 0x80,
        }
    }

    /// The field's encoding in the register.
    pub fn value(self) -> (r: u8)
        ensures
            r == self.spec_value(),
    {
        match self {
            SerialPortMode::Slave => 0x00,
            SerialPortMode::Master => 0x80,
        }
    }
}

/// Microphone PGA gain steps of `AdcControl1`.
#[derive(Debug, Clone, Copy, PartialEq, Eq, Structural)]
pub enum MicPgaGain {
    Gain0Db,
    Gain3Db,
    Gain6Db,
    Gain9Db,
    Gain12Db,
    Gain15Db,
    Gain18Db,
    Gain21Db,
    Gain24Db,
}

impl MicPgaGain {
    /// The field's encoding in the register.
    pub open spec fn spec_value(self) -> u8 {
        match self {
            MicPgaGain::Gain0Db => 0x00,
            MicPgaGain::Gain3Db => 0x01,
            MicPgaGain::Gain6Db => 0x02,
            MicPgaGain::Gain9Db => 0x03,
            MicPgaGain::Gain12Db => 0x04,
            MicPgaGain::Gain15Db => 0x05,
            MicPgaGain::Gain18Db => 0x06,
            MicPgaGain::Gain21Db => 0x07,
            MicPgaGain::Gain24Db => 0x08,
        }
    }

    /// The field's encoding in the register.
    pub fn value(self) -> (r: u8)
        ensures
            r == self.spec_value(),
    {
        match self {
            MicPgaGain::Gain0Db => 0x00,
            MicPgaGain::Gain3Db => 0x01,
            MicPgaGain::Gain6Db => 0x02,
            MicPgaGain::Gain9Db => 0x03,
            MicPgaGain::Gain12Db => 0x04,
            MicPgaGain::Gain15Db => 0x05,
            MicPgaGain::Gain18Db => 0x06,
            MicPgaGain::Gain21Db => 0x07,
            MicPgaGain::Gain24Db => 0x08,
        }
    }
}

/// ADC input channel selection of `AdcControl2`.
#[derive(Debug, Clone, Copy, PartialEq, Eq, Structural)]
pub enum AdcInputChannel {
    Input1,
    Input2,
    Reserved,
    Differential,
}

impl AdcInputChannel {
    /// The field's encoding before shifting into its register position.
    pub open spec fn spec_value(self) -> u8 {
        match self {
            AdcInputChannel::Input1 => 0x00,
            AdcInputChannel::Input2 => 0x01,
            AdcInputChannel::Reserved => 0x02,
            AdcInputChannel::Differential => 0x03,
        }
    }

    /// The field's encoding before shifting into its register position.
    pub fn value(self) -> (r: u8)
        ensures
            r == self.spec_value(),
    {
        match self {
            AdcInputChannel::Input1 => 0x00,
            AdcInputChannel::Input2 => 0x01,
            AdcInputChannel::Reserved => 0x02,
            AdcInputChannel::Differential => 0x03,
        }
    }
}

/// Audio data format field shared by `AdcControl4` and `DacControl1`.
#[derive(Debug, Clone, Copy, PartialEq, Eq, Structural)]
pub enum AudioDataFormat {
    I2s,
    LeftJustified,
    RightJustified,
    DspPcm,
}

impl AudioDataFormat {
    /// The field's encoding in the register.
    pub open spec fn spec_value(self) -> u8 {
        match self {
            AudioDataFormat::I2s => 0x00,
            AudioDataFormat::LeftJustified => 0x01,
            AudioDataFormat::RightJustified => 0x02,
            AudioDataFormat::DspPcm => 0x03,
        }
    }

    /// The field's encoding in the register.
    pub fn value(self) -> (r: u8)
        ensures
            r == self.spec_value(),
    {
        match self {
            AudioDataFormat::I2s => 0x00,
            AudioDataFormat::LeftJustified => 0x01,
            AudioDataFormat::RightJustified => 0x02,
            AudioDataFormat::DspPcm => 0x03,
        }
    }
}

/// Audio word width field shared by `AdcControl4` and `DacControl1`.
#[derive(Debug, Clone, Copy, PartialEq, Eq, Structural)]
pub enum AudioBitWidth {
    Bit24,
    Bit20,
    Bit18,
    Bit16,
    Bit32,
}

impl AudioBitWidth {
    /// The field's encoding before shifting into its register position.
    pub open spec fn spec_value(self) -> u8 {
        match self {
            AudioBitWidth::Bit24 => 0x00,
            AudioBitWidth::Bit20 => 0x01,
            AudioBitWidth::Bit18 => 0x02,
            AudioBitWidth::Bit16 => 0x03,
            AudioBitWidth::Bit32 => 0x04,
        }
    }

    /// The field's encoding before shifting into its register position.
    pub fn value(self) -> (r: u8)
        ensures
            r == self.spec_value(),
    {
        match self {
            AudioBitWidth::Bit24 => 0x00,
            AudioBitWidth::Bit20 => 0x01,
            AudioBitWidth::Bit18 => 0x02,
            AudioBitWidth::Bit16 => 0x03,
            AudioBitWidth::Bit32 => 0x04,
        }
    }
}

/// Sample-rate mode bit shared by `AdcControl5` and `DacControl2`.
#[derive(Debug, Clone, Copy, PartialEq, Eq, Structural)]
pub enum SampleRateMode {
    SingleSpeed,
    DoubleSpeed,
}

impl SampleRateMode {
    /// The field's encoding in the register.
    pub open spec fn spec_value(self) -> u8 {
        match self {
            SampleRateMode::SingleSpeed => 0x00,
            SampleRateMode::DoubleSpeed => 0x20,
        }
    }

    /// The field's encoding in the register.
    pub fn value(self) -> (r: u8)
        ensures
            r == self.spec_value(),
    {
        match self {
            SampleRateMode::SingleSpeed => 0x00,
            SampleRateMode::DoubleSpeed => 0x20,
        }
    }
}

/// Master-mode MCLK/LRCK ratio field shared by `AdcControl5` and
/// `DacControl2`.
#[derive(Debug, Clone, Copy, PartialEq, Eq, Structural)]
pub enum MclkLrckRatio {
    Ratio128,
    Ratio256,
    Ratio384,
    Ratio512,
    Ratio768,
    Ratio1024,
}

impl MclkLrckRatio {
    /// The field's encoding in the register.
    pub open spec fn spec_value(self) -> u8 {
        match self {
            MclkLrckRatio::Ratio128 => 0x00,
            MclkLrckRatio::Ratio256 => 0x02,
            MclkLrckRatio::Ratio384 => 0x03,
            MclkLrckRatio::Ratio512 => 0x04,
            MclkLrckRatio::Ratio768 => 0x06,
            MclkLrckRatio::Ratio1024 => 0x07,
        }
    }

    /// The field's encoding in the register.
    pub fn value(self) -> (r: u8)
        ensures
            r == self.spec_value(),
    {
        match self {
            MclkLrckRatio::Ratio128 => 0x00,
            MclkLrckRatio::Ratio256 => 0x02,
            MclkLrckRatio::Ratio384 => 0x03,
            MclkLrckRatio::Ratio512 => 0x04,
            MclkLrckRatio::Ratio768 => 0x06,
            MclkLrckRatio::Ratio1024 => 0x07,
        }
    }
}

/// Automatic level control mode of `AdcControl10`.
#[derive(Debug, Clone, Copy, PartialEq, Eq, Structural)]
pub enum AlcMode {
    Off,
    RightOnly,
    LeftOnly,
    Stereo,
}

impl AlcMode {
    /// The field's encoding in the register.
    pub open spec fn spec_value(self) -> u8 {
        match self {
            AlcMode::Off => 0x00,
            AlcMode::RightOnly => 0x40,
            AlcMode::LeftOnly => 0x80,
            AlcMode::Stereo => 0xC0,
        }
    }

    /// The field's encoding in the register.
    pub fn value(self) -> (r: u8)
        ensures
            r == self.spec_value(),
    {
        match self {
            AlcMode::Off => 0x00,
            AlcMode::RightOnly => 0x40,
            AlcMode::LeftOnly => 0x80,
            AlcMode::Stereo => 0xC0,
        }
    }
}

/// De-emphasis selection of `DacControl6`.
#[derive(Debug, Clone, Copy, PartialEq, Eq, Structural)]
pub enum DeemphasisMode {
    Disabled,
    Fs32kHz,
    Fs44_1kHz,
    Fs48kHz,
}

impl DeemphasisMode {
    /// The field's encoding in the register.
    pub open spec fn spec_value(self) -> u8 {
        match self {
            DeemphasisMode::Disabled => 0x00,
            DeemphasisMode::Fs32kHz => 0x40,
            DeemphasisMode::Fs44_1kHz => 0x80,
            DeemphasisMode::Fs48kHz => 0xC0,
        }
    }

    /// The field's encoding in the register.
    pub fn value(self) -> (r: u8)
        ensures
            r == self.spec_value(),
    {
        match self {
            DeemphasisMode::Disabled => 0x00,
            DeemphasisMode::Fs32kHz => 0x40,
            DeemphasisMode::Fs44_1kHz => 0x80,
            DeemphasisMode::Fs48kHz => 0xC0,
        }
    }
}

/// Mono/stereo output selection of `DacControl7`.
#[derive(Debug, Clone, Copy, PartialEq, Eq, Structural)]
pub enum DacOutputMode {
    Stereo,
    Mono,
}

impl DacOutputMode {
    /// The field's encoding in the register.
    pub open spec fn spec_value(self) -> u8 {
        match self {
            DacOutputMode::Stereo => 0x00,
            DacOutputMode::Mono => 0x20,
        }
    }

    /// The field's encoding in the register.
    pub fn value(self) -> (r: u8)
        ensures
            r == self.spec_value(),
    {
        match self {
            DacOutputMode::Stereo => 0x00,
            DacOutputMode::Mono => 0x20,
        }
    }
}

/// Output amplitude selection of `DacControl7`.
#[derive(Debug, Clone, Copy, PartialEq, Eq, Structural)]
pub enum DacOutputVpp {
    V3_5,
    V4_0,
    V3_0,
    V2_5,
}

impl DacOutputVpp {
    /// The field's encoding in the register.
    pub open spec fn spec_value(self) -> u8 {
        match self {
            DacOutputVpp::V3_5 => 0x00,
            DacOutputVpp::V4_0 => 0x01,
            DacOutputVpp::V3_0 => 0x02,
            DacOutputVpp::V2_5 => 0x03,
        }
    }

    /// The field's encoding in the register.
    pub fn value(self) -> (r: u8)
        ensures
            r == self.spec_value(),
    {
        match self {
            DacOutputVpp::V3_5 => 0x00,
            DacOutputVpp::V4_0 => 0x01,
            DacOutputVpp::V3_0 => 0x02,
            DacOutputVpp::V2_5 => 0x03,
        }
    }
}

impl Command {
    /// Value for `AdcControl2`: left channel in bits 7..6, right channel in
    /// bits 5..4.
    pub fn build_adc_input_config(left_chan: AdcInputChannel, right_chan: AdcInputChannel) -> (r:
        u8)
        ensures
            r == left_chan.spec_value() * 64 + right_chan.spec_value() * 16,
    {
        left_chan.value() * 64 + right_chan.value() * 16
    }

    /// Value for `AdcControl4` or `DacControl1`: word width in bits 4..2,
    /// serial format in bits 1..0.
    pub fn build_audio_format_config(format: AudioDataFormat, bit_width: AudioBitWidth) -> (r: u8)
        ensures
            r == bit_width.spec_value() * 4 + format.spec_value(),
    {
        bit_width.value() * 4 + format.value()
    }

    /// Value for `AdcControl5` or `DacControl2`: speed-mode bit joined with
    /// the MCLK/LRCK ratio field, whose bits do not overlap.
    pub fn build_sample_rate_config(mode: SampleRateMode, ratio: MclkLrckRatio) -> (r: u8)
        ensures
            r == mode.spec_value() + ratio.spec_value(),
    {
        mode.value() + ratio.value()
    }

    /// Value for `DacControl7`: mono bit joined with the amplitude field,
    /// whose bits do not overlap.
    pub fn build_dac_output_config(mode: DacOutputMode, vpp: DacOutputVpp) -> (r: u8)
        ensures
            r == mode.spec_value() + vpp.spec_value(),
    {
        mode.value() + vpp.value()
    }
}

/// Which converters the codec runs.
#[derive(Debug, Clone, Copy, PartialEq, Eq, Structural)]
pub enum RunMode {
    Adc,
    Dac,
    AdcDac,
}

impl RunMode {
    /// The playback path is in use.
    pub open spec fn uses_dac(self) -> bool {
        self == RunMode::Dac || self == RunMode::AdcDac
    }

    /// The record path is in use.
    pub open spec fn uses_adc(self) -> bool {
        self == RunMode::Adc || self == RunMode::AdcDac
    }
}

/// The register writes that initialize the codec for a mode: the chip and
/// clock setup, then the playback path (powered down until start, full
/// digital volume) when the DAC is used, then the record path when the ADC
/// is used.
pub open spec fn spec_init_commands(mode: RunMode) -> Seq<(u8, u8)> {
    seq![
        (Command::ChipControl1.spec_reg_addr(), 0x16u8),
        (Command::ChipControl2.spec_reg_addr(), 0x5Cu8),
        (Command::ChipPowerManagement.spec_reg_addr(), 0x00u8),
        (Command::MasterModeControl.spec_reg_addr(), 0x00u8),
    ] + (if mode.uses_dac() {
        seq![
            (Command::AdcPowerManagement.spec_reg_addr(), 0xFFu8),
            (Command::DacPowerManagement.spec_reg_addr(), 0x00u8),
            (Command::DacControl1.spec_reg_addr(), 0x18u8),
            (Command::DacControl2.spec_reg_addr(), 0x02u8),
            (Command::DacControl16.spec_reg_addr(), 0x00u8),
            (Command::DacControl17.spec_reg_addr(), 0x90u8),
            (Command::DacControl20.spec_reg_addr(), 0x90u8),
            (Command::DacControl21.spec_reg_addr(), 0x80u8),
            (Command::DacControl23.spec_reg_addr(), 0x00u8),
            (Command::DacControl4.spec_reg_addr(), 0x00u8),
            (Command::DacControl5.spec_reg_addr(), 0x00u8),
        ]
    } else {
        Seq::<(u8, u8)>::empty()
    }) + (if mode.uses_adc() {
        seq![
            (Command::AdcControl1.spec_reg_addr(), 0x22u8),
            (Command::AdcControl2.spec_reg_addr(), 0x00u8),
            (Command::AdcControl3.spec_reg_addr(), 0x00u8),
            (Command::AdcControl4.spec_reg_addr(), 0x0Cu8),
            (Command::AdcControl5.spec_reg_addr(), 0x02u8),
        ]
    } else {
        Seq::<(u8, u8)>::empty()
    })
}

/// The register writes that start the codec after initialization: power
/// the used paths up and set the output mix and analog volume to their
/// working levels.
pub open spec fn spec_start_commands(mode: RunMode) -> Seq<(u8, u8)> {
    (if mode.uses_adc() {
        seq![(Command::AdcPowerManagement.spec_reg_addr(), 0x00u8)]
    } else {
        Seq::<(u8, u8)>::empty()
    }) + (if mode.uses_dac() {
        seq![
            (Command::DacPowerManagement.spec_reg_addr(), 0xFCu8),
            (Command::DacControl17.spec_reg_addr(), 0x50u8),
            (Command::DacControl20.spec_reg_addr(), 0x50u8),
            (Command::DacControl24.spec_reg_addr(), 0x1Eu8),
            (Command::DacControl25.spec_reg_addr(), 0x1Eu8),
        ]
    } else {
        Seq::<(u8, u8)>::empty()
    })
}

/// Builds the initialization program for a mode, as register address and
/// value pairs, in the order they are written over the bus.
pub fn init_commands(mode: RunMode) -> (r: Vec<(u8, u8)>)
    ensures
        r@ =~= spec_init_commands(mode),
{
    let mut r: Vec<(u8, u8)> = Vec::new();
    r.push((Command::ChipControl1.reg_addr(), 0x16));
    r.push((Command::ChipControl2.reg_addr(), 0x5C));
    r.push((Command::ChipPowerManagement.reg_addr(), 0x00));
    r.push((Command::MasterModeControl.reg_addr(), 0x00));
    if mode == RunMode::Dac || mode == RunMode::AdcDac {
        r.push((Command::AdcPowerManagement.reg_addr(), 0xFF));
        r.push((Command::DacPowerManagement.reg_addr(), 0x00));
        r.push((Command::DacControl1.reg_addr(), 0x18));
        r.push((Command::DacControl2.reg_addr(), 0x02));
        r.push((Command::DacControl16.reg_addr(), 0x00));
        r.push((Command::DacControl17.reg_addr(), 0x90));
        r.push((Command::DacControl20.reg_addr(), 0x90));
        r.push((Command::DacControl21.reg_addr(), 0x80));
        r.push((Command::DacControl23.reg_addr(), 0x00));
        r.push((Command::DacControl4.reg_addr(), 0x00));
        r.push((Command::DacControl5.reg_addr(), 0x00));
    }
    if mode == RunMode::Adc || mode == RunMode::AdcDac {
        r.push((Command::AdcControl1.reg_addr(), 0x22));
        r.push((Command::AdcControl2.reg_addr(), 0x00));
        r.push((Command::AdcControl3.reg_addr(), 0x00));
        r.push((Command::AdcControl4.reg_addr(), 0x0C));
        r.push((Command::AdcControl5.reg_addr(), 0x02));
    }
    r
}

/// Builds the start program for a mode, as register address and value
/// pairs, in the order they are written over the bus.
pub fn start_commands(mode: RunMode) -> (r: Vec<(u8, u8)>)
    ensures
        r@ =~= spec_start_commands(mode),
{
    let mut r: Vec<(u8, u8)> = Vec::new();
    if mode == RunMode::Adc || mode == RunMode::AdcDac {
        r.push((Command::AdcPowerManagement.reg_addr(), 0x00));
    }
    if mode == RunMode::Dac || mode == RunMode::AdcDac {
        r.push((Command::DacPowerManagement.reg_addr(), 0xFC));
        r.push((Command::DacControl17.reg_addr(), 0x50));
        r.push((Command::DacControl20.reg_addr(), 0x50));
        r.push((Command::DacControl24.reg_addr(), 0x1E));
        r.push((Command::DacControl25.reg_addr(), 0x1E));
    }
    r
}

} // verus!
