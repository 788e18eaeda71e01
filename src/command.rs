use vstd::prelude::*;

verus! {

/// Register addresses of the panel controller.
#[derive(Clone, Copy, Debug, PartialEq, Eq, Structural)]
pub enum Command {
    /// Panel setting: resolution, LUT source, scan direction.
    PanelSetting,
    /// Power setting: internal or external power, gate and source voltages.
    PowerSetting,
    /// Turns the charge pump off.
    PowerOff,
    /// Timing of the power-off sequence.
    PowerOffSequenceSetting,
    /// Turns the charge pump on.
    PowerOn,
    /// Turns the charge pump on and measures.
    PowerOnMeasure,
    /// Soft-start timing of the booster.
    BoosterSoftStart,
    /// Enters deep sleep; takes the check byte 0xA5.
    DeepSleep,
    /// Starts the transfer of the first (achromatic or old) plane.
    DataStartTransmission1,
    /// Ends a data transfer.
    DataStop,
    /// Refreshes the panel from its planes and waveform tables.
    DisplayRefresh,
    /// Starts the transfer of the second (chromatic or new) plane.
    DataStartTransmission2,
    /// Waveform table for VCOM.
    LutForVcom,
    /// Waveform table for white to white.
    LutWhiteToWhite,
    /// Waveform table for black to white.
    LutBlackToWhite,
    /// Waveform table for white to black.
    LutWhiteToBlack,
    /// Waveform table for black to black.
    LutBlackToBlack,
    /// Frame rate of the oscillator.
    PllControl,
    /// Reads the temperature sensor.
    TemperatureSensorCommand,
    /// Selects the internal or an external sensor.
    TemperatureSensorSelection,
    /// Writes to an external sensor.
    TemperatureSensorWrite,
    /// Reads from an external sensor.
    TemperatureSensorRead,
    /// Border output and interval between VCOM and data.
    VcomAndDataIntervalSetting,
    /// Low-power detection.
    LowPowerDetection,
    /// Gate and source non-overlap periods.
    TconSetting,
    /// Panel resolution: two bytes of width, then two of height.
    ResolutionSetting,
    /// Gate and source start.
    GsstSetting,
    /// Reads the status flags.
    GetStatus,
    /// Automatic VCOM measurement.
    AutoMeasurementVcom,
    /// Reads the measured VCOM.
    ReadVcomValue,
    /// VCOM DC level.
    VcmDcSetting,
    /// Partial window: start and end column, start and end row, gate scan byte.
    PartialWindow,
    /// Enters partial mode.
    PartialIn,
    /// Leaves partial mode.
    PartialOut,
    /// Enters OTP program mode.
    ProgramMode,
    /// Programs the OTP.
    ActiveProgramming,
    /// Reads the OTP.
    ReadOtp,
    /// Power saving.
    PowerSaving,
}

impl Command {
    /// The byte sent on the bus for this command.
    pub open spec fn addr(self) -> u8 {
        match self {
            Command::PanelSetting => 0x00,
            Command::PowerSetting => 0x01,
            Command::PowerOff => 0x02,
            Command::PowerOffSequenceSetting => 0x03,
            Command::PowerOn => 0x04,
            Command::PowerOnMeasure => 0x05,
            Command::BoosterSoftStart => 0x06,
            Command::DeepSleep => 0x07,
            Command::DataStartTransmission1 => 0x10,
            Command::DataStop => 0x11,
            Command::DisplayRefresh => 0x12,
            Command::DataStartTransmission2 => 0x13,
            Command::LutForVcom => 0x20,
            Command::LutWhiteToWhite => 0x21,
            Command::LutBlackToWhite => 0x22,
            Command::LutWhiteToBlack => 0x23,
            Command::LutBlackToBlack => 0x24,
            Command::PllControl => 0x30,
            Command::TemperatureSensorCommand => 0x40,
            Command::TemperatureSensorSelection => 0x41,
            Command::TemperatureSensorWrite => 0x42,
            Command::TemperatureSensorRead => 0x43,
            Command::VcomAndDataIntervalSetting => 0x50,
            Command::LowPowerDetection => 0x51,
            Command::TconSetting => 0x60,
            Command::ResolutionSetting => 0x61,
            Command::GsstSetting => 0x65,
            Command::GetStatus => 0x71,
            Command::AutoMeasurementVcom => 0x80,
            Command::ReadVcomValue => 0x81,
            Command::VcmDcSetting => 0x82,
            Command::PartialWindow => 0x90,
            Command::PartialIn => 0x91,
            Command::PartialOut => 0x92,
            Command::ProgramMode => 0xA0,
            Command::ActiveProgramming => 0xA1,
            Command::ReadOtp => 0xA2,
            Command::PowerSaving => 0xE3,
        }
    }

    pub fn address(self) -> (r: u8)
        ensures
            r == self.addr(),
    {
        match self {
            Command::PanelSetting => 0x00,
            Command::PowerSetting => 0x01,
            Command::PowerOff => 0x02,
            Command::PowerOffSequenceSetting => 0x03,
            Command::PowerOn => 0x04,
            Command::PowerOnMeasure => 0x05,
            Command::BoosterSoftStart => 0x06,
            Command::DeepSleep => 0x07,
            Command::DataStartTransmission1 => 0x10,
            Command::DataStop => 0x11,
            Command::DisplayRefresh => 0x12,
            Command::DataStartTransmission2 => 0x13,
            Command::LutForVcom => 0x20,
            Command::LutWhiteToWhite => 0x21,
            Command::LutBlackToWhite => 0x22,
            Command::LutWhiteToBlack => 0x23,
            Command::LutBlackToBlack => 0x24,
            Command::PllControl => 0x30,
            Command::TemperatureSensorCommand => 0x40,
            Command::TemperatureSensorSelection => 0x41,
            Command::TemperatureSensorWrite => 0x42,
            Command::TemperatureSensorRead => 0x43,
            Command::VcomAndDataIntervalSetting => 0x50,
            Command::LowPowerDetection => 0x51,
            Command::TconSetting => 0x60,
            Command::ResolutionSetting => 0x61,
            Command::GsstSetting => 0x65,
            Command::GetStatus => 0x71,
            Command::AutoMeasurementVcom => 0x80,
            Command::ReadVcomValue => 0x81,
            Command::VcmDcSetting => 0x82,
            Command::PartialWindow => 0x90,
            Command::PartialIn => 0x91,
            Command::PartialOut => 0x92,
            Command::ProgramMode => 0xA0,
            Command::ActiveProgramming => 0xA1,
            Command::ReadOtp => 0xA2,
            Command::PowerSaving => 0xE3,
        }
    }
}

} // verus!
