use vstd::prelude::*;

verus! {

/// Humidity oversampling, the low three bits of the `CtrlHum` register.
#[derive(Copy, Clone, Debug, PartialEq, Eq, Structural)]
pub enum HumidityOverSamplingControl {
    Skipped,
    OverSampling1,
    OverSampling2,
    OverSampling4,
    OverSampling8,
    OverSampling16,
}

impl HumidityOverSamplingControl {
    /// The bit pattern written to `CtrlHum` for this setting.
    pub open spec fn spec_bits(self) -> u8 {
        match self {
            HumidityOverSamplingControl::Skipped => 0b00000_000,
            HumidityOverSamplingControl::OverSampling1 => 0b00000_001,
            HumidityOverSamplingControl::OverSampling2 => 0b00000_010,
            HumidityOverSamplingControl::OverSampling4 => 0b00000_011,
            HumidityOverSamplingControl::OverSampling8 => 0b00000_100,
            HumidityOverSamplingControl::OverSampling16 => 0b00000_101,
        }
    }

    pub fn bits(self) -> (b: u8)
        ensures
            b == self.spec_bits(),
    {
        match self {
            HumidityOverSamplingControl::Skipped => 0b00000_000,
            HumidityOverSamplingControl::OverSampling1 => 0b00000_001,
            HumidityOverSamplingControl::OverSampling2 => 0b00000_010,
            HumidityOverSamplingControl::OverSampling4 => 0b00000_011,
            HumidityOverSamplingControl::OverSampling8 => 0b00000_100,
            HumidityOverSamplingControl::OverSampling16 => 0b00000_101,
        }
    }
}

/// Temperature oversampling, the high three bits of the `CtrlMeas` register.
#[derive(Copy, Clone, Debug, PartialEq, Eq, Structural)]
pub enum TemperatureOverSamplingControl {
    Skipped,
    OverSampling1,
    OverSampling2,
    OverSampling4,
    OverSampling8,
    OverSampling16,
}

impl TemperatureOverSamplingControl {
    /// This setting's field, already shifted to bits 7..5 of `CtrlMeas`.
    pub open spec fn spec_bits(self) -> u8 {
        match self {
            TemperatureOverSamplingControl::Skipped => 0b000_00000,
            TemperatureOverSamplingControl::OverSampling1 => 0b001_00000,
            TemperatureOverSamplingControl::OverSampling2 => 0b010_00000,
            TemperatureOverSamplingControl::OverSampling4 => 0b011_00000,
            TemperatureOverSamplingControl::OverSampling8 => 0b100_00000,
            TemperatureOverSamplingControl::OverSampling16 => 0b101_00000,
        }
    }

    pub fn bits(self) -> (b: u8)
        ensures
            b == self.spec_bits(),
    {
        match self {
            TemperatureOverSamplingControl::Skipped => 0b000_00000,
            TemperatureOverSamplingControl::OverSampling1 => 0b001_00000,
            TemperatureOverSamplingControl::OverSampling2 => 0b010_00000,
            TemperatureOverSamplingControl::OverSampling4 => 0b011_00000,
            TemperatureOverSamplingControl::OverSampling8 => 0b100_00000,
            TemperatureOverSamplingControl::OverSampling16 => 0b101_00000,
        }
    }
}

/// Pressure oversampling, bits 4..2 of the `CtrlMeas` register.
#[derive(Copy, Clone, Debug, PartialEq, Eq, Structural)]
pub enum PressureOverSamplingControl {
    Skipped,
    OverSampling1,
    OverSampling2,
    OverSampling4,
    OverSampling8,
    OverSampling16,
}

impl PressureOverSamplingControl {
    /// This setting's field, already shifted to bits 4..2 of `CtrlMeas`.
    pub open spec fn spec_bits(self) -> u8 {
        match self {
            PressureOverSamplingControl::Skipped => 0b000_000_00,
            PressureOverSamplingControl::OverSampling1 => 0b000_001_00,
            PressureOverSamplingControl::OverSampling2 => 0b000_010_00,
            PressureOverSamplingControl::OverSampling4 => 0b000_011_00,
            PressureOverSamplingControl::OverSampling8 => 0b000_100_00,
            PressureOverSamplingControl::OverSampling16 => 0b000_101_00,
        }
    }

    pub fn bits(self) -> (b: u8)
        ensures
            b == self.spec_bits(),
    {
        match self {
            PressureOverSamplingControl::Skipped => 0b000_000_00,
            PressureOverSamplingControl::OverSampling1 => 0b000_001_00,
            PressureOverSamplingControl::OverSampling2 => 0b000_010_00,
            PressureOverSamplingControl::OverSampling4 => 0b000_011_00,
            PressureOverSamplingControl::OverSampling8 => 0b000_100_00,
            PressureOverSamplingControl::OverSampling16 => 0b000_101_00,
        }
    }
}

/// Power mode, the low two bits of the `CtrlMeas` register.
#[derive(Copy, Clone, Debug, PartialEq, Eq, Structural)]
pub enum SensorModeControl {
    Sleep,
    Forced,
    Normal,
}

impl SensorModeControl {
    /// This setting's field, the low two bits of `CtrlMeas`.
    pub open spec fn spec_bits(self) -> u8 {
        match self {
            SensorModeControl::Sleep => 0b000000_00,
            SensorModeControl::Forced => 0b000000_10,
            SensorModeControl::Normal => 0b000000_11,
        }
    }

    pub fn bits(self) -> (b: u8)
        ensures
            b == self.spec_bits(),
    {
        match self {
            SensorModeControl::Sleep => 0b000000_00,
            SensorModeControl::Forced => 0b000000_10,
            SensorModeControl::Normal => 0b000000_11,
        }
    }
}

/// Inactive (standby) duration between samples, bits 7..5 of `Config`.
#[derive(Copy, Clone, Debug, PartialEq, Eq, Structural)]
pub enum InactiveDurationControl {
    Ms0,
    Ms62,
    Ms125,
    Ms250,
    Ms500,
    Ms1000,
    Ms10,
    Ms20,
}

impl InactiveDurationControl {
    /// This setting's field, already shifted to bits 7..5 of `Config`.
    pub open spec fn spec_bits(self) -> u8 {
        match self {
            InactiveDurationControl::Ms0 => 0b000_00000,
            InactiveDurationControl::Ms62 => 0b001_00000,
            InactiveDurationControl::Ms125 => 0b010_00000,
            InactiveDurationControl::Ms250 => 0b011_00000,
            InactiveDurationControl::Ms500 => 0b100_00000,
            InactiveDurationControl::Ms1000 => 0b101_00000,
            InactiveDurationControl::Ms10 => 0b110_00000,
            InactiveDurationControl::Ms20 => 0b111_00000,
        }
    }

    pub fn bits(self) -> (b: u8)
        ensures
            b == self.spec_bits(),
    {
        match self {
            InactiveDurationControl::Ms0 => 0b000_00000,
            InactiveDurationControl::Ms62 => 0b001_00000,
            InactiveDurationControl::Ms125 => 0b010_00000,
            InactiveDurationControl::Ms250 => 0b011_00000,
            InactiveDurationControl::Ms500 => 0b100_00000,
            InactiveDurationControl::Ms1000 => 0b101_00000,
            InactiveDurationControl::Ms10 => 0b110_00000,
            InactiveDurationControl::Ms20 => 0b111_00000,
        }
    }
}

/// IIR filter coefficient, bits 4..2 of the `Config` register.
#[derive(Copy, Clone, Debug, PartialEq, Eq, Structural)]
pub enum InfiniteImpulseResponseControl {
    Off,
    Coefficient2,
    Coefficient4,
    Coefficient8,
    Coefficient16,
}

impl InfiniteImpulseResponseControl {
    /// This setting's field, already shifted to bits 4..2 of `Config`.
    pub open spec fn spec_bits(self) -> u8 {
        match self {
            InfiniteImpulseResponseControl::Off => 0b000_000_00,
            InfiniteImpulseResponseControl::Coefficient2 => 0b000_001_00,
            InfiniteImpulseResponseControl::Coefficient4 => 0b000_010_00,
            InfiniteImpulseResponseControl::Coefficient8 => 0b000_011_00,
            InfiniteImpulseResponseControl::Coefficient16 => 0b000_100_00,
        }
    }

    pub fn bits(self) -> (b: u8)
        ensures
            b == self.spec_bits(),
    {
        match self {
            InfiniteImpulseResponseControl::Off => 0b000_000_00,
            InfiniteImpulseResponseControl::Coefficient2 => 0b000_001_00,
            InfiniteImpulseResponseControl::Coefficient4 => 0b000_010_00,
            InfiniteImpulseResponseControl::Coefficient8 => 0b000_011_00,
            InfiniteImpulseResponseControl::Coefficient16 => 0b000_100_00,
        }
    }
}

/// Three-wire bus variant flag, bit 0 of the `Config` register.
#[derive(Copy, Clone, Debug, PartialEq, Eq, Structural)]
pub enum Spi3 {
    Enable,
    Disable,
}

impl Spi3 {
    /// This setting's field, bit 0 of `Config`.
    pub open spec fn spec_bits(self) -> u8 {
        match self {
            Spi3::Enable => 0b0000000_1,
            Spi3::Disable => 0b0000000_0,
        }
    }

    pub fn bits(self) -> (b: u8)
        ensures
            b == self.spec_bits(),
    {
        match self {
            Spi3::Enable => 0b0000000_1,
            Spi3::Disable => 0b0000000_0,
        }
    }
}

/// The status register, read as one byte; only two bits carry meaning.
pub struct Status(u8);

impl Status {
    /// The raw status byte this value was built from.
    pub closed spec fn spec_raw(self) -> u8 {
        self.0
    }

    pub fn new(raw: u8) -> (s: Status)
        ensures
            s.spec_raw() == raw,
    {
        Status(raw)
    }

    /// Bit 3 of the status byte: a measurement conversion is running.
    pub fn is_in_measuring(&self) -> (r: bool)
        ensures
            r == (self.spec_raw() & 0b0000_1_000 != 0),
    {
        self.0 & 0b0000_1_000 != 0
    }

    /// Bit 0 of the status byte: NVM image data are being copied.
    pub fn is_in_updating(&self) -> (r: bool)
        ensures
            r == (self.spec_raw() & 0b0000000_1 != 0),
    {
        self.0 & 0b0000000_1 != 0
    }
}

/// Everything `set_up` writes: one setting per axis of the three control
/// registers.
#[derive(Copy, Clone, Debug, PartialEq, Eq, Structural)]
pub struct SetUpParams {
    pub humidity_sampling: HumidityOverSamplingControl,
    pub temperature_sampling: TemperatureOverSamplingControl,
    pub pressure_sampling: PressureOverSamplingControl,
    pub sensor_mode: SensorModeControl,
    pub duration: InactiveDurationControl,
    pub iir: InfiniteImpulseResponseControl,
    pub spi: Spi3,
}

impl Default for SetUpParams {
    /// x1 oversampling on all axes, normal mode, 1000 ms standby, filter
    /// off, three-wire variant disabled.
    fn default() -> (d: SetUpParams)
        ensures
            d == (SetUpParams {
                humidity_sampling: HumidityOverSamplingControl::OverSampling1,
                temperature_sampling: TemperatureOverSamplingControl::OverSampling1,
                pressure_sampling: PressureOverSamplingControl::OverSampling1,
                sensor_mode: SensorModeControl::Normal,
                duration: InactiveDurationControl::Ms1000,
                iir: InfiniteImpulseResponseControl::Off,
                spi: Spi3::Disable,
            }),
    {
        SetUpParams {
            humidity_sampling: HumidityOverSamplingControl::OverSampling1,
            temperature_sampling: TemperatureOverSamplingControl::OverSampling1,
            pressure_sampling: PressureOverSamplingControl::OverSampling1,
            sensor_mode: SensorModeControl::Normal,
            duration: InactiveDurationControl::Ms1000,
            iir: InfiniteImpulseResponseControl::Off,
            spi: Spi3::Disable,
        }
    }
}

impl SetUpParams {
    /// The byte `set_up` writes to `CtrlMeas`: temperature oversampling,
    /// pressure oversampling and power mode packed into one byte.
    pub open spec fn spec_measure_control_byte(self) -> u8 {
        self.temperature_sampling.spec_bits() | self.pressure_sampling.spec_bits()
            | self.sensor_mode.spec_bits()
    }

    /// The byte `set_up` writes to `Config`: standby duration, IIR filter
    /// and bus-variant flag packed into one byte.
    pub open spec fn spec_config_byte(self) -> u8 {
        self.duration.spec_bits() | self.iir.spec_bits() | self.spi.spec_bits()
    }

    pub fn measure_control_byte(self) -> (b: u8)
        ensures
            b == self.spec_measure_control_byte(),
    {
        self.temperature_sampling.bits() | self.pressure_sampling.bits()
            | self.sensor_mode.bits()
    }

    pub fn config_byte(self) -> (b: u8)
        ensures
            b == self.spec_config_byte(),
    {
        self.duration.bits() | self.iir.bits() | self.spi.bits()
    }
}

} // verus!
