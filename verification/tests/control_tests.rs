use bme280::HumidityOverSamplingControl;
use bme280::InactiveDurationControl;
use bme280::InfiniteImpulseResponseControl;
use bme280::PressureOverSamplingControl;
use bme280::SensorModeControl;
use bme280::SetUpParams;
use bme280::Spi3;
use bme280::Status;
use bme280::TemperatureOverSamplingControl;

#[test]
fn humidity_oversampling_bitmasks() {
    assert_eq!(HumidityOverSamplingControl::Skipped.bits(), 0b000);
    assert_eq!(HumidityOverSamplingControl::OverSampling1.bits(), 0b001);
    assert_eq!(HumidityOverSamplingControl::OverSampling2.bits(), 0b010);
    assert_eq!(HumidityOverSamplingControl::OverSampling4.bits(), 0b011);
    assert_eq!(HumidityOverSamplingControl::OverSampling8.bits(), 0b100);
    assert_eq!(HumidityOverSamplingControl::OverSampling16.bits(), 0b101);
}

#[test]
fn measure_control_fields_are_shifted() {
    assert_eq!(TemperatureOverSamplingControl::OverSampling1.bits(), 0b001_00000);
    assert_eq!(TemperatureOverSamplingControl::OverSampling16.bits(), 0b101_00000);
    assert_eq!(PressureOverSamplingControl::OverSampling1.bits(), 0b000_001_00);
    assert_eq!(PressureOverSamplingControl::OverSampling16.bits(), 0b000_101_00);
    assert_eq!(SensorModeControl::Sleep.bits(), 0b00);
    assert_eq!(SensorModeControl::Forced.bits(), 0b10);
    assert_eq!(SensorModeControl::Normal.bits(), 0b11);
}

#[test]
fn config_fields_are_shifted() {
    assert_eq!(InactiveDurationControl::Ms0.bits(), 0b000_00000);
    assert_eq!(InactiveDurationControl::Ms1000.bits(), 0b101_00000);
    assert_eq!(InactiveDurationControl::Ms20.bits(), 0b111_00000);
    assert_eq!(InfiniteImpulseResponseControl::Off.bits(), 0b000_000_00);
    assert_eq!(InfiniteImpulseResponseControl::Coefficient16.bits(), 0b000_100_00);
    assert_eq!(Spi3::Enable.bits(), 0b1);
    assert_eq!(Spi3::Disable.bits(), 0b0);
}

#[test]
fn default_params_pack_documented_bytes() {
    let params = SetUpParams::default();
    assert_eq!(params.humidity_sampling, HumidityOverSamplingControl::OverSampling1);
    assert_eq!(params.temperature_sampling, TemperatureOverSamplingControl::OverSampling1);
    assert_eq!(params.pressure_sampling, PressureOverSamplingControl::OverSampling1);
    assert_eq!(params.sensor_mode, SensorModeControl::Normal);
    assert_eq!(params.duration, InactiveDurationControl::Ms1000);
    assert_eq!(params.iir, InfiniteImpulseResponseControl::Off);
    assert_eq!(params.spi, Spi3::Disable);
    // x1 temperature, x1 pressure, normal mode
    assert_eq!(params.measure_control_byte(), 0b001_001_11);
    // 1000 ms standby, filter off, three-wire disabled
    assert_eq!(params.config_byte(), 0b101_000_00);
}

#[test]
fn status_flag_bits() {
    assert!(!Status::new(0).is_in_measuring());
    assert!(!Status::new(0).is_in_updating());
    assert!(Status::new(0b0000_1000).is_in_measuring());
    assert!(!Status::new(0b0000_1000).is_in_updating());
    assert!(Status::new(0b0000_0001).is_in_updating());
    assert!(!Status::new(0b0000_0001).is_in_measuring());
    assert!(Status::new(0b0000_1001).is_in_measuring());
    assert!(Status::new(0b0000_1001).is_in_updating());
    // other bits are not interpreted
    assert!(!Status::new(0b1111_0110).is_in_measuring());
    assert!(!Status::new(0b1111_0110).is_in_updating());
}
