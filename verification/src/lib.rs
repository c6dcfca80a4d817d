//! A driver core for a temperature / humidity / pressure sensor reached
//! over a byte-oriented register bus.  The register map, the control-byte
//! packing, the 32-byte calibration decode and the raw-reading assembly
//! are verified against the datasheet's layouts; every bus-facing
//! operation's contract pins down the exact register transactions it
//! performs over an injected bus capability.

mod adc;
mod bus;
mod calibration;
mod control;
mod device;
mod error;
mod registers;

pub use adc::spec_sample16;
pub use adc::spec_sample20;
pub use adc::sample16;
pub use adc::sample20;
pub use adc::AdcHumidity;
pub use adc::AdcPressure;
pub use adc::AdcTemperature;
pub use bus::BusOp;
pub use bus::I2c;
pub use bus::MemoryBus;
pub use calibration::calibration_block_with_h4_h5;
pub use calibration::decode_calibration;
pub use calibration::lemma_h4_h5_round_trip;
pub use calibration::spec_decode_calibration;
pub use calibration::spec_h4;
pub use calibration::spec_h4_h5_bytes;
pub use calibration::spec_h5;
pub use calibration::spec_i16_le;
pub use calibration::spec_i8;
pub use calibration::spec_sign_extend_12;
pub use calibration::spec_u16_le;
pub use calibration::Calibration;
pub use control::HumidityOverSamplingControl;
pub use control::InactiveDurationControl;
pub use control::InfiniteImpulseResponseControl;
pub use control::PressureOverSamplingControl;
pub use control::SensorModeControl;
pub use control::SetUpParams;
pub use control::Spi3;
pub use control::Status;
pub use control::TemperatureOverSamplingControl;
pub use device::spec_calibration_reads;
pub use device::spec_cycle_registers;
pub use device::spec_humidity_registers;
pub use device::spec_pressure_registers;
pub use device::spec_reads;
pub use device::spec_temperature_registers;
pub use device::spec_set_up_writes;
pub use device::Bme280Core;
pub use device::RESET_VALUE;
pub use error::Bme280Error;
pub use error::Bme280Result;
pub use registers::RegisterAddress;
