use bme280::AdcHumidity;
use bme280::AdcPressure;
use bme280::AdcTemperature;
use bme280::Bme280Core;
use bme280::Bme280Error;
use bme280::BusOp;
use bme280::HumidityOverSamplingControl;
use bme280::I2c;
use bme280::MemoryBus;
use bme280::RegisterAddress;
use bme280::SetUpParams;
use bme280::RESET_VALUE;

#[test]
fn register_addresses_match_datasheet() {
    assert_eq!(RegisterAddress::Id.address(), 0xD0);
    assert_eq!(RegisterAddress::Reset.address(), 0xE0);
    assert_eq!(RegisterAddress::CtrlHum.address(), 0xF2);
    assert_eq!(RegisterAddress::Status.address(), 0xF3);
    assert_eq!(RegisterAddress::CtrlMeas.address(), 0xF4);
    assert_eq!(RegisterAddress::Config.address(), 0xF5);
    assert_eq!(RegisterAddress::PressM.address(), 0xF7);
    assert_eq!(RegisterAddress::TempM.address(), 0xFA);
    assert_eq!(RegisterAddress::HumM.address(), 0xFD);
    assert_eq!(RegisterAddress::T1L.address(), 0x88);
    assert_eq!(RegisterAddress::H1.address(), 0xA1);
    assert_eq!(RegisterAddress::H2L.address(), 0xE1);
    assert_eq!(RegisterAddress::H6.address(), 0xE7);
    // the calibration table walks the low block, then the humidity block
    assert_eq!(RegisterAddress::calibration_register(0).address(), 0x88);
    assert_eq!(RegisterAddress::calibration_register(23).address(), 0x9F);
    assert_eq!(RegisterAddress::calibration_register(24).address(), 0xA1);
    assert_eq!(RegisterAddress::calibration_register(31).address(), 0xE7);
}

#[test]
fn reset_issues_exactly_one_sentinel_write() {
    let mut bus = MemoryBus::new();
    bus.reset().unwrap();
    let ops = bus.ops();
    assert_eq!(ops.len(), 1);
    assert_eq!(ops[0], BusOp::Write(RegisterAddress::Reset, RESET_VALUE));
    assert_eq!(RESET_VALUE, 0xB6);
}

#[test]
fn skipped_humidity_oversampling_writes_zero_mask() {
    let mut bus = MemoryBus::new();
    bus.set_hum_control(HumidityOverSamplingControl::Skipped).unwrap();
    assert_eq!(bus.ops().len(), 1);
    assert_eq!(
        bus.ops()[0],
        BusOp::Write(RegisterAddress::CtrlHum, 0b000)
    );
    // the readback path agrees with the byte written
    let back = bus.read_byte_data(RegisterAddress::CtrlHum).unwrap();
    assert_eq!(back, 0b000);
}

#[test]
fn set_up_writes_three_registers_in_order() {
    let mut bus = MemoryBus::new();
    bus.set_up(SetUpParams::default()).unwrap();
    let ops = bus.ops();
    assert_eq!(ops.len(), 3);
    assert_eq!(ops[0], BusOp::Write(RegisterAddress::CtrlHum, 0b001));
    assert_eq!(ops[1], BusOp::Write(RegisterAddress::CtrlMeas, 0b001_001_11));
    assert_eq!(ops[2], BusOp::Write(RegisterAddress::Config, 0b101_000_00));
}

#[test]
fn get_status_reads_status_register() {
    let mut bus = MemoryBus::new();
    bus.load_register(RegisterAddress::Status, 0b0000_1001);
    let status = bus.get_status().unwrap();
    assert!(status.is_in_measuring());
    assert!(status.is_in_updating());
    assert_eq!(bus.ops().len(), 1);
    assert_eq!(bus.ops()[0], BusOp::Read(RegisterAddress::Status, 0b0000_1001));
}

#[test]
fn fetch_calibration_reads_whole_table() {
    let block: Vec<u8> = vec![
        0x70, 0x6B, 0x43, 0x67, 0x18, 0xFC, // T1..T3
        0x7D, 0x8E, 0x43, 0xD6, 0xD0, 0x0B, 0x27, 0x0B, 0x8C, 0x00, 0xF9, 0xFF, 0x8C, 0x3C,
        0xF8, 0xC6, 0x70, 0x17, // P1..P9
        75, 0x69, 0x01, 0, 0x14, 0x29, 0x03, 30, // H1..H6
    ];
    let mut bus = MemoryBus::new();
    for i in 0..32 {
        bus.load_register(RegisterAddress::calibration_register(i), block[i]);
    }
    let c = bus.fetch_calibration().unwrap();
    assert_eq!(c.t1, 27504);
    assert_eq!(c.t2, 26435);
    assert_eq!(c.t3, -1000);
    assert_eq!(c.p1, 36477);
    assert_eq!(c.p5, 140);
    assert_eq!(c.p9, 6000);
    assert_eq!(c.h1, 75);
    assert_eq!(c.h2, 361);
    assert_eq!(c.h4, 329);
    assert_eq!(c.h5, 50);
    assert_eq!(c.h6, 30);
    // one read per calibration register, in table order
    let ops = bus.ops();
    assert_eq!(ops.len(), 32);
    assert_eq!(ops[0], BusOp::Read(RegisterAddress::T1L, 0x70));
    assert_eq!(ops[24], BusOp::Read(RegisterAddress::H1, 75));
    assert_eq!(ops[31], BusOp::Read(RegisterAddress::H6, 30));
}

#[test]
fn get_results_assembles_raw_values() {
    let mut bus = MemoryBus::new();
    // raw_T = 519888, raw_P = 415148, raw_H = 23573
    bus.load_register(RegisterAddress::TempM, 0x7E);
    bus.load_register(RegisterAddress::TempL, 0xED);
    bus.load_register(RegisterAddress::TempXl, 0x00);
    bus.load_register(RegisterAddress::PressM, 0x65);
    bus.load_register(RegisterAddress::PressL, 0x5A);
    bus.load_register(RegisterAddress::PressXl, 0xC0);
    bus.load_register(RegisterAddress::HumM, 0x5C);
    bus.load_register(RegisterAddress::HumL, 0x15);
    let (t, h, p) = bus.get_results().unwrap();
    assert_eq!(t, AdcTemperature(519888));
    assert_eq!(h, AdcHumidity(23573));
    assert_eq!(p, AdcPressure(415148));
    // temperature is read first in the cycle, then humidity, then pressure
    let ops = bus.ops();
    assert_eq!(ops.len(), 8);
    assert_eq!(ops[0], BusOp::Read(RegisterAddress::TempM, 0x7E));
    assert_eq!(ops[1], BusOp::Read(RegisterAddress::TempL, 0xED));
    assert_eq!(ops[2], BusOp::Read(RegisterAddress::TempXl, 0x00));
    assert_eq!(ops[3], BusOp::Read(RegisterAddress::HumM, 0x5C));
    assert_eq!(ops[4], BusOp::Read(RegisterAddress::HumL, 0x15));
    assert_eq!(ops[5], BusOp::Read(RegisterAddress::PressM, 0x65));
    assert_eq!(ops[6], BusOp::Read(RegisterAddress::PressL, 0x5A));
    assert_eq!(ops[7], BusOp::Read(RegisterAddress::PressXl, 0xC0));
}

#[test]
fn xlsb_high_nibble_only_counts() {
    let mut bus = MemoryBus::new();
    bus.load_register(RegisterAddress::TempM, 0xFF);
    bus.load_register(RegisterAddress::TempL, 0xFF);
    bus.load_register(RegisterAddress::TempXl, 0xFF);
    let (t, _, _) = bus.get_results().unwrap();
    // the low nibble of the extra-low byte is dropped
    assert_eq!(t, AdcTemperature(0xFFFFF));
    assert_eq!(bme280::sample20(0xFF, 0xFF, 0x0F), 0xFF_FF0);
    assert_eq!(bme280::sample16(0xAB, 0xCD), 0xABCD);
}

#[test]
fn calibration_load_aborts_at_first_failed_read() {
    let block: Vec<u8> = vec![
        0x70, 0x6B, 0x43, 0x67, 0x18, 0xFC, // T1..T3
        0x7D, 0x8E, 0x43, 0xD6, 0xD0, 0x0B, 0x27, 0x0B, 0x8C, 0x00, 0xF9, 0xFF, 0x8C, 0x3C,
        0xF8, 0xC6, 0x70, 0x17, // P1..P9
        75, 0x69, 0x01, 0, 0x14, 0x29, 0x03, 30, // H1..H6
    ];
    let mut bus = MemoryBus::new();
    for i in 0..32 {
        bus.load_register(RegisterAddress::calibration_register(i), block[i]);
    }
    // the 17th calibration read fails: the whole load aborts, no profile
    bus.set_failing_after(16);
    let err = bus.fetch_calibration().unwrap_err();
    assert!(matches!(err, Bme280Error::I2cError(_)));
    let ops = bus.ops();
    assert_eq!(ops.len(), 16);
    for i in 0..16 {
        assert_eq!(
            ops[i],
            BusOp::Read(RegisterAddress::calibration_register(i), block[i])
        );
    }
}

#[test]
fn sampling_cycle_aborts_at_first_failed_read() {
    let mut bus = MemoryBus::new();
    bus.load_register(RegisterAddress::TempM, 0x7E);
    bus.load_register(RegisterAddress::TempL, 0xED);
    bus.load_register(RegisterAddress::TempXl, 0x00);
    bus.load_register(RegisterAddress::HumM, 0x5C);
    // the fifth read of the cycle (HumL) fails: only the four earlier
    // reads were issued, and nothing after the failure
    bus.set_failing_after(4);
    assert!(matches!(bus.get_results(), Err(Bme280Error::I2cError(_))));
    let ops = bus.ops();
    assert_eq!(ops.len(), 4);
    assert_eq!(ops[0], BusOp::Read(RegisterAddress::TempM, 0x7E));
    assert_eq!(ops[1], BusOp::Read(RegisterAddress::TempL, 0xED));
    assert_eq!(ops[2], BusOp::Read(RegisterAddress::TempXl, 0x00));
    assert_eq!(ops[3], BusOp::Read(RegisterAddress::HumM, 0x5C));
}

#[test]
fn set_up_aborts_at_first_failed_write() {
    let mut bus = MemoryBus::new();
    // the second control write (CtrlMeas) fails: only the humidity
    // control write went out, in order
    bus.set_failing_after(1);
    assert!(matches!(bus.set_up(SetUpParams::default()), Err(Bme280Error::I2cError(_))));
    let ops = bus.ops();
    assert_eq!(ops.len(), 1);
    assert_eq!(ops[0], BusOp::Write(RegisterAddress::CtrlHum, 0b001));
}

#[test]
fn block_reads_hand_back_consecutive_registers() {
    let mut bus = MemoryBus::new();
    bus.load_register(RegisterAddress::T1L, 0x70);
    bus.load_register(RegisterAddress::T1H, 0x6B);
    let block = bus.read_i2c_block_data(RegisterAddress::T1L, 2).unwrap();
    assert_eq!(block, vec![0x70, 0x6B]);
    assert_eq!(bus.ops().len(), 1);
    assert_eq!(bus.ops()[0], BusOp::ReadBlock(RegisterAddress::T1L, 2));
}

#[test]
fn bus_error_carries_transport_message() {
    let mut bus = MemoryBus::new();
    bus.set_failing(true);
    let err = bus.reset().unwrap_err();
    let Bme280Error::I2cError(text) = &err;
    assert_eq!(err.message(), *text);
}

#[test]
fn failing_bus_aborts_without_partial_work() {
    let mut bus = MemoryBus::new();
    bus.set_failing(true);
    let err = bus.fetch_calibration().unwrap_err();
    assert!(matches!(err, Bme280Error::I2cError(_)));
    assert!(matches!(bus.set_up(SetUpParams::default()), Err(Bme280Error::I2cError(_))));
    assert!(matches!(bus.reset(), Err(Bme280Error::I2cError(_))));
    assert!(matches!(bus.get_results(), Err(Bme280Error::I2cError(_))));
    // nothing reached the log: no partial profile, no partial set-up
    assert_eq!(bus.ops().len(), 0);
    bus.set_failing(false);
    assert!(bus.reset().is_ok());
    assert_eq!(bus.ops().len(), 1);
}
