use bme280::calibration_block_with_h4_h5;
use bme280::decode_calibration;
use bme280::Calibration;

fn datasheet_block() -> Vec<u8> {
    // The reference coefficients from the datasheet's worked example,
    // little-endian, in calibration-table order.
    vec![
        0x70, 0x6B, // T1 = 27504
        0x43, 0x67, // T2 = 26435
        0x18, 0xFC, // T3 = -1000
        0x7D, 0x8E, // P1 = 36477
        0x43, 0xD6, // P2 = -10685
        0xD0, 0x0B, // P3 = 3024
        0x27, 0x0B, // P4 = 2855
        0x8C, 0x00, // P5 = 140
        0xF9, 0xFF, // P6 = -7
        0x8C, 0x3C, // P7 = 15500
        0xF8, 0xC6, // P8 = -14600
        0x70, 0x17, // P9 = 6000
        75,   // H1 = 75
        0x69, 0x01, // H2 = 361
        0,    // H3 = 0
        0x14, 0x29, // H4 = 329 (upper 8 bits, then shared nibble byte)
        0x03, // H5 = 50 (upper 8 bits; low nibble sits in the byte before)
        30,   // H6 = 30
    ]
}

#[test]
fn decode_zero_block() {
    let c = decode_calibration(&vec![0u8; 32]);
    assert_eq!(c.t1, 0);
    assert_eq!(c.t2, 0);
    assert_eq!(c.t3, 0);
    assert_eq!(c.p1, 0);
    assert_eq!(c.p9, 0);
    assert_eq!(c.h1, 0);
    assert_eq!(c.h4, 0);
    assert_eq!(c.h5, 0);
    assert_eq!(c.h6, 0);
}

#[test]
fn decode_datasheet_block() {
    let c = decode_calibration(&datasheet_block());
    assert_eq!(c.t1, 27504);
    assert_eq!(c.t2, 26435);
    assert_eq!(c.t3, -1000);
    assert_eq!(c.p1, 36477);
    assert_eq!(c.p2, -10685);
    assert_eq!(c.p3, 3024);
    assert_eq!(c.p4, 2855);
    assert_eq!(c.p5, 140);
    assert_eq!(c.p6, -7);
    assert_eq!(c.p7, 15500);
    assert_eq!(c.p8, -14600);
    assert_eq!(c.p9, 6000);
    assert_eq!(c.h1, 75);
    assert_eq!(c.h2, 361);
    assert_eq!(c.h3, 0);
    assert_eq!(c.h4, 329);
    assert_eq!(c.h5, 50);
    assert_eq!(c.h6, 30);
}

#[test]
fn decode_sign_extension() {
    let mut b = vec![0u8; 32];
    b[2] = 0xFF; // T2 low
    b[3] = 0x7F; // T2 high: 0x7FFF = 32767
    b[4] = 0x00; // T3 low
    b[5] = 0x80; // T3 high: 0x8000 = -32768
    b[25] = 0xFF; // H2 low
    b[26] = 0xFF; // H2 high: -1
    b[31] = 0xFF; // H6: -1
    let c = decode_calibration(&b);
    assert_eq!(c.t2, 32767);
    assert_eq!(c.t3, -32768);
    assert_eq!(c.h2, -1);
    assert_eq!(c.h6, -1);
}

#[test]
fn decode_is_total_and_deterministic() {
    // Any byte pattern decodes, and the same pattern decodes the same way.
    let mut b = vec![0u8; 32];
    for i in 0..32 {
        b[i] = ((i * 7 + 13) % 256) as u8;
    }
    let c1: Calibration = decode_calibration(&b);
    let c2: Calibration = decode_calibration(&b);
    assert_eq!(c1, c2);
    let all_ones = decode_calibration(&vec![0xFFu8; 32]);
    assert_eq!(all_ones.t1, 0xFFFF);
    assert_eq!(all_ones.t2, -1);
    assert_eq!(all_ones.h4, -1); // 0xFFF sign-extends to -1
    assert_eq!(all_ones.h5, -1);
    assert_eq!(all_ones.h6, -1);
}

#[test]
fn h4_h5_round_trip_extremes() {
    let pairs: [(i16, i16); 6] = [
        (-2048, 2047),
        (2047, -2048),
        (0, 0),
        (-1, -1),
        (123, -456),
        (-2048, -2048),
    ];
    for (h4, h5) in pairs {
        let block = calibration_block_with_h4_h5(h4, h5);
        let c = decode_calibration(&block);
        assert_eq!(c.h4, h4);
        assert_eq!(c.h5, h5);
    }
}

#[test]
fn h4_h5_round_trip_full_range() {
    for v in -2048i16..=2047 {
        let block = calibration_block_with_h4_h5(v, -1 - v);
        let c = decode_calibration(&block);
        assert_eq!(c.h4, v);
        assert_eq!(c.h5, -1 - v);
    }
}

#[test]
fn h4_h5_datasheet_style_bytes() {
    // H4 = 329, H5 = 50, as they sit in registers 0xE4, 0xE5 and 0xE6.
    let block = calibration_block_with_h4_h5(329, 50);
    assert_eq!(block[28], 0x14);
    assert_eq!(block[29], 0x29);
    assert_eq!(block[30], 0x03);
}
