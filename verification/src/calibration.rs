use vstd::prelude::*;
use vstd::arithmetic::div_mod::lemma_fundamental_div_mod;

verus! {

/// The factory calibration profile: eighteen named coefficients, each kept
/// at the signed or unsigned width the datasheet gives it.  Decoded once
/// from the 32-byte calibration block and immutable afterwards.
#[derive(Copy, Clone, Debug, PartialEq, Eq, Structural)]
pub struct Calibration {
    pub t1: u16,
    pub t2: i16,
    pub t3: i16,

    pub p1: u16,
    pub p2: i16,
    pub p3: i16,
    pub p4: i16,
    pub p5: i16,
    pub p6: i16,
    pub p7: i16,
    pub p8: i16,
    pub p9: i16,

    pub h1: u8,
    pub h2: i16,
    pub h3: u8,
    pub h4: i16,
    pub h5: i16,
    pub h6: i8,
}

/// A little-endian unsigned 16-bit value: low byte first.
pub open spec fn spec_u16_le(lo: u8, hi: u8) -> int {
    (hi as int) * 256 + (lo as int)
}

/// A little-endian signed 16-bit value: the unsigned value, reinterpreted
/// as 16-bit two's complement.
pub open spec fn spec_i16_le(lo: u8, hi: u8) -> int {
    let v = (hi as int) * 256 + (lo as int);
    if v >= 32768 {
        v - 65536
    } else {
        v
    }
}

/// A single byte reinterpreted as 8-bit two's complement.
pub open spec fn spec_i8(b: u8) -> int {
    if b >= 128 {
        (b as int) - 256
    } else {
        b as int
    }
}

/// A 12-bit field reinterpreted as 12-bit two's complement.
pub open spec fn spec_sign_extend_12(v: int) -> int {
    if v >= 2048 {
        v - 4096
    } else {
        v
    }
}

/// H4: byte `a` holds the upper 8 bits, the low nibble of byte `b` the
/// lower 4; the 12-bit result is sign-extended.
pub open spec fn spec_h4(a: u8, b: u8) -> int {
    spec_sign_extend_12((a as int) * 16 + (b as int) % 16)
}

/// H5: byte `c` holds the upper 8 bits, the high nibble of byte `b` the
/// lower 4; the 12-bit result is sign-extended.
pub open spec fn spec_h5(b: u8, c: u8) -> int {
    spec_sign_extend_12((c as int) * 16 + (b as int) / 16)
}

/// What each coefficient is, byte for byte, for any 32-byte block.
pub open spec fn spec_decode_calibration(b: Seq<u8>) -> Calibration
    recommends
        b.len() >= 32,
{
    Calibration {
        t1: spec_u16_le(b[0], b[1]) as u16,
        t2: spec_i16_le(b[2], b[3]) as i16,
        t3: spec_i16_le(b[4], b[5]) as i16,
        p1: spec_u16_le(b[6], b[7]) as u16,
        p2: spec_i16_le(b[8], b[9]) as i16,
        p3: spec_i16_le(b[10], b[11]) as i16,
        p4: spec_i16_le(b[12], b[13]) as i16,
        p5: spec_i16_le(b[14], b[15]) as i16,
        p6: spec_i16_le(b[16], b[17]) as i16,
        p7: spec_i16_le(b[18], b[19]) as i16,
        p8: spec_i16_le(b[20], b[21]) as i16,
        p9: spec_i16_le(b[22], b[23]) as i16,
        h1: b[24],
        h2: spec_i16_le(b[25], b[26]) as i16,
        h3: b[27],
        h4: spec_h4(b[28], b[29]) as i16,
        h5: spec_h5(b[29], b[30]) as i16,
        h6: spec_i8(b[31]) as i8,
    }
}

/// Assemble an unsigned 16-bit coefficient from its two register bytes.
fn u16_le(lo: u8, hi: u8) -> (r: u16)
    ensures
        r == spec_u16_le(lo, hi),
{
    (hi as u16) * 256 + (lo as u16)
}

/// Assemble a signed 16-bit coefficient from its two register bytes.
fn i16_le(lo: u8, hi: u8) -> (r: i16)
    ensures
        r == spec_i16_le(lo, hi),
{
    let v: i32 = (hi as i32) * 256 + (lo as i32);
    let s: i32 = if v >= 32768 {
        v - 65536
    } else {
        v
    };
    s as i16
}

/// Sign-extend a 12-bit field to a signed 16-bit value.
fn sign_extend_12(v: u16) -> (r: i16)
    requires
        v < 4096,
    ensures
        r == spec_sign_extend_12(v as int),
{
    if v >= 2048 {
        (v as i32 - 4096) as i16
    } else {
        v as i16
    }
}

/// Decode the 32-byte calibration block into the coefficient profile.
///
/// Total and deterministic: every byte pattern decodes to exactly the
/// profile `spec_decode_calibration` gives, and nothing can fail.
pub fn decode_calibration(bytes: &Vec<u8>) -> (c: Calibration)
    requires
        bytes@.len() == 32,
    ensures
        c == spec_decode_calibration(bytes@),
{
    let b28 = bytes[28];
    let b29 = bytes[29];
    let b30 = bytes[30];

    let h4_low: u8 = b29 & 0x0F;
    let h5_low: u8 = b29 >> 4;
    proof {
        assert(b29 & 0x0F == b29 % 16) by (bit_vector);
        assert(b29 >> 4 == b29 / 16) by (bit_vector);
    }
    let h4 = sign_extend_12((b28 as u16) * 16 + (h4_low as u16));
    let h5 = sign_extend_12((b30 as u16) * 16 + (h5_low as u16));

    Calibration {
        t1: u16_le(bytes[0], bytes[1]),
        t2: i16_le(bytes[2], bytes[3]),
        t3: i16_le(bytes[4], bytes[5]),
        p1: u16_le(bytes[6], bytes[7]),
        p2: i16_le(bytes[8], bytes[9]),
        p3: i16_le(bytes[10], bytes[11]),
        p4: i16_le(bytes[12], bytes[13]),
        p5: i16_le(bytes[14], bytes[15]),
        p6: i16_le(bytes[16], bytes[17]),
        p7: i16_le(bytes[18], bytes[19]),
        p8: i16_le(bytes[20], bytes[21]),
        p9: i16_le(bytes[22], bytes[23]),
        h1: bytes[24],
        h2: i16_le(bytes[25], bytes[26]),
        h3: bytes[27],
        h4,
        h5,
        h6: {
            let b31 = bytes[31];
            if b31 >= 128 {
                (b31 as i16 - 256) as i8
            } else {
                b31 as i8
            }
        },
    }
}

/// The three bytes that carry H4 and H5: H4's upper 8 bits, the shared
/// nibble byte (H4 low nibble in its low half, H5 low nibble in its high
/// half), and H5's upper 8 bits.
pub open spec fn spec_h4_h5_bytes(h4: int, h5: int) -> (u8, u8, u8)
    recommends
        -2048 <= h4 <= 2047,
        -2048 <= h5 <= 2047,
{
    let u4 = if h4 < 0 { h4 + 4096 } else { h4 };
    let u5 = if h5 < 0 { h5 + 4096 } else { h5 };
    ((u4 / 16) as u8, ((u5 % 16) * 16 + u4 % 16) as u8, (u5 / 16) as u8)
}

/// Nibble packing of H4 and H5 round-trips: packing any pair of signed
/// 12-bit values into their three calibration bytes and decoding those
/// bytes gives the pair back exactly.
pub proof fn lemma_h4_h5_round_trip(h4: int, h5: int)
    requires
        -2048 <= h4 <= 2047,
        -2048 <= h5 <= 2047,
    ensures
        spec_h4(spec_h4_h5_bytes(h4, h5).0, spec_h4_h5_bytes(h4, h5).1) == h4,
        spec_h5(spec_h4_h5_bytes(h4, h5).1, spec_h4_h5_bytes(h4, h5).2) == h5,
{
    let u4 = if h4 < 0 { h4 + 4096 } else { h4 };
    let u5 = if h5 < 0 { h5 + 4096 } else { h5 };
    lemma_fundamental_div_mod(u4, 16);
    lemma_fundamental_div_mod(u5, 16);
    let b = (u5 % 16) * 16 + u4 % 16;
    assert(b % 16 == u4 % 16) by {
        lemma_fundamental_div_mod(b, 16);
    };
    assert(b / 16 == u5 % 16) by {
        lemma_fundamental_div_mod(b, 16);
    };
}

/// A 32-byte calibration block whose shared-nibble bytes carry the given
/// H4 and H5, every other byte zero; decoding it gives H4 and H5 back.
pub fn calibration_block_with_h4_h5(h4: i16, h5: i16) -> (r: Vec<u8>)
    requires
        -2048 <= h4 <= 2047,
        -2048 <= h5 <= 2047,
    ensures
        r@.len() == 32,
        (r@[28], r@[29], r@[30]) == spec_h4_h5_bytes(h4 as int, h5 as int),
        forall|i: int| 0 <= i < 32 && i != 28 && i != 29 && i != 30 ==> r@[i] == 0,
        spec_decode_calibration(r@).h4 == h4,
        spec_decode_calibration(r@).h5 == h5,
{
    let u4: u16 = if h4 < 0 { (h4 + 4096) as u16 } else { h4 as u16 };
    let u5: u16 = if h5 < 0 { (h5 + 4096) as u16 } else { h5 as u16 };
    let a: u8 = (u4 / 16) as u8;
    let b: u8 = ((u5 % 16) * 16 + u4 % 16) as u8;
    let c: u8 = (u5 / 16) as u8;

    let mut block: Vec<u8> = Vec::new();
    let mut i: usize = 0;
    while i < 32
        invariant
            block@.len() == i,
            i <= 32,
            forall|j: int| 0 <= j < i ==> block@[j] == 0,
        decreases 32 - i,
    {
        block.push(0);
        i = i + 1;
    }
    block.set(28, a);
    block.set(29, b);
    block.set(30, c);

    proof {
        lemma_h4_h5_round_trip(h4 as int, h5 as int);
        assert(spec_h4_h5_bytes(h4 as int, h5 as int) == (a, b, c));
    }
    block
}

} // verus!
