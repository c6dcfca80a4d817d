use vstd::prelude::*;

verus! {

/// A raw 20-bit temperature reading, packed into the low bits of a `u32`.
#[derive(Copy, Clone, Debug, PartialEq, Eq, Structural)]
pub struct AdcTemperature(pub u32);

/// A raw 20-bit pressure reading, packed into the low bits of a `u32`.
#[derive(Copy, Clone, Debug, PartialEq, Eq, Structural)]
pub struct AdcPressure(pub u32);

/// A raw 16-bit humidity reading.
#[derive(Copy, Clone, Debug, PartialEq, Eq, Structural)]
pub struct AdcHumidity(pub u16);

/// The 20-bit raw value behind the three bytes of a temperature or pressure
/// reading: `(msb << 12) | (lsb << 4) | (xlsb >> 4)`.
pub open spec fn spec_sample20(msb: u8, lsb: u8, xlsb: u8) -> u32 {
    (msb as u32) << 12 | (lsb as u32) << 4 | (xlsb as u32) >> 4
}

/// The 16-bit raw value behind the two bytes of a humidity reading:
/// `(msb << 8) | lsb`.
pub open spec fn spec_sample16(msb: u8, lsb: u8) -> u16 {
    (msb as u16) << 8 | (lsb as u16)
}

/// Assemble a 20-bit raw reading from its three register bytes.
pub fn sample20(msb: u8, lsb: u8, xlsb: u8) -> (r: u32)
    ensures
        r == spec_sample20(msb, lsb, xlsb),
        r < 0x100000,
{
    let m: u32 = msb as u32;
    let l: u32 = lsb as u32;
    let x: u32 = xlsb as u32;
    let r = m << 12 | l << 4 | x >> 4;
    proof {
        assert(m < 256 && l < 256 && x < 256 ==> (m << 12 | l << 4 | x >> 4) < 0x100000)
            by (bit_vector);
    }
    r
}

/// Assemble a 16-bit raw humidity reading from its two register bytes.
pub fn sample16(msb: u8, lsb: u8) -> (r: u16)
    ensures
        r == spec_sample16(msb, lsb),
{
    (msb as u16) << 8 | (lsb as u16)
}

} // verus!
