use vstd::prelude::*;

verus! {

/// Every named register on the device, one variant per byte offset.
///
/// The byte behind each name is fixed by the hardware datasheet and is given
/// by `spec_address` / `address`, never computed.  The humidity calibration
/// bytes follow the layout in which register `0xE5` shares H4's low nibble
/// (its low four bits) and H5's low nibble (its high four bits).
#[derive(Copy, Clone, Debug, PartialEq, Eq, Structural)]
pub enum RegisterAddress {
    Id,
    Reset,
    CtrlHum,
    Status,
    CtrlMeas,
    Config,

    PressM,
    PressL,
    PressXl,

    TempM,
    TempL,
    TempXl,

    HumM,
    HumL,

    T1L,
    T1H,
    T2L,
    T2H,
    T3L,
    T3H,

    P1L,
    P1H,
    P2L,
    P2H,
    P3L,
    P3H,
    P4L,
    P4H,
    P5L,
    P5H,
    P6L,
    P6H,
    P7L,
    P7H,
    P8L,
    P8H,
    P9L,
    P9H,

    H1,
    H2L,
    H2H,
    H3,
    H4H,
    H4LH5L,
    H5H,
    H6,
}

impl RegisterAddress {
    /// The fixed byte offset of this register on the device.
    pub open spec fn spec_address(self) -> u8 {
        match self {
            RegisterAddress::Id => 0xD0,
            RegisterAddress::Reset => 0xE0,
            RegisterAddress::CtrlHum => 0xF2,
            RegisterAddress::Status => 0xF3,
            RegisterAddress::CtrlMeas => 0xF4,
            RegisterAddress::Config => 0xF5,
            RegisterAddress::PressM => 0xF7,
            RegisterAddress::PressL => 0xF8,
            RegisterAddress::PressXl => 0xF9,
            RegisterAddress::TempM => 0xFA,
            RegisterAddress::TempL => 0xFB,
            RegisterAddress::TempXl => 0xFC,
            RegisterAddress::HumM => 0xFD,
            RegisterAddress::HumL => 0xFE,
            RegisterAddress::T1L => 0x88,
            RegisterAddress::T1H => 0x89,
            RegisterAddress::T2L => 0x8A,
            RegisterAddress::T2H => 0x8B,
            RegisterAddress::T3L => 0x8C,
            RegisterAddress::T3H => 0x8D,
            RegisterAddress::P1L => 0x8E,
            RegisterAddress::P1H => 0x8F,
            RegisterAddress::P2L => 0x90,
            RegisterAddress::P2H => 0x91,
            RegisterAddress::P3L => 0x92,
            RegisterAddress::P3H => 0x93,
            RegisterAddress::P4L => 0x94,
            RegisterAddress::P4H => 0x95,
            RegisterAddress::P5L => 0x96,
            RegisterAddress::P5H => 0x97,
            RegisterAddress::P6L => 0x98,
            RegisterAddress::P6H => 0x99,
            RegisterAddress::P7L => 0x9A,
            RegisterAddress::P7H => 0x9B,
            RegisterAddress::P8L => 0x9C,
            RegisterAddress::P8H => 0x9D,
            RegisterAddress::P9L => 0x9E,
            RegisterAddress::P9H => 0x9F,
            RegisterAddress::H1 => 0xA1,
            RegisterAddress::H2L => 0xE1,
            RegisterAddress::H2H => 0xE2,
            RegisterAddress::H3 => 0xE3,
            RegisterAddress::H4H => 0xE4,
            RegisterAddress::H4LH5L => 0xE5,
            RegisterAddress::H5H => 0xE6,
            RegisterAddress::H6 => 0xE7,
        }
    }

    /// The byte to put on the wire for this register.
    pub fn address(self) -> (a: u8)
        ensures
            a == self.spec_address(),
    {
        match self {
            RegisterAddress::Id => 0xD0,
            RegisterAddress::Reset => 0xE0,
            RegisterAddress::CtrlHum => 0xF2,
            RegisterAddress::Status => 0xF3,
            RegisterAddress::CtrlMeas => 0xF4,
            RegisterAddress::Config => 0xF5,
            RegisterAddress::PressM => 0xF7,
            RegisterAddress::PressL => 0xF8,
            RegisterAddress::PressXl => 0xF9,
            RegisterAddress::TempM => 0xFA,
            RegisterAddress::TempL => 0xFB,
            RegisterAddress::TempXl => 0xFC,
            RegisterAddress::HumM => 0xFD,
            RegisterAddress::HumL => 0xFE,
            RegisterAddress::T1L => 0x88,
            RegisterAddress::T1H => 0x89,
            RegisterAddress::T2L => 0x8A,
            RegisterAddress::T2H => 0x8B,
            RegisterAddress::T3L => 0x8C,
            RegisterAddress::T3H => 0x8D,
            RegisterAddress::P1L => 0x8E,
            RegisterAddress::P1H => 0x8F,
            RegisterAddress::P2L => 0x90,
            RegisterAddress::P2H => 0x91,
            RegisterAddress::P3L => 0x92,
            RegisterAddress::P3H => 0x93,
            RegisterAddress::P4L => 0x94,
            RegisterAddress::P4H => 0x95,
            RegisterAddress::P5L => 0x96,
            RegisterAddress::P5H => 0x97,
            RegisterAddress::P6L => 0x98,
            RegisterAddress::P6H => 0x99,
            RegisterAddress::P7L => 0x9A,
            RegisterAddress::P7H => 0x9B,
            RegisterAddress::P8L => 0x9C,
            RegisterAddress::P8H => 0x9D,
            RegisterAddress::P9L => 0x9E,
            RegisterAddress::P9H => 0x9F,
            RegisterAddress::H1 => 0xA1,
            RegisterAddress::H2L => 0xE1,
            RegisterAddress::H2H => 0xE2,
            RegisterAddress::H3 => 0xE3,
            RegisterAddress::H4H => 0xE4,
            RegisterAddress::H4LH5L => 0xE5,
            RegisterAddress::H5H => 0xE6,
            RegisterAddress::H6 => 0xE7,
        }
    }

    /// The calibration table: the register holding byte `i` of the 32-byte
    /// calibration block, in the order the loader reads them.
    pub open spec fn spec_calibration_register(i: int) -> RegisterAddress {
        if i == 0 { RegisterAddress::T1L }
        else if i == 1 { RegisterAddress::T1H }
        else if i == 2 { RegisterAddress::T2L }
        else if i == 3 { RegisterAddress::T2H }
        else if i == 4 { RegisterAddress::T3L }
        else if i == 5 { RegisterAddress::T3H }
        else if i == 6 { RegisterAddress::P1L }
        else if i == 7 { RegisterAddress::P1H }
        else if i == 8 { RegisterAddress::P2L }
        else if i == 9 { RegisterAddress::P2H }
        else if i == 10 { RegisterAddress::P3L }
        else if i == 11 { RegisterAddress::P3H }
        else if i == 12 { RegisterAddress::P4L }
        else if i == 13 { RegisterAddress::P4H }
        else if i == 14 { RegisterAddress::P5L }
        else if i == 15 { RegisterAddress::P5H }
        else if i == 16 { RegisterAddress::P6L }
        else if i == 17 { RegisterAddress::P6H }
        else if i == 18 { RegisterAddress::P7L }
        else if i == 19 { RegisterAddress::P7H }
        else if i == 20 { RegisterAddress::P8L }
        else if i == 21 { RegisterAddress::P8H }
        else if i == 22 { RegisterAddress::P9L }
        else if i == 23 { RegisterAddress::P9H }
        else if i == 24 { RegisterAddress::H1 }
        else if i == 25 { RegisterAddress::H2L }
        else if i == 26 { RegisterAddress::H2H }
        else if i == 27 { RegisterAddress::H3 }
        else if i == 28 { RegisterAddress::H4H }
        else if i == 29 { RegisterAddress::H4LH5L }
        else if i == 30 { RegisterAddress::H5H }
        else { RegisterAddress::H6 }
    }

    /// The register holding byte `i` of the calibration block.
    pub fn calibration_register(i: usize) -> (r: RegisterAddress)
        requires
            i < 32,
        ensures
            r == RegisterAddress::spec_calibration_register(i as int),
    {
        match i {
            0 => RegisterAddress::T1L,
            1 => RegisterAddress::T1H,
            2 => RegisterAddress::T2L,
            3 => RegisterAddress::T2H,
            4 => RegisterAddress::T3L,
            5 => RegisterAddress::T3H,
            6 => RegisterAddress::P1L,
            7 => RegisterAddress::P1H,
            8 => RegisterAddress::P2L,
            9 => RegisterAddress::P2H,
            10 => RegisterAddress::P3L,
            11 => RegisterAddress::P3H,
            12 => RegisterAddress::P4L,
            13 => RegisterAddress::P4H,
            14 => RegisterAddress::P5L,
            15 => RegisterAddress::P5H,
            16 => RegisterAddress::P6L,
            17 => RegisterAddress::P6H,
            18 => RegisterAddress::P7L,
            19 => RegisterAddress::P7H,
            20 => RegisterAddress::P8L,
            21 => RegisterAddress::P8H,
            22 => RegisterAddress::P9L,
            23 => RegisterAddress::P9H,
            24 => RegisterAddress::H1,
            25 => RegisterAddress::H2L,
            26 => RegisterAddress::H2H,
            27 => RegisterAddress::H3,
            28 => RegisterAddress::H4H,
            29 => RegisterAddress::H4LH5L,
            30 => RegisterAddress::H5H,
            _ => RegisterAddress::H6,
        }
    }
}

} // verus!
