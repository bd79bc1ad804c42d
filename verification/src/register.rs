//! Register model: general-purpose registers (side A or B, scalar or pair),
//! the control-register file and the combined register-file value.

use vstd::prelude::*;
use vstd::string::StringExecFns;
use crate::strings::{spec_dec, dec_string_u8};

verus! {

/// A general-purpose register: a scalar or an even/odd pair on side A or B.
#[derive(PartialEq, Eq, Structural, Clone, Copy, Debug)]
pub enum Register {
    A(u8),
    /// Odd upper index first, even lower index second.
    APair(u8, u8),
    B(u8),
    BPair(u8, u8),
}

/// The scalar register with index `value` on side `side` (false = A).
pub open spec fn spec_register_from(value: u8, side: bool) -> Register {
    if !side {
        Register::A(value)
    } else {
        Register::B(value)
    }
}

/// The register pair holding index `value`, normalized to the even lower
/// half `value - value % 2` and the odd upper half one above it.
pub open spec fn spec_register_from_pair(value: u8, side: bool) -> Register {
    let lower = (value - value % 2) as u8;
    let upper = (lower + 1) as u8;
    if !side {
        Register::APair(upper, lower)
    } else {
        Register::BPair(upper, lower)
    }
}

/// The side of a register: false for A, true for B.
pub open spec fn spec_register_side(r: Register) -> bool {
    match r {
        Register::A(_) => false,
        Register::APair(_, _) => false,
        Register::B(_) => true,
        Register::BPair(_, _) => true,
    }
}

/// The same register on the opposite side, indices kept.
pub open spec fn spec_register_complement(r: Register) -> Register {
    match r {
        Register::A(n) => Register::B(n),
        Register::APair(n1, n2) => Register::BPair(n1, n2),
        Register::B(n) => Register::A(n),
        Register::BPair(n1, n2) => Register::APair(n1, n2),
    }
}

/// `r` advanced by `rhs`: a scalar adds the amount to its index, a pair
/// moves its upper half up by the even part of `rhs` and keeps
/// lower = upper - 1.  The index arithmetic wraps around the u8 range.
pub open spec fn spec_register_add(r: Register, rhs: u8) -> Register {
    match r {
        Register::A(n) => Register::A(((n + rhs) % 0x100) as u8),
        Register::B(n) => Register::B(((n + rhs) % 0x100) as u8),
        Register::APair(n1, n2) => Register::APair(
            ((n1 + rhs - rhs % 2) % 0x100) as u8,
            ((n1 + rhs - rhs % 2 + 0xFF) % 0x100) as u8,
        ),
        Register::BPair(n1, n2) => Register::BPair(
            ((n1 + rhs - rhs % 2) % 0x100) as u8,
            ((n1 + rhs - rhs % 2 + 0xFF) % 0x100) as u8,
        ),
    }
}

/// The printed form: "A3", "B14", "A1:A0", "B5:B4".
pub open spec fn spec_register_string(r: Register) -> Seq<char> {
    match r {
        Register::A(n) => "A"@ + spec_dec(n as nat),
        Register::B(n) => "B"@ + spec_dec(n as nat),
        Register::APair(n1, n2) => "A"@ + spec_dec(n1 as nat) + ":"@ + "A"@ + spec_dec(n2 as nat),
        Register::BPair(n1, n2) => "B"@ + spec_dec(n1 as nat) + ":"@ + "B"@ + spec_dec(n2 as nat),
    }
}

impl Register {
    /// Builds the scalar register `value` on side `side` (false = A).
    pub fn from(value: u8, side: bool) -> (r: Self)
        ensures
            r == spec_register_from(value, side),
    {
        if side == false {
            Self::A(value)
        } else {
            Self::B(value)
        }
    }

    /// Builds the register pair holding `value`, normalized so the lower
    /// index is even and the upper index is one above it.
    pub fn from_pair(value: u8, side: bool) -> (r: Self)
        ensures
            r == spec_register_from_pair(value, side),
    {
        let value2 = value - value % 2;
        let value1 = value2 + 1;
        if side == false {
            Self::APair(value1, value2)
        } else {
            Self::BPair(value1, value2)
        }
    }

    /// The side bit: false for A, true for B.
    pub fn side(&self) -> (r: bool)
        ensures
            r == spec_register_side(*self),
    {
        match self {
            Self::A(_) => false,
            Self::APair(_, _) => false,
            Self::B(_) => true,
            Self::BPair(_, _) => true,
        }
    }

    /// The same register on the opposite side (models a cross-path read).
    pub fn complement(self) -> (r: Self)
        ensures
            r == spec_register_complement(self),
    {
        match self {
            Self::A(n) => Self::B(n),
            Self::APair(n1, n2) => Self::BPair(n1, n2),
            Self::B(n) => Self::A(n),
            Self::BPair(n1, n2) => Self::APair(n1, n2),
        }
    }

    /// Advances the register index by `rhs`; a pair advances its upper half
    /// by the even part of `rhs` and keeps lower = upper - 1.  The index
    /// arithmetic wraps around the u8 range.
    pub fn add_assign(&mut self, rhs: u8)
        ensures
            *final(self) == spec_register_add(*old(self), rhs),
    {
        match *self {
            Self::A(num) => {
                *self = Self::A((((num as u16) + (rhs as u16)) % 0x100) as u8);
            },
            Self::B(num) => {
                *self = Self::B((((num as u16) + (rhs as u16)) % 0x100) as u8);
            },
            Self::APair(num1, _) => {
                let upper = (((num1 as u16) + ((rhs - rhs % 2) as u16)) % 0x100) as u8;
                let lower = (((upper as u16) + 0xFF) % 0x100) as u8;
                *self = Self::APair(upper, lower);
            },
            Self::BPair(num1, _) => {
                let upper = (((num1 as u16) + ((rhs - rhs % 2) as u16)) % 0x100) as u8;
                let lower = (((upper as u16) + 0xFF) % 0x100) as u8;
                *self = Self::BPair(upper, lower);
            },
        }
    }

    /// Renders the register name.
    pub fn to_string(&self) -> (s: String)
        ensures
            s@ == spec_register_string(*self),
    {
        match self {
            Self::A(num) => {
                let mut s = String::from_str("A");
                s.append(dec_string_u8(*num).as_str());
                proof {
                    assert(s@ =~= spec_register_string(*self));
                }
                s
            },
            Self::B(num) => {
                let mut s = String::from_str("B");
                s.append(dec_string_u8(*num).as_str());
                proof {
                    assert(s@ =~= spec_register_string(*self));
                }
                s
            },
            Self::APair(num1, num2) => {
                let mut s = String::from_str("A");
                s.append(dec_string_u8(*num1).as_str());
                s.append(":");
                s.append("A");
                s.append(dec_string_u8(*num2).as_str());
                proof {
                    assert(s@ =~= spec_register_string(*self));
                }
                s
            },
            Self::BPair(num1, num2) => {
                let mut s = String::from_str("B");
                s.append(dec_string_u8(*num1).as_str());
                s.append(":");
                s.append("B");
                s.append(dec_string_u8(*num2).as_str());
                proof {
                    assert(s@ =~= spec_register_string(*self));
                }
                s
            },
        }
    }
}

/// A register pair always renders two indices that differ by exactly one,
/// the odd upper half first and the even lower half second.
pub proof fn lemma_pair_renders_adjacent_indices(value: u8, side: bool)
    ensures
        ({
            let lower = (value - value % 2) as u8;
            &&& lower % 2 == 0
            &&& spec_register_from_pair(value, side) == if !side {
                Register::APair((lower + 1) as u8, lower)
            } else {
                Register::BPair((lower + 1) as u8, lower)
            }
            &&& spec_register_string(spec_register_from_pair(value, side)) == (if !side {
                "A"@ + spec_dec((lower + 1) as nat) + ":"@ + "A"@ + spec_dec(lower as nat)
            } else {
                "B"@ + spec_dec((lower + 1) as nat) + ":"@ + "B"@ + spec_dec(lower as nat)
            })
        }),
{
}

/// A named DSP control register.
#[derive(PartialEq, Eq, Structural, Clone, Copy, Debug)]
pub enum ControlRegister {
    /// Addressing mode register.
    AMR,
    /// Control status register.
    CSR,
    /// Galois field multiply control register.
    GFPGFR,
    /// Interrupt clear register.
    ICR,
    /// Interrupt enable register.
    IER,
    /// Interrupt flag register.
    IFR,
    /// Interrupt return pointer register.
    IRP,
    /// Interrupt set register.
    ISR,
    /// Interrupt service table pointer register.
    ISTP,
    /// Nonmaskable interrupt return pointer register.
    NRP,
    /// Program counter, E1 phase.
    PCE1,
    /// Debug interrupt enable register.
    DIER,
    /// DSP core number register.
    DNUM,
    /// Exception clear register.
    ECR,
    /// Exception flag register.
    EFR,
    /// GMPY A-side polynomial register.
    GPLYA,
    /// GMPY B-side polynomial register.
    GPLYB,
    /// Internal exception report register.
    IERR,
    /// Inner loop count register.
    ILC,
    /// Interrupt task state register.
    ITSR,
    /// NMI/Exception task state register.
    NTSR,
    /// Restricted entry point address register.
    REP,
    /// Reload inner loop count register.
    RILC,
    /// Saturation status register.
    SSR,
    /// Time-stamp counter (high 32) register.
    TSCH,
    /// Time-stamp counter (low 32) register.
    TSCL,
    /// Task state register.
    TSR,
}

/// The control register selected by the 5-bit pair (crlo, crhi), or None for
/// a pair outside the tabulated domain.  crlo = 0b00010 selects IFR when
/// crhi is 0b00000 or 0b00010 and ISR otherwise.
pub open spec fn spec_control_register_from(low: u8, high: u8) -> Option<ControlRegister> {
    if low == 0b00000 {
        Some(ControlRegister::AMR)
    } else if low == 0b00001 {
        Some(ControlRegister::CSR)
    } else if low == 0b11001 {
        Some(ControlRegister::DIER)
    } else if low == 0b10001 {
        Some(ControlRegister::DNUM)
    } else if low == 0b11101 {
        Some(ControlRegister::ECR)
    } else if low == 0b11000 {
        Some(ControlRegister::GFPGFR)
    } else if low == 0b10110 {
        Some(ControlRegister::GPLYA)
    } else if low == 0b10111 {
        Some(ControlRegister::GPLYB)
    } else if low == 0b00011 {
        Some(ControlRegister::ICR)
    } else if low == 0b00100 {
        Some(ControlRegister::IER)
    } else if low == 0b11111 {
        Some(ControlRegister::IERR)
    } else if low == 0b00010 {
        if high == 0b00000 || high == 0b00010 {
            Some(ControlRegister::IFR)
        } else {
            Some(ControlRegister::ISR)
        }
    } else if low == 0b01101 {
        Some(ControlRegister::ILC)
    } else if low == 0b00110 {
        Some(ControlRegister::IRP)
    } else if low == 0b00101 {
        Some(ControlRegister::ISTP)
    } else if low == 0b11011 {
        Some(ControlRegister::ITSR)
    } else if low == 0b00111 {
        Some(ControlRegister::NRP)
    } else if low == 0b11100 {
        Some(ControlRegister::NTSR)
    } else if low == 0b10000 {
        Some(ControlRegister::PCE1)
    } else if low == 0b01111 {
        Some(ControlRegister::REP)
    } else if low == 0b01110 {
        Some(ControlRegister::RILC)
    } else if low == 0b10101 {
        Some(ControlRegister::SSR)
    } else if low == 0b01011 {
        Some(ControlRegister::TSCH)
    } else if low == 0b01010 {
        Some(ControlRegister::TSCL)
    } else if low == 0b11010 {
        Some(ControlRegister::TSR)
    } else {
        None
    }
}

/// The printed control-register name.
pub open spec fn spec_control_register_string(r: ControlRegister) -> Seq<char> {
    match r {
        ControlRegister::AMR => "AMR"@,
        ControlRegister::CSR => "CSR"@,
        ControlRegister::GFPGFR => "GFPGFR"@,
        ControlRegister::ICR => "ICR"@,
        ControlRegister::IER => "IER"@,
        ControlRegister::IFR => "IFR"@,
        ControlRegister::IRP => "IRP"@,
        ControlRegister::ISR => "ISR"@,
        ControlRegister::ISTP => "ISTP"@,
        ControlRegister::NRP => "NRP"@,
        ControlRegister::PCE1 => "PCE1"@,
        ControlRegister::DIER => "DIER"@,
        ControlRegister::DNUM => "DNUM"@,
        ControlRegister::ECR => "ECR"@,
        ControlRegister::EFR => "EFR"@,
        ControlRegister::GPLYA => "GPLYA"@,
        ControlRegister::GPLYB => "GPLYB"@,
        ControlRegister::IERR => "IERR"@,
        ControlRegister::ILC => "ILC"@,
        ControlRegister::ITSR => "ITSR"@,
        ControlRegister::NTSR => "NTSR"@,
        ControlRegister::REP => "REP"@,
        ControlRegister::RILC => "RILC"@,
        ControlRegister::SSR => "SSR"@,
        ControlRegister::TSCH => "TSCH"@,
        ControlRegister::TSCL => "TSCL"@,
        ControlRegister::TSR => "TSR"@,
    }
}

impl ControlRegister {
    /// Looks up the (crlo, crhi) encoding in the fixed table.
    pub fn from(low: u8, high: u8) -> (r: Option<Self>)
        ensures
            r == spec_control_register_from(low, high),
    {
        match low {
            0b00000 => Some(Self::AMR),
            0b00001 => Some(Self::CSR),
            0b11001 => Some(Self::DIER),
            0b10001 => Some(Self::DNUM),
            0b11101 => Some(Self::ECR),
            0b11000 => Some(Self::GFPGFR),
            0b10110 => Some(Self::GPLYA),
            0b10111 => Some(Self::GPLYB),
            0b00011 => Some(Self::ICR),
            0b00100 => Some(Self::IER),
            0b11111 => Some(Self::IERR),
            0b00010 => {
                if high == 0b00000 || high == 0b00010 {
                    Some(Self::IFR)
                } else {
                    Some(Self::ISR)
                }
            },
            0b01101 => Some(Self::ILC),
            0b00110 => Some(Self::IRP),
            0b00101 => Some(Self::ISTP),
            0b11011 => Some(Self::ITSR),
            0b00111 => Some(Self::NRP),
            0b11100 => Some(Self::NTSR),
            0b10000 => Some(Self::PCE1),
            0b01111 => Some(Self::REP),
            0b01110 => Some(Self::RILC),
            0b10101 => Some(Self::SSR),
            0b01011 => Some(Self::TSCH),
            0b01010 => Some(Self::TSCL),
            0b11010 => Some(Self::TSR),
            _ => None,
        }
    }

    /// Renders the control-register name.
    pub fn to_string(&self) -> (s: String)
        ensures
            s@ == spec_control_register_string(*self),
    {
        match self {
            Self::AMR => String::from_str("AMR"),
            Self::CSR => String::from_str("CSR"),
            Self::GFPGFR => String::from_str("GFPGFR"),
            Self::ICR => String::from_str("ICR"),
            Self::IER => String::from_str("IER"),
            Self::IFR => String::from_str("IFR"),
            Self::IRP => String::from_str("IRP"),
            Self::ISR => String::from_str("ISR"),
            Self::ISTP => String::from_str("ISTP"),
            Self::NRP => String::from_str("NRP"),
            Self::PCE1 => String::from_str("PCE1"),
            Self::DIER => String::from_str("DIER"),
            Self::DNUM => String::from_str("DNUM"),
            Self::ECR => String::from_str("ECR"),
            Self::EFR => String::from_str("EFR"),
            Self::GPLYA => String::from_str("GPLYA"),
            Self::GPLYB => String::from_str("GPLYB"),
            Self::IERR => String::from_str("IERR"),
            Self::ILC => String::from_str("ILC"),
            Self::ITSR => String::from_str("ITSR"),
            Self::NTSR => String::from_str("NTSR"),
            Self::REP => String::from_str("REP"),
            Self::RILC => String::from_str("RILC"),
            Self::SSR => String::from_str("SSR"),
            Self::TSCH => String::from_str("TSCH"),
            Self::TSCL => String::from_str("TSCL"),
            Self::TSR => String::from_str("TSR"),
        }
    }
}

/// The (low, high) pairs inside the tabulated control-register domain are
/// exactly those the lookup resolves; every other pair yields None.
pub proof fn lemma_control_register_table_total(low: u8, high: u8)
    ensures
        spec_control_register_from(low, high) is Some <==> (low == 0b00000 || low == 0b00001
            || low == 0b00010 || low == 0b00011 || low == 0b00100 || low == 0b00101 || low
            == 0b00110 || low == 0b00111 || low == 0b01010 || low == 0b01011 || low == 0b01101
            || low == 0b01110 || low == 0b01111 || low == 0b10000 || low == 0b10001 || low
            == 0b10101 || low == 0b10110 || low == 0b10111 || low == 0b11000 || low == 0b11001
            || low == 0b11010 || low == 0b11011 || low == 0b11100 || low == 0b11101 || low
            == 0b11111),
{
}

/// Either a general-purpose register or a control register.
#[derive(PartialEq, Eq, Structural, Clone, Copy, Debug)]
pub enum RegisterFile {
    GeneralPurpose(Register),
    Control(ControlRegister),
}

/// The side observable of a register file value: Some(side) for a
/// general-purpose register, None for a control register.
pub open spec fn spec_register_file_side(r: RegisterFile) -> Option<bool> {
    match r {
        RegisterFile::GeneralPurpose(register) => Some(spec_register_side(register)),
        RegisterFile::Control(_) => None,
    }
}

/// The printed form of a register file value.
pub open spec fn spec_register_file_string(r: RegisterFile) -> Seq<char> {
    match r {
        RegisterFile::GeneralPurpose(register) => spec_register_string(register),
        RegisterFile::Control(register) => spec_control_register_string(register),
    }
}

impl RegisterFile {
    /// Some(side) for a general-purpose register, None for a control one.
    pub fn side(&self) -> (r: Option<bool>)
        ensures
            r == spec_register_file_side(*self),
    {
        if let Self::GeneralPurpose(register) = self {
            Some(register.side())
        } else {
            None
        }
    }

    /// Renders the register name.
    pub fn to_string(&self) -> (s: String)
        ensures
            s@ == spec_register_file_string(*self),
    {
        match self {
            Self::GeneralPurpose(register) => register.to_string(),
            Self::Control(register) => register.to_string(),
        }
    }
}



} // verus!
