//! Registers in x86_64 assembly.
//!
//! Every register has a number in its register file: 0 to 7 for the registers that the
//! 32-bit architecture already had, 8 to 15 for those that the 64-bit extension added.  An
//! instruction names a register by the low three bits of that number (its *offset*); the
//! fourth bit travels in a REX prefix.

use vstd::prelude::*;

verus! {

/// An 8-bit register.
#[derive(Clone, Copy, Debug, PartialEq, Eq, Structural)]
pub enum Reg8 {
    Al,
    Bl,
    Cl,
    Dl,
    Sil,
    Dil,
    Bpl,
    Spl,
    Ah,
    Bh,
    Ch,
    Dh,
    R8b,
    R9b,
    R10b,
    R11b,
    R12b,
    R13b,
    R14b,
    R15b,
}

impl Reg8 {
    /// The number of this register in the 8-bit register file.
    ///
    /// The legacy high-byte registers `ah`, `ch`, `dh` and `bh` carry the numbers 4 to 7, which
    /// they share with `spl`, `bpl`, `sil` and `dil`.
    pub open spec fn number(&self) -> nat {
        match self {
            Self::Al => 0,
            Self::Cl => 1,
            Self::Dl => 2,
            Self::Bl => 3,
            Self::Spl => 4,
            Self::Bpl => 5,
            Self::Sil => 6,
            Self::Dil => 7,
            Self::Ah => 4,
            Self::Ch => 5,
            Self::Dh => 6,
            Self::Bh => 7,
            Self::R8b => 8,
            Self::R9b => 9,
            Self::R10b => 10,
            Self::R11b => 11,
            Self::R12b => 12,
            Self::R13b => 13,
            Self::R14b => 14,
            Self::R15b => 15,
        }
    }

    /// Whether this is one of the legacy high-byte registers `ah`, `ch`, `dh` and `bh`.
    pub open spec fn is_high_byte(&self) -> bool {
        *self == Self::Ah || *self == Self::Ch || *self == Self::Dh || *self == Self::Bh
    }

    /// The low three bits of the register's number.
    pub open spec fn spec_offset(&self) -> u8 {
        (self.number() % 8) as u8
    }

    /// Whether the register's number has its fourth bit set.
    pub open spec fn spec_is_extension(&self) -> bool {
        self.number() >= 8
    }

    /// Whether this is a low-byte register that shares its offset with a high-byte register.
    pub open spec fn spec_is_reserved(&self) -> bool {
        4 <= self.number() < 8 && !self.is_high_byte()
    }

    /// The offset of this register, for instruction encoding.
    #[verifier::when_used_as_spec(spec_offset)]
    pub fn offset(&self) -> (r: u8)
        ensures
            r == self.spec_offset(),
            r < 8,
    {
        match self {
            Self::Al => 0,
            Self::Cl => 1,
            Self::Dl => 2,
            Self::Bl => 3,
            Self::Spl => 4,
            Self::Bpl => 5,
            Self::Sil => 6,
            Self::Dil => 7,
            Self::Ah => 4,
            Self::Ch => 5,
            Self::Dh => 6,
            Self::Bh => 7,
            Self::R8b => 0,
            Self::R9b => 1,
            Self::R10b => 2,
            Self::R11b => 3,
            Self::R12b => 4,
            Self::R13b => 5,
            Self::R14b => 6,
            Self::R15b => 7,
        }
    }

    /// Returns true if this register is one of the extension registers, such as `r8b`.
    #[verifier::when_used_as_spec(spec_is_extension)]
    pub fn is_extension(&self) -> (r: bool)
        ensures
            r == self.spec_is_extension(),
    {
        match self {
            Self::R8b | Self::R9b | Self::R10b | Self::R11b | Self::R12b | Self::R13b | Self::R14b | Self::R15b => true,
            _ => false,
        }
    }

    /// Returns true if this register is reserved for a specific purpose, such as `spl`: it can
    /// only be addressed with a REX prefix, without which its offset names a high-byte register.
    #[verifier::when_used_as_spec(spec_is_reserved)]
    pub fn is_reserved(&self) -> (r: bool)
        ensures
            r == self.spec_is_reserved(),
    {
        match self {
            Self::Spl | Self::Bpl | Self::Sil | Self::Dil => true,
            _ => false,
        }
    }
}

/// A 16-bit register.
#[derive(Clone, Copy, Debug, PartialEq, Eq, Structural)]
pub enum Reg16 {
    Ax,
    Bx,
    Cx,
    Dx,
    Si,
    Di,
    Bp,
    Sp,
    R8w,
    R9w,
    R10w,
    R11w,
    R12w,
    R13w,
    R14w,
    R15w,
}

impl Reg16 {
    /// The number of this register in the 16-bit register file.
    pub open spec fn number(&self) -> nat {
        match self {
            Self::Ax => 0,
            Self::Cx => 1,
            Self::Dx => 2,
            Self::Bx => 3,
            Self::Sp => 4,
            Self::Bp => 5,
            Self::Si => 6,
            Self::Di => 7,
            Self::R8w => 8,
            Self::R9w => 9,
            Self::R10w => 10,
            Self::R11w => 11,
            Self::R12w => 12,
            Self::R13w => 13,
            Self::R14w => 14,
            Self::R15w => 15,
        }
    }

    /// The low three bits of the register's number.
    pub open spec fn spec_offset(&self) -> u8 {
        (self.number() % 8) as u8
    }

    /// Whether the register's number has its fourth bit set.
    pub open spec fn spec_is_extension(&self) -> bool {
        self.number() >= 8
    }

    /// The offset of this register, for instruction encoding.
    #[verifier::when_used_as_spec(spec_offset)]
    pub fn offset(&self) -> (r: u8)
        ensures
            r == self.spec_offset(),
            r < 8,
    {
        match self {
            Self::Ax => 0,
            Self::Cx => 1,
            Self::Dx => 2,
            Self::Bx => 3,
            Self::Sp => 4,
            Self::Bp => 5,
            Self::Si => 6,
            Self::Di => 7,
            Self::R8w => 0,
            Self::R9w => 1,
            Self::R10w => 2,
            Self::R11w => 3,
            Self::R12w => 4,
            Self::R13w => 5,
            Self::R14w => 6,
            Self::R15w => 7,
        }
    }

    /// Returns true if this register is one of the extension registers, such as `r8w`.
    #[verifier::when_used_as_spec(spec_is_extension)]
    pub fn is_extension(&self) -> (r: bool)
        ensures
            r == self.spec_is_extension(),
    {
        match self {
            Self::R8w | Self::R9w | Self::R10w | Self::R11w | Self::R12w | Self::R13w | Self::R14w | Self::R15w => true,
            _ => false,
        }
    }
}

/// A 32-bit register.
#[derive(Clone, Copy, Debug, PartialEq, Eq, Structural)]
pub enum Reg32 {
    Eax,
    Ebx,
    Ecx,
    Edx,
    Esi,
    Edi,
    Ebp,
    Esp,
    R8d,
    R9d,
    R10d,
    R11d,
    R12d,
    R13d,
    R14d,
    R15d,
}

impl Reg32 {
    /// The number of this register in the 32-bit register file.
    pub open spec fn number(&self) -> nat {
        match self {
            Self::Eax => 0,
            Self::Ecx => 1,
            Self::Edx => 2,
            Self::Ebx => 3,
            Self::Esp => 4,
            Self::Ebp => 5,
            Self::Esi => 6,
            Self::Edi => 7,
            Self::R8d => 8,
            Self::R9d => 9,
            Self::R10d => 10,
            Self::R11d => 11,
            Self::R12d => 12,
            Self::R13d => 13,
            Self::R14d => 14,
            Self::R15d => 15,
        }
    }

    /// The low three bits of the register's number.
    pub open spec fn spec_offset(&self) -> u8 {
        (self.number() % 8) as u8
    }

    /// Whether the register's number has its fourth bit set.
    pub open spec fn spec_is_extension(&self) -> bool {
        self.number() >= 8
    }

    /// The offset of this register, for instruction encoding.
    #[verifier::when_used_as_spec(spec_offset)]
    pub fn offset(&self) -> (r: u8)
        ensures
            r == self.spec_offset(),
            r < 8,
    {
        match self {
            Self::Eax => 0,
            Self::Ecx => 1,
            Self::Edx => 2,
            Self::Ebx => 3,
            Self::Esp => 4,
            Self::Ebp => 5,
            Self::Esi => 6,
            Self::Edi => 7,
            Self::R8d => 0,
            Self::R9d => 1,
            Self::R10d => 2,
            Self::R11d => 3,
            Self::R12d => 4,
            Self::R13d => 5,
            Self::R14d => 6,
            Self::R15d => 7,
        }
    }

    /// Returns true if this register is one of the extension registers, such as `r8d`.
    #[verifier::when_used_as_spec(spec_is_extension)]
    pub fn is_extension(&self) -> (r: bool)
        ensures
            r == self.spec_is_extension(),
    {
        match self {
            Self::R8d | Self::R9d | Self::R10d | Self::R11d | Self::R12d | Self::R13d | Self::R14d | Self::R15d => true,
            _ => false,
        }
    }
}

/// A 64-bit register.
#[derive(Clone, Copy, Debug, PartialEq, Eq, Structural)]
pub enum Reg64 {
    Rax,
    Rbx,
    Rcx,
    Rdx,
    Rsi,
    Rdi,
    Rbp,
    Rsp,
    R8,
    R9,
    R10,
    R11,
    R12,
    R13,
    R14,
    R15,
}

impl Reg64 {
    /// The number of this register in the 64-bit register file.
    pub open spec fn number(&self) -> nat {
        match self {
            Self::Rax => 0,
            Self::Rcx => 1,
            Self::Rdx => 2,
            Self::Rbx => 3,
            Self::Rsp => 4,
            Self::Rbp => 5,
            Self::Rsi => 6,
            Self::Rdi => 7,
            Self::R8 => 8,
            Self::R9 => 9,
            Self::R10 => 10,
            Self::R11 => 11,
            Self::R12 => 12,
            Self::R13 => 13,
            Self::R14 => 14,
            Self::R15 => 15,
        }
    }

    /// The low three bits of the register's number.
    pub open spec fn spec_offset(&self) -> u8 {
        (self.number() % 8) as u8
    }

    /// Whether the register's number has its fourth bit set.
    pub open spec fn spec_is_extension(&self) -> bool {
        self.number() >= 8
    }

    /// The offset of this register, for instruction encoding.
    #[verifier::when_used_as_spec(spec_offset)]
    pub fn offset(&self) -> (r: u8)
        ensures
            r == self.spec_offset(),
            r < 8,
    {
        match self {
            Self::Rax => 0,
            Self::Rcx => 1,
            Self::Rdx => 2,
            Self::Rbx => 3,
            Self::Rsp => 4,
            Self::Rbp => 5,
            Self::Rsi => 6,
            Self::Rdi => 7,
            Self::R8 => 0,
            Self::R9 => 1,
            Self::R10 => 2,
            Self::R11 => 3,
            Self::R12 => 4,
            Self::R13 => 5,
            Self::R14 => 6,
            Self::R15 => 7,
        }
    }

    /// Returns true if this register is one of the extension registers, such as `r8`.
    #[verifier::when_used_as_spec(spec_is_extension)]
    pub fn is_extension(&self) -> (r: bool)
        ensures
            r == self.spec_is_extension(),
    {
        match self {
            Self::R8 | Self::R9 | Self::R10 | Self::R11 | Self::R12 | Self::R13 | Self::R14 | Self::R15 => true,
            _ => false,
        }
    }
}

} // verus!
