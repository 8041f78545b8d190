//! Register names, flag names and branch conditions, with their encodings in
//! opcodes.

use vstd::prelude::*;

verus! {

/// A status flag. Each flag is one bit of the high nibble of register `F`.
///
/// The bit position is given by [`Flag::bit`] and by `u8::from`, not by an
/// `as` cast: the enum carries no explicit discriminants, so `Flag::Carry as
/// u8` is 3, while its bit is 4.
#[derive(Debug, PartialEq, Eq, Structural, Copy, Clone)]
pub enum Flag {
    Zero,
    SubBCD,
    HalfCarryBCD,
    Carry,
}

impl Flag {
    /// Bit position of the flag in `F`: 7, 6, 5 and 4.
    pub open spec fn spec_bit(self) -> u8 {
        match self {
            Flag::Zero => 7,
            Flag::SubBCD => 6,
            Flag::HalfCarryBCD => 5,
            Flag::Carry => 4,
        }
    }

    #[verifier::when_used_as_spec(spec_bit)]
    pub fn bit(self) -> (b: u8)
        ensures
            b == self.spec_bit(),
    {
        match self {
            Flag::Zero => 7,
            Flag::SubBCD => 6,
            Flag::HalfCarryBCD => 5,
            Flag::Carry => 4,
        }
    }
}

impl From<Flag> for u8 {
    fn from(flag: Flag) -> (b: u8) {
        flag.bit()
    }
}

impl vstd::std_specs::convert::FromSpecImpl<Flag> for u8 {
    open spec fn obeys_from_spec() -> bool {
        true
    }

    open spec fn from_spec(flag: Flag) -> u8 {
        flag.spec_bit()
    }
}

/// A 16-bit register: one of the pairs `BC`, `DE`, `HL`, `AF`, or the stack
/// pointer.
#[derive(Debug, PartialEq, Eq, Structural, Copy, Clone)]
pub enum R16 {
    BC,
    DE,
    HL,
    AF,
    SP,
}

impl R16 {
    /// Two-bit encoding of the register in opcodes. `AF` and `SP` share `0b11`:
    /// which one is meant depends on the opcode.
    pub open spec fn spec_code(self) -> u8 {
        match self {
            R16::BC => 0,
            R16::DE => 1,
            R16::HL => 2,
            R16::AF => 3,
            R16::SP => 3,
        }
    }

    #[verifier::when_used_as_spec(spec_code)]
    pub fn code(self) -> (c: u8)
        ensures
            c == self.spec_code(),
    {
        match self {
            R16::BC => 0,
            R16::DE => 1,
            R16::HL => 2,
            R16::AF => 3,
            R16::SP => 3,
        }
    }

    /// The register pair that the two-bit field `id` names in loads and
    /// 16-bit arithmetic, where `0b11` is the stack pointer.
    pub open spec fn from_code(id: u8) -> R16 {
        if id == 0 {
            R16::BC
        } else if id == 1 {
            R16::DE
        } else if id == 2 {
            R16::HL
        } else {
            R16::SP
        }
    }

    /// The register pair that the two-bit field `id` names in `PUSH` and
    /// `POP`, where `0b11` is `AF`.
    pub open spec fn from_stack_code(id: u8) -> R16 {
        if id == 0 {
            R16::BC
        } else if id == 1 {
            R16::DE
        } else if id == 2 {
            R16::HL
        } else {
            R16::AF
        }
    }

    /// Decodes the two-bit register field of loads and 16-bit arithmetic.
    pub fn new(id: u8) -> (r: R16)
        requires
            id < 4,
        ensures
            r == R16::from_code(id),
            r.spec_code() == id,
            r != R16::AF,
    {
        if id == 0 {
            R16::BC
        } else if id == 1 {
            R16::DE
        } else if id == 2 {
            R16::HL
        } else {
            R16::SP
        }
    }

    /// Decodes the two-bit register field of `PUSH` and `POP`.
    pub fn stk(id: u8) -> (r: R16)
        requires
            id < 4,
        ensures
            r == R16::from_stack_code(id),
            r.spec_code() == id,
            r != R16::SP,
    {
        if id == 0 {
            R16::BC
        } else if id == 1 {
            R16::DE
        } else if id == 2 {
            R16::HL
        } else {
            R16::AF
        }
    }
}

impl From<R16> for u8 {
    fn from(reg: R16) -> (c: u8) {
        reg.code()
    }
}

impl vstd::std_specs::convert::FromSpecImpl<R16> for u8 {
    open spec fn obeys_from_spec() -> bool {
        true
    }

    open spec fn from_spec(reg: R16) -> u8 {
        reg.spec_code()
    }
}

/// An 8-bit register. `F` holds the flags.
#[derive(Debug, PartialEq, Eq, Structural, Copy, Clone)]
pub enum R8 {
    B,
    C,
    D,
    E,
    H,
    L,
    F,
    A,
}

impl R8 {
    /// Three-bit encoding of the register in opcodes, which is also its slot
    /// in the register file.
    pub open spec fn spec_code(self) -> u8 {
        match self {
            R8::B => 0,
            R8::C => 1,
            R8::D => 2,
            R8::E => 3,
            R8::H => 4,
            R8::L => 5,
            R8::F => 6,
            R8::A => 7,
        }
    }

    #[verifier::when_used_as_spec(spec_code)]
    pub fn code(self) -> (c: u8)
        ensures
            c == self.spec_code(),
    {
        match self {
            R8::B => 0,
            R8::C => 1,
            R8::D => 2,
            R8::E => 3,
            R8::H => 4,
            R8::L => 5,
            R8::F => 6,
            R8::A => 7,
        }
    }

    /// The register that the three-bit field `id` names.
    pub open spec fn from_code(id: u8) -> R8 {
        if id == 0 {
            R8::B
        } else if id == 1 {
            R8::C
        } else if id == 2 {
            R8::D
        } else if id == 3 {
            R8::E
        } else if id == 4 {
            R8::H
        } else if id == 5 {
            R8::L
        } else if id == 6 {
            R8::F
        } else {
            R8::A
        }
    }

    /// Decodes a three-bit register field.
    pub fn new(id: u8) -> (r: R8)
        requires
            id < 8,
        ensures
            r == R8::from_code(id),
            r.spec_code() == id,
    {
        if id == 0 {
            R8::B
        } else if id == 1 {
            R8::C
        } else if id == 2 {
            R8::D
        } else if id == 3 {
            R8::E
        } else if id == 4 {
            R8::H
        } else if id == 5 {
            R8::L
        } else if id == 6 {
            R8::F
        } else {
            R8::A
        }
    }
}

impl From<R8> for u8 {
    fn from(reg: R8) -> (c: u8) {
        reg.code()
    }
}

impl vstd::std_specs::convert::FromSpecImpl<R8> for u8 {
    open spec fn obeys_from_spec() -> bool {
        true
    }

    open spec fn from_spec(reg: R8) -> u8 {
        reg.spec_code()
    }
}

/// A branch condition on the `Zero` or `Carry` flag.
///
/// The opcode encoding is given by [`Cond::code`] and by `u8::from`, not by
/// an `as` cast: the enum carries no explicit discriminants, so
/// `Cond::NCARRY as u8` is 1, while its encoding is 2.
#[derive(Debug, PartialEq, Eq, Structural, Copy, Clone)]
pub enum Cond {
    NZ,
    NCARRY,
    Z,
    CARRY,
}

impl Cond {
    /// Two-bit encoding of the condition in opcodes.
    pub open spec fn spec_code(self) -> u8 {
        match self {
            Cond::NZ => 0,
            Cond::Z => 1,
            Cond::NCARRY => 2,
            Cond::CARRY => 3,
        }
    }

    #[verifier::when_used_as_spec(spec_code)]
    pub fn code(self) -> (c: u8)
        ensures
            c == self.spec_code(),
    {
        match self {
            Cond::NZ => 0,
            Cond::Z => 1,
            Cond::NCARRY => 2,
            Cond::CARRY => 3,
        }
    }

    /// The condition that the two-bit field `id` names.
    pub open spec fn from_code(id: u8) -> Cond {
        if id == 0 {
            Cond::NZ
        } else if id == 1 {
            Cond::Z
        } else if id == 2 {
            Cond::NCARRY
        } else {
            Cond::CARRY
        }
    }

    /// Decodes a two-bit condition field.
    pub fn new(id: u8) -> (c: Cond)
        requires
            id < 4,
        ensures
            c == Cond::from_code(id),
            c.spec_code() == id,
    {
        if id == 0 {
            Cond::NZ
        } else if id == 1 {
            Cond::Z
        } else if id == 2 {
            Cond::NCARRY
        } else {
            Cond::CARRY
        }
    }
}

impl From<Cond> for u8 {
    fn from(cond: Cond) -> (c: u8) {
        cond.code()
    }
}

impl vstd::std_specs::convert::FromSpecImpl<Cond> for u8 {
    open spec fn obeys_from_spec() -> bool {
        true
    }

    open spec fn from_spec(cond: Cond) -> u8 {
        cond.spec_code()
    }
}

} // verus!
