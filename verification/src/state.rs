//! The mathematical model of a machine: program counter, register file, stack
//! pointer and 64 KiB of memory, with the reads and writes that the CPU
//! performs on it.

use crate::registers::{Flag, R16, R8};
use vstd::prelude::*;

verus! {

/// Number of bytes of addressable memory.
pub const MEMORY_SIZE: usize = 0x10000;

/// The 16-bit value whose high byte is `hi` and whose low byte is `lo`.
pub open spec fn word(hi: u8, lo: u8) -> u16 {
    (hi * 256 + lo) as u16
}

/// The high byte of `v`.
pub open spec fn high_byte(v: u16) -> u8 {
    (v / 256) as u8
}

/// The low byte of `v`.
pub open spec fn low_byte(v: u16) -> u8 {
    (v % 256) as u8
}

/// Whether bit `bit` of `b` is set.
pub open spec fn bit_is_set(b: u8, bit: u8) -> bool {
    (b >> bit) & 1 == 1
}

/// `b` with bit `bit` set to `v` and every other bit kept.
pub open spec fn with_bit(b: u8, bit: u8, v: bool) -> u8 {
    if v {
        b | (1u8 << bit)
    } else {
        b & !(1u8 << bit)
    }
}

/// The state of a machine as a value: what a [`crate::Machine`] holds.
pub struct MachineState {
    pub pc: u16,
    /// The eight 8-bit registers, indexed by [`R8::spec_code`].
    pub regs: Seq<u8>,
    pub sp: u16,
    /// One byte for each of the 65536 addresses.
    pub mem: Seq<u8>,
}

impl MachineState {
    /// Register file and memory have their fixed sizes.
    pub open spec fn wf(self) -> bool {
        &&& self.regs.len() == 8
        &&& self.mem.len() == MEMORY_SIZE
    }

    /// The state after power-on: everything is zero.
    pub open spec fn power_on() -> MachineState {
        MachineState {
            pc: 0,
            regs: Seq::new(8, |i: int| 0u8),
            sp: 0,
            mem: Seq::new(MEMORY_SIZE as nat, |i: int| 0u8),
        }
    }

    pub open spec fn r8(self, r: R8) -> u8 {
        self.regs[r.spec_code() as int]
    }

    /// A register pair reads its first register as the high byte; `SP` reads
    /// the stack pointer.
    pub open spec fn r16(self, rp: R16) -> u16 {
        match rp {
            R16::BC => word(self.r8(R8::B), self.r8(R8::C)),
            R16::DE => word(self.r8(R8::D), self.r8(R8::E)),
            R16::HL => word(self.r8(R8::H), self.r8(R8::L)),
            R16::AF => word(self.r8(R8::A), self.r8(R8::F)),
            R16::SP => self.sp,
        }
    }

    pub open spec fn mem8(self, addr: u16) -> u8 {
        self.mem[addr as int]
    }

    /// The little-endian word at `addr` and `addr + 1`.
    pub open spec fn mem16(self, addr: u16) -> u16 {
        word(self.mem8((addr + 1) as u16), self.mem8(addr))
    }

    pub open spec fn flag(self, flag: Flag) -> bool {
        bit_is_set(self.r8(R8::F), flag.spec_bit())
    }

    pub open spec fn with_pc(self, pc: u16) -> MachineState {
        MachineState { pc, ..self }
    }

    /// The state with the program counter moved forward by `n`.
    pub open spec fn advance(self, n: u16) -> MachineState {
        self.with_pc((self.pc + n) as u16)
    }

    pub open spec fn with_sp(self, sp: u16) -> MachineState {
        MachineState { sp, ..self }
    }

    pub open spec fn with_r8(self, r: R8, v: u8) -> MachineState {
        MachineState { regs: self.regs.update(r.spec_code() as int, v), ..self }
    }

    /// A register pair takes the high byte in its first register and the low
    /// byte in its second; `SP` takes the whole value.
    pub open spec fn with_r16(self, rp: R16, v: u16) -> MachineState {
        match rp {
            R16::BC => self.with_r8(R8::B, high_byte(v)).with_r8(R8::C, low_byte(v)),
            R16::DE => self.with_r8(R8::D, high_byte(v)).with_r8(R8::E, low_byte(v)),
            R16::HL => self.with_r8(R8::H, high_byte(v)).with_r8(R8::L, low_byte(v)),
            R16::AF => self.with_r8(R8::A, high_byte(v)).with_r8(R8::F, low_byte(v)),
            R16::SP => self.with_sp(v),
        }
    }

    pub open spec fn with_mem8(self, addr: u16, v: u8) -> MachineState {
        MachineState { mem: self.mem.update(addr as int, v), ..self }
    }

    /// Stores `v` little-endian: the low byte at `addr`, the high byte at
    /// `addr + 1`.
    pub open spec fn with_mem16(self, addr: u16, v: u16) -> MachineState {
        self.with_mem8(addr, low_byte(v)).with_mem8((addr + 1) as u16, high_byte(v))
    }

    /// Memory with `bytes` copied to the addresses from `start` on.
    pub open spec fn with_block(self, start: int, bytes: Seq<u8>) -> MachineState {
        MachineState {
            mem: Seq::new(
                self.mem.len(),
                |i: int|
                    if start <= i < start + bytes.len() {
                        bytes[i - start]
                    } else {
                        self.mem[i]
                    },
            ),
            ..self
        }
    }

    /// The state with one flag bit of `F` set to `v`.
    pub open spec fn with_flag(self, flag: Flag, v: bool) -> MachineState {
        self.with_r8(R8::F, with_bit(self.r8(R8::F), flag.spec_bit(), v))
    }

    /// The state with all four flags assigned, in the order zero, subtract,
    /// half carry, carry.
    pub open spec fn with_flags(self, z: bool, n: bool, h: bool, c: bool) -> MachineState {
        self.with_flag(Flag::Zero, z).with_flag(Flag::SubBCD, n).with_flag(
            Flag::HalfCarryBCD,
            h,
        ).with_flag(Flag::Carry, c)
    }
}

} // verus!
