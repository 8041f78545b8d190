//! The machine: registers, stack pointer, program counter and memory, with the
//! accessors that instructions are built from.

use crate::bitfield::extract_u8;
use crate::registers::{Flag, R16, R8};
use crate::state::{word, MachineState, MEMORY_SIZE};
use vstd::prelude::*;

verus! {

/// A Game Boy CPU with its 64 KiB address space.
pub struct Machine {
    pc: u16,
    gp_registers: [u8; 8],
    sp: u16,
    memory: [u8; 65536],
}

impl View for Machine {
    type V = MachineState;

    closed spec fn view(&self) -> MachineState {
        MachineState {
            pc: self.pc,
            regs: self.gp_registers@,
            sp: self.sp,
            mem: self.memory@,
        }
    }
}

impl Machine {
    /// The model of every machine has a register file of eight bytes and
    /// memory of 65536 bytes.
    pub proof fn lemma_view_wf(&self)
        ensures
            self@.wf(),
    {
    }

    /// A machine with every register, the program counter, the stack pointer
    /// and all of memory at zero.
    pub fn new() -> (m: Machine)
        ensures
            m@ == MachineState::power_on(),
    {
        let m = Machine { pc: 0, gp_registers: [0; 8], sp: 0, memory: [0; 65536] };
        assert(m@.regs =~= MachineState::power_on().regs);
        assert(m@.mem =~= MachineState::power_on().mem);
        m
    }

    /// Copies `mem` into memory from address `start` on.
    pub fn set_memory(&mut self, start: usize, mem: &[u8])
        requires
            start + mem@.len() <= MEMORY_SIZE,
        ensures
            final(self)@ == old(self)@.with_block(start as int, mem@),
    {
        let len = mem.len();
        let mut i: usize = 0;
        assert(self@.mem =~= old(self)@.with_block(start as int, mem@.take(0)).mem);
        while i < len
            invariant
                start + len <= MEMORY_SIZE,
                len == mem@.len(),
                i <= len,
                self@ == old(self)@.with_block(start as int, mem@.take(i as int)),
            decreases len - i,
        {
            self.memory[start + i] = mem[i];
            i = i + 1;
            assert(self@.mem =~= old(self)@.with_block(start as int, mem@.take(i as int)).mem);
        }
        assert(mem@.take(len as int) =~= mem@);
    }

    pub fn set_pc(&mut self, addr: u16)
        ensures
            final(self)@ == old(self)@.with_pc(addr),
    {
        self.pc = addr;
    }

    pub fn get_r8(&self, reg: R8) -> (v: u8)
        ensures
            v == self@.r8(reg),
    {
        self.gp_registers[reg.code() as usize]
    }

    /// Reads a register pair, its first register as the high byte, or the
    /// stack pointer.
    pub fn get_r16(&self, reg_pair: R16) -> (v: u16)
        ensures
            v == self@.r16(reg_pair),
    {
        match reg_pair {
            R16::BC => be_word(self.get_r8(R8::B), self.get_r8(R8::C)),
            R16::DE => be_word(self.get_r8(R8::D), self.get_r8(R8::E)),
            R16::HL => be_word(self.get_r8(R8::H), self.get_r8(R8::L)),
            R16::SP => self.sp,
            R16::AF => be_word(self.get_r8(R8::A), self.get_r8(R8::F)),
        }
    }

    pub fn get_mem8(&self, addr: u16) -> (v: u8)
        ensures
            v == self@.mem8(addr),
    {
        self.memory[addr as usize]
    }

    /// Reads the little-endian word at `addr`. The word must lie inside
    /// memory.
    pub fn get_mem16(&self, addr: u16) -> (v: u16)
        requires
            addr < 0xFFFF,
        ensures
            v == self@.mem16(addr),
    {
        let addr = addr as usize;
        be_word(self.memory[addr + 1], self.memory[addr])
    }

    /// Writes `value` little-endian at `addr`. The word must lie inside
    /// memory.
    pub fn set_mem16(&mut self, addr: u16, value: u16)
        requires
            addr < 0xFFFF,
        ensures
            final(self)@ == old(self)@.with_mem16(addr, value),
    {
        let a = addr as usize;
        let low = (value % 256) as u8;
        let high = (value / 256) as u8;
        self.memory[a] = low;
        self.memory[a + 1] = high;
        assert(self@.mem =~= old(self)@.with_mem16(addr, value).mem);
    }

    pub fn set_mem8(&mut self, addr: u16, value: u8)
        ensures
            final(self)@ == old(self)@.with_mem8(addr, value),
    {
        self.memory[addr as usize] = value;
        assert(self@.mem =~= old(self)@.with_mem8(addr, value).mem);
    }

    pub fn set_r8(&mut self, reg: R8, value: u8)
        ensures
            final(self)@ == old(self)@.with_r8(reg, value),
    {
        self.gp_registers[reg.code() as usize] = value;
        assert(self@.regs =~= old(self)@.with_r8(reg, value).regs);
    }

    pub fn set_sp(&mut self, value: u16)
        ensures
            final(self)@ == old(self)@.with_sp(value),
    {
        self.sp = value;
    }

    /// Writes a register pair, the high byte to its first register, or the
    /// stack pointer.
    pub fn set_r16(&mut self, reg_pair: R16, value: u16)
        ensures
            final(self)@ == old(self)@.with_r16(reg_pair, value),
    {
        let low = (value % 256) as u8;
        let high = (value / 256) as u8;
        match reg_pair {
            R16::BC => {
                self.set_r8(R8::B, high);
                self.set_r8(R8::C, low);
            },
            R16::DE => {
                self.set_r8(R8::D, high);
                self.set_r8(R8::E, low);
            },
            R16::HL => {
                self.set_r8(R8::H, high);
                self.set_r8(R8::L, low);
            },
            R16::AF => {
                self.set_r8(R8::A, high);
                self.set_r8(R8::F, low);
            },
            R16::SP => self.set_sp(value),
        }
    }

    pub fn get_pc(&self) -> (pc: u16)
        ensures
            pc == self@.pc,
    {
        self.pc
    }

    /// Whether `flag` is set in `F`.
    pub fn get_flag(&self, flag: Flag) -> (v: bool)
        ensures
            v == self@.flag(flag),
    {
        let bit: u8 = flag.bit();
        let f_reg = self.get_r8(R8::F);
        let value = extract_u8::<1>(f_reg, bit as usize);
        value == 1
    }

    /// Sets `flag` in `F`, keeping the other bits.
    pub fn set_flag(&mut self, flag: Flag)
        ensures
            final(self)@ == old(self)@.with_flag(flag, true),
    {
        let f_reg = self.get_r8(R8::F);
        let bit: u8 = flag.bit();
        let reg = f_reg | (1u8 << bit);
        self.set_r8(R8::F, reg);
    }

    /// Clears `flag` in `F`, keeping the other bits.
    pub fn clear_flag(&mut self, flag: Flag)
        ensures
            final(self)@ == old(self)@.with_flag(flag, false),
    {
        let f_reg = self.get_r8(R8::F);
        let bit: u8 = flag.bit();
        let mask = !(1u8 << bit);
        let reg = f_reg & mask;
        self.set_r8(R8::F, reg);
    }

    /// Sets `flag` in `F` to `value`, keeping the other bits.
    pub fn assign_flag(&mut self, flag: Flag, value: bool)
        ensures
            final(self)@ == old(self)@.with_flag(flag, value),
    {
        if value {
            self.set_flag(flag);
        } else {
            self.clear_flag(flag);
        }
    }

    /// Moves the program counter to the next byte; it must not pass 0xFFFF.
    pub fn inc_pc(&mut self)
        requires
            old(self)@.pc < 0xFFFF,
        ensures
            final(self)@ == old(self)@.advance(1),
    {
        self.pc = self.pc + 1;
    }

    /// Moves the program counter forward by `offset`; it must not pass 0xFFFF.
    pub fn adv_pc(&mut self, offset: u16)
        requires
            old(self)@.pc + offset <= 0xFFFF,
        ensures
            final(self)@ == old(self)@.advance(offset),
    {
        self.pc = self.pc + offset;
    }
}

/// The word with high byte `hi` and low byte `lo`.
fn be_word(hi: u8, lo: u8) -> (v: u16)
    ensures
        v == word(hi, lo),
{
    (hi as u16) * 256 + lo as u16
}

} // verus!
