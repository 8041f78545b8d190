//! Carrying out one instruction on a [`Machine`].

use crate::bitfield::{
    extract_u8, nibble_of_u16, nibble_overflowing_add, nibble_overflowing_sub,
    twelve_bit_overflowing_add, twelve_bits_of_u16,
};
use crate::instruction::Instruction;
use crate::machine::Machine;
use crate::registers::{Flag, R16, R8};
use crate::semantics::{
    alu_effect, can_execute, daa_value, inc_dec_outcome, shift_outcome, step, AluOp, ShiftOp,
};
use crate::state::bit_is_set;
use vstd::prelude::*;

verus! {

/// Facts about the low and high nibble, the low bit and the top bit of a byte.
proof fn lemma_byte_bits(x: u8)
    by (bit_vector)
    ensures
        (x >> 0u8) & 15u8 == x % 16,
        (x >> 4u8) & 15u8 == x / 16,
        x & 0x0Fu8 == x % 16,
        ((x >> 0u8) & 1u8 == 1u8) == (x & 0x01u8 == 0x01u8),
        ((((x << 1u8) | (x >> 7u8)) >> 0u8) & 1u8 == 1u8) == (x & 0x80u8 == 0x80u8),
        ((((x >> 0u8) & 15u8) << 4u8) | ((x >> 4u8) & 15u8)) == ((x << 4u8) | (x >> 4u8)),
        ((x >> 1u8) | (if x & 0x80u8 == 0x80u8 { 0x80u8 } else { 0x00u8 })) == ((x >> 1u8) | (x
            & 0x80u8)),
{
}

/// Testing bit `bit` with a mask is reading it.
proof fn lemma_mask_test(x: u8, bit: u8)
    by (bit_vector)
    requires
        bit < 8,
    ensures
        ((x & (1u8 << bit)) == (1u8 << bit)) == ((x >> bit) & 1u8 == 1u8),
{
}

/// Facts about the low nibble, low byte and low twelve bits of a word.
proof fn lemma_word_bits(v: u16)
    by (bit_vector)
    ensures
        ((v >> 0u16) & 0xFu16) as u8 == v % 16,
        (v >> 0u16) & 0xFFFu16 == v % 4096,
        v & 0x00FFu16 == v % 256,
{
}

/// The byte `a + b` modulo 256 and whether it overflowed.
fn add_u8(a: u8, b: u8) -> (r: (u8, bool))
    ensures
        r.0 == (a + b) % 256,
        r.1 == (a + b > 255),
{
    let t: u16 = a as u16 + b as u16;
    ((t % 256) as u8, t > 255)
}

/// The byte `a - b` modulo 256 and whether it borrowed.
fn sub_u8(a: u8, b: u8) -> (r: (u8, bool))
    ensures
        r.0 == (a - b) % 256,
        r.1 == (a < b),
{
    if a >= b {
        (a - b, false)
    } else {
        ((256u16 + a as u16 - b as u16) as u8, true)
    }
}

/// The word `a + b` modulo 65536 and whether it overflowed.
fn add_u16(a: u16, b: u16) -> (r: (u16, bool))
    ensures
        r.0 == (a + b) % 65536,
        r.1 == (a + b > 0xFFFF),
{
    let t: u32 = a as u32 + b as u32;
    ((t % 65536) as u16, t > 0xFFFF)
}

/// `x + y + cry` modulo 256, with the half carry out of the low nibbles and
/// the carry out of the byte.
#[verifier::spinoff_prover]
fn add_with_flags(x: u8, y: u8, cry: u8) -> (r: (u8, bool, bool))
    requires
        cry <= 1,
    ensures
        r.0 == (x + y + cry) % 256,
        r.1 == (x % 16 + y % 16 + cry > 15),
        r.2 == (x + y + cry > 255),
{
    let (sum, carry) = add_u8(x, y);
    let (sum, carry2) = add_u8(sum, cry);
    let carry = carry || carry2;
    let x_3_0 = extract_u8::<4>(x, 0);
    let y_3_0 = extract_u8::<4>(y, 0);
    let cry_3_0 = extract_u8::<4>(cry, 0);
    proof {
        lemma_byte_bits(x);
        lemma_byte_bits(y);
        lemma_byte_bits(cry);
    }
    let (hc_sum, half_carry) = nibble_overflowing_add(x_3_0, y_3_0);
    let (_, half_carry2) = nibble_overflowing_add(hc_sum, cry_3_0);
    (sum, half_carry || half_carry2, carry)
}

/// `x - y - cry` modulo 256, with the half borrow out of the low nibbles and
/// the borrow out of the byte.
#[verifier::spinoff_prover]
fn sub_with_flags(x: u8, y: u8, cry: u8) -> (r: (u8, bool, bool))
    requires
        cry <= 1,
    ensures
        r.0 == (x - y - cry) % 256,
        r.1 == (x % 16 - y % 16 - cry < 0),
        r.2 == (x - y - cry < 0),
{
    let (res, carry) = sub_u8(x, y);
    let (res, carry2) = sub_u8(res, cry);
    let carry = carry || carry2;
    let x_3_0 = extract_u8::<4>(x, 0);
    let y_3_0 = extract_u8::<4>(y, 0);
    let cry_3_0 = extract_u8::<4>(cry, 0);
    proof {
        lemma_byte_bits(x);
        lemma_byte_bits(y);
        lemma_byte_bits(cry);
    }
    let (hc_diff, half_carry) = nibble_overflowing_sub(x_3_0, y_3_0);
    let (_, half_carry2) = nibble_overflowing_sub(hc_diff, cry_3_0);
    (res, half_carry || half_carry2, carry)
}

/// `x + k` modulo 256.
fn wrap_add(x: u8, k: u8) -> (r: u8)
    ensures
        r == (x + k) % 256,
{
    x.wrapping_add(k)
}

/// `x - k` modulo 256.
fn wrap_sub(x: u8, k: u8) -> (r: u8)
    ensures
        r == (x - k) % 256,
{
    x.wrapping_sub(k)
}

/// The decimal adjustment of `value` under the subtract, half carry and
/// carry flags.
#[verifier::spinoff_prover]
fn daa_adjusted(value: u8, sub: bool, hc: bool, cry: bool) -> (r: u8)
    ensures
        r == daa_value(value, sub, hc, cry),
{
    let ghost r1: int = if !sub && value % 16 > 9 {
        (value + 0x06) % 256
    } else {
        value as int
    };
    let ghost r2: int = if !sub && r1 > 0x90 {
        (r1 + 0x60) % 256
    } else {
        r1
    };
    let ghost r3: int = if hc {
        if sub {
            (r2 - 0x06) % 256
        } else {
            (r2 + 0x06) % 256
        }
    } else {
        r2
    };
    let mut res = value;
    proof {
        lemma_byte_bits(value);
    }
    if !sub {
        if (res & 0x0F) > 0x09 {
            res = wrap_add(res, 0x06);
        }
        assert(res == r1);
        if res > 0x90 {
            res = wrap_add(res, 0x60);
        }
    }
    assert(res == r2);
    if hc {
        res = if sub {
            wrap_sub(res, 0x06)
        } else {
            wrap_add(res, 0x06)
        };
    }
    assert(res == r3);
    if cry {
        res = if sub {
            wrap_sub(res, 0x60)
        } else {
            wrap_add(res, 0x60)
        };
    }
    res
}

/// The two's-complement byte of `e`.
fn signed_byte(e: i8) -> (b: u8)
    ensures
        b == e as u8,
        b == (if e >= 0 { e as int } else { e + 256 }),
{
    proof {
        assert((if e >= 0 { e as int } else { e + 256 }) == (e as u8) as int) by (bit_vector);
    }
    if e >= 0 {
        e as u8
    } else {
        (e as i16 + 256) as u8
    }
}

/// Result and carry out of the rotate, shift or swap `op` on `from`.
fn shift_value(op: ShiftOp, from: u8, fc: bool) -> (r: (u8, bool))
    ensures
        r == shift_outcome(op, from, fc),
{
    proof {
        lemma_byte_bits(from);
    }
    match op {
        ShiftOp::Rlc => ((from << 1u8) | (from >> 7u8), (from & 0x80) == 0x80),
        ShiftOp::Rrc => ((from >> 1u8) | (from << 7u8), (from & 0x01) == 0x01),
        ShiftOp::Rl => {
            let cin: u8 = if fc {
                0x01
            } else {
                0x00
            };
            ((from << 1u8) | cin, (from & 0x80) == 0x80)
        },
        ShiftOp::Rr => {
            let cin: u8 = if fc {
                0x80
            } else {
                0x00
            };
            assert((1u8 << 7u8) == 0x80u8 && (0u8 << 7u8) == 0u8) by (bit_vector);
            ((from >> 1u8) | cin, (from & 0x01) == 0x01)
        },
        ShiftOp::Sla => (from << 1u8, (from & 0x80) == 0x80),
        ShiftOp::Sra => {
            let top: u8 = if from & 0x80 == 0x80 {
                0x80
            } else {
                0x00
            };
            ((from >> 1u8) | top, (from & 0x01) == 0x01)
        },
        ShiftOp::Swap => {
            let from_3_0 = extract_u8::<4>(from, 0);
            let from_7_4 = extract_u8::<4>(from, 4);
            ((from_3_0 << 4u8) | from_7_4, false)
        },
        ShiftOp::Srl => (from >> 1u8, (from & 0x01) == 0x01),
    }
}

/// The loads and stores, which `exec` carries out itself.
spec fn is_load_store(ins: Instruction) -> bool {
    match ins {
        Instruction::LoadReg8 { .. } | Instruction::LoadImm8 { .. }
        | Instruction::LoadIndirectHL { .. } | Instruction::StoreIndirectHL { .. }
        | Instruction::StoreImmIndirectHL { .. } | Instruction::LoadAccIndirectBC
        | Instruction::LoadAccIndirectDE | Instruction::StoreAccIndirectBC
        | Instruction::StoreAccIndirectDE | Instruction::LoadAcc16 { .. }
        | Instruction::StoreAcc16 { .. } | Instruction::LoadAccIndirectC
        | Instruction::StoreAccIndirectC | Instruction::LoadAccDirect8 { .. }
        | Instruction::StoreAccDirect8 { .. } | Instruction::LoadAccIndirectHLDec
        | Instruction::StoreAccIndirectHLDec | Instruction::LoadAccIndirectHLInc
        | Instruction::StoreAccIndirectHLInc | Instruction::LoadImm16 { .. }
        | Instruction::StoreSP16 { .. } | Instruction::LoadSPHL | Instruction::Push { .. }
        | Instruction::Pop { .. } | Instruction::LoadHLSPOffset { .. } => true,
        _ => false,
    }
}

/// The rotates, shifts and bit operations, which `exec_bit_ops` carries out.
spec fn is_bit_op(ins: Instruction) -> bool {
    match ins {
        Instruction::RLCA | Instruction::RRCA | Instruction::RLA | Instruction::RRA
        | Instruction::RLC { .. } | Instruction::RLCIndirectHL | Instruction::RRC { .. }
        | Instruction::RRCIndirectHL | Instruction::RL { .. } | Instruction::RLIndirectHL
        | Instruction::RR { .. } | Instruction::RRIndirectHL | Instruction::SLA { .. }
        | Instruction::SLAIndirectHL | Instruction::SRA { .. } | Instruction::SRAIndirectHL
        | Instruction::Swap { .. } | Instruction::SwapIndirectHL | Instruction::SRL { .. }
        | Instruction::SRLIndirectHL | Instruction::BIT { .. } | Instruction::BITIndirectHL { .. }
        | Instruction::RES { .. } | Instruction::RESIndirectHL { .. } | Instruction::SET { .. }
        | Instruction::SETIndirectHL { .. } => true,
        _ => false,
    }
}

/// The bit number of `SETIndirectHL`.
fn instruction_bit(ins: &Instruction) -> (bit: u8)
    requires
        ins is SETIndirectHL,
    ensures
        bit == ins->SETIndirectHL_bit,
{
    match ins {
        Instruction::SETIndirectHL { bit } => *bit,
        _ => 0,
    }
}

impl Machine {
    /// Carries out `instruction`: the machine moves to
    /// `step(old_state, instruction)`. Jumps, calls, returns, restarts,
    /// `HALT`, `STOP`, `DI`, `EI` and `NOP` are not carried out, and the
    /// instruction must not overflow the program counter, `HL`, the stack
    /// pointer or memory (see `can_execute`).
    #[verifier::rlimit(50)]
    #[verifier::spinoff_prover]
    pub fn exec(&mut self, instruction: Instruction)
        requires
            can_execute(old(self)@, instruction),
        ensures
            final(self)@ == step(old(self)@, instruction),
    {
        let ghost s0 = self@;
        match instruction {
            Instruction::LoadReg8 { src, dest } => {
                let value = self.get_r8(src);
                self.set_r8(dest, value);
                self.inc_pc();
            },
            Instruction::LoadImm8 { dest, imm } => {
                self.set_r8(dest, imm);
                self.inc_pc();
            },
            Instruction::LoadIndirectHL { dest } => {
                let value = self.indirect_hl();
                self.set_r8(dest, value);
                self.inc_pc();
            },
            Instruction::StoreIndirectHL { src } => {
                let addr = self.get_r16(R16::HL);
                let value = self.get_r8(src);
                self.set_mem8(addr, value);
                self.inc_pc();
            },
            Instruction::StoreImmIndirectHL { imm } => {
                let addr = self.get_r16(R16::HL);
                self.set_mem8(addr, imm);
                self.adv_pc(2);
            },
            Instruction::LoadAccIndirectBC => {
                let addr = self.get_r16(R16::BC);
                let value = self.get_mem8(addr);
                self.set_r8(R8::A, value);
                self.inc_pc();
            },
            Instruction::LoadAccIndirectDE => {
                let addr = self.get_r16(R16::DE);
                let value = self.get_mem8(addr);
                self.set_r8(R8::A, value);
                self.inc_pc();
            },
            Instruction::StoreAccIndirectBC => {
                let addr = self.get_r16(R16::BC);
                let value = self.get_r8(R8::A);
                self.set_mem8(addr, value);
                self.inc_pc();
            },
            Instruction::StoreAccIndirectDE => {
                let addr = self.get_r16(R16::DE);
                let value = self.get_r8(R8::A);
                self.set_mem8(addr, value);
                self.inc_pc();
            },
            Instruction::LoadAcc16 { addr } => {
                let value = self.get_mem8(addr);
                self.set_r8(R8::A, value);
                self.adv_pc(3);
            },
            Instruction::StoreAcc16 { addr } => {
                let value = self.get_r8(R8::A);
                self.set_mem8(addr, value);
                self.adv_pc(3);
            },
            Instruction::LoadAccIndirectC => {
                let base: u16 = 0xFF00;
                let offset = self.get_r8(R8::C);
                let addr = base + (offset as u16);
                let value = self.get_mem8(addr);
                self.set_r8(R8::A, value);
                self.inc_pc();
            },
            Instruction::StoreAccIndirectC => {
                let base: u16 = 0xFF00;
                let offset = self.get_r8(R8::C);
                let addr = base + (offset as u16);
                let value = self.get_r8(R8::A);
                self.set_mem8(addr, value);
                self.inc_pc();
            },
            Instruction::LoadAccDirect8 { offset } => {
                let base: u16 = 0xFF00;
                let addr = base + (offset as u16);
                let value = self.get_mem8(addr);
                self.set_r8(R8::A, value);
                self.inc_pc();
            },
            Instruction::StoreAccDirect8 { offset } => {
                let base: u16 = 0xFF00;
                let addr = base + (offset as u16);
                let value = self.get_r8(R8::A);
                self.set_mem8(addr, value);
                self.inc_pc();
            },
            Instruction::LoadAccIndirectHLDec => {
                let addr = self.get_r16(R16::HL);
                let value = self.get_mem8(addr);
                self.set_r8(R8::A, value);
                self.inc_pc();
                self.set_r16(R16::HL, addr - 1);
            },
            Instruction::StoreAccIndirectHLDec => {
                let addr = self.get_r16(R16::HL);
                let value = self.get_r8(R8::A);
                self.set_mem8(addr, value);
                self.inc_pc();
                self.set_r16(R16::HL, addr - 1);
            },
            Instruction::LoadAccIndirectHLInc => {
                let addr = self.get_r16(R16::HL);
                let value = self.get_mem8(addr);
                self.set_r8(R8::A, value);
                self.inc_pc();
                self.set_r16(R16::HL, addr + 1);
            },
            Instruction::StoreAccIndirectHLInc => {
                let addr = self.get_r16(R16::HL);
                let value = self.get_r8(R8::A);
                self.set_mem8(addr, value);
                self.inc_pc();
                self.set_r16(R16::HL, addr + 1);
            },
            Instruction::LoadImm16 { dest, imm } => {
                self.set_r16(dest, imm);
                self.adv_pc(3);
            },
            Instruction::StoreSP16 { addr } => {
                let value = self.get_r16(R16::SP);
                self.set_mem16(addr, value);
                self.adv_pc(3);
            },
            Instruction::LoadSPHL => {
                let value = self.get_r16(R16::HL);
                self.set_r16(R16::SP, value);
                self.inc_pc();
            },
            Instruction::Push { src } => {
                let value = self.get_r16(src);
                let sp = self.get_r16(R16::SP);
                self.set_mem16(sp - 1, value);
                self.set_sp(sp - 2);
                self.inc_pc();
            },
            Instruction::Pop { dest } => {
                let sp = self.get_r16(R16::SP);
                let value = self.get_mem16(sp + 1);
                self.set_r16(dest, value);
                self.set_sp(sp + 2);
                self.inc_pc();
            },
            Instruction::LoadHLSPOffset { offset } => {
                let (value, half_carry, carry) = self.sp_plus_offset(offset);
                self.set_r16(R16::HL, value);
                self.clear_flag(Flag::Zero);
                self.clear_flag(Flag::SubBCD);
                self.assign_flag(Flag::HalfCarryBCD, half_carry);
                self.assign_flag(Flag::Carry, carry);
                self.adv_pc(0x02);
            },
            _ => {
                self.exec_arithmetic(instruction);
            },
        }
    }

    /// The arithmetic, logic, flag and 16-bit instructions, and (through
    /// `exec_bit_ops`) the rotates, shifts and bit operations.
    #[verifier::rlimit(50)]
    #[verifier::spinoff_prover]
    fn exec_arithmetic(&mut self, instruction: Instruction)
        requires
            can_execute(old(self)@, instruction),
            !is_load_store(instruction),
        ensures
            final(self)@ == step(old(self)@, instruction),
    {
        match instruction {
            Instruction::Add8 { src } => {
                let y = self.get_r8(src);
                self.add_to_a(y, false);
                self.inc_pc();
            },
            Instruction::Add8IndirectHL => {
                let y = self.indirect_hl();
                self.add_to_a(y, false);
                self.inc_pc();
            },
            Instruction::AddImm8 { imm } => {
                self.add_to_a(imm, false);
                self.adv_pc(0x02);
            },
            Instruction::AddC8 { src } => {
                let y = self.get_r8(src);
                self.add_to_a(y, true);
                self.inc_pc();
            },
            Instruction::AddC8IndirectHL => {
                let y = self.indirect_hl();
                self.add_to_a(y, true);
                self.inc_pc();
            },
            Instruction::AddCImm8 { imm } => {
                self.add_to_a(imm, true);
                self.adv_pc(0x02);
            },
            Instruction::Sub8 { src } => {
                let y = self.get_r8(src);
                self.sub_from_a(y, false, true);
                self.inc_pc();
            },
            Instruction::Sub8IndirectHL => {
                let y = self.indirect_hl();
                self.sub_from_a(y, false, true);
                self.inc_pc();
            },
            Instruction::SubImm8 { imm } => {
                self.sub_from_a(imm, false, true);
                self.adv_pc(0x02);
            },
            Instruction::SubC8 { src } => {
                let y = self.get_r8(src);
                self.sub_from_a(y, true, true);
                self.inc_pc();
            },
            Instruction::SubC8IndirectHL => {
                let y = self.indirect_hl();
                self.sub_from_a(y, true, true);
                self.inc_pc();
            },
            Instruction::SubCImm8 { imm } => {
                self.sub_from_a(imm, true, true);
                self.adv_pc(0x02);
            },
            Instruction::Cmp8 { src } => {
                let y = self.get_r8(src);
                self.sub_from_a(y, false, false);
                self.inc_pc();
            },
            Instruction::Cmp8IndirectHL => {
                let y = self.indirect_hl();
                self.sub_from_a(y, false, false);
                self.inc_pc();
            },
            Instruction::CmpImm8 { imm } => {
                self.sub_from_a(imm, false, false);
                self.adv_pc(0x02);
            },
            Instruction::And8 { src } => {
                let y = self.get_r8(src);
                self.logic_a(AluOp::And, y);
                self.inc_pc();
            },
            Instruction::And8IndirectHL => {
                let y = self.indirect_hl();
                self.logic_a(AluOp::And, y);
                self.inc_pc();
            },
            Instruction::AndImm8 { imm } => {
                self.logic_a(AluOp::And, imm);
                self.adv_pc(0x02);
            },
            Instruction::Or8 { src } => {
                let y = self.get_r8(src);
                self.logic_a(AluOp::Or, y);
                self.inc_pc();
            },
            Instruction::Or8IndirectHL => {
                let y = self.indirect_hl();
                self.logic_a(AluOp::Or, y);
                self.inc_pc();
            },
            Instruction::OrImm8 { imm } => {
                self.logic_a(AluOp::Or, imm);
                self.adv_pc(0x02);
            },
            Instruction::Xor8 { src } => {
                let y = self.get_r8(src);
                self.logic_a(AluOp::Xor, y);
                self.inc_pc();
            },
            Instruction::Xor8IndirectHL => {
                let y = self.indirect_hl();
                self.logic_a(AluOp::Xor, y);
                self.inc_pc();
            },
            Instruction::XorImm8 { imm } => {
                self.logic_a(AluOp::Xor, imm);
                self.adv_pc(0x02);
            },
            Instruction::Inc8 { src } => {
                let x = self.get_r8(src);
                let (sum, _) = add_u8(x, 1);
                self.inc_pc();
                self.set_r8(src, sum);
                self.inc_dec_assign_flags(x, sum, true);
            },
            Instruction::Inc8IndirectHL => {
                let addr = self.get_r16(R16::HL);
                let x = self.get_mem8(addr);
                let (sum, _) = add_u8(x, 1);
                self.inc_pc();
                self.set_mem8(addr, sum);
                self.inc_dec_assign_flags(x, sum, true);
            },
            Instruction::Dec8 { src } => {
                let x = self.get_r8(src);
                let (diff, _) = sub_u8(x, 1);
                self.inc_pc();
                self.set_r8(src, diff);
                self.inc_dec_assign_flags(x, diff, false);
            },
            Instruction::Dec8IndirectHL => {
                let addr = self.get_r16(R16::HL);
                let x = self.get_mem8(addr);
                let (diff, _) = sub_u8(x, 1);
                self.inc_pc();
                self.set_mem8(addr, diff);
                self.inc_dec_assign_flags(x, diff, false);
            },
            Instruction::CmplCarryFlag => {
                let carry = self.get_flag(Flag::Carry);
                self.inc_pc();
                self.clear_flag(Flag::SubBCD);
                self.clear_flag(Flag::HalfCarryBCD);
                self.assign_flag(Flag::Carry, !carry);
            },
            Instruction::SetCarryFlag => {
                self.inc_pc();
                self.clear_flag(Flag::SubBCD);
                self.clear_flag(Flag::HalfCarryBCD);
                self.set_flag(Flag::Carry);
            },
            Instruction::DecAdjAcc => {
                self.decimal_adjust();
                self.inc_pc();
            },
            Instruction::CmplAcc => {
                let value = self.get_r8(R8::A);
                self.inc_pc();
                self.set_r8(R8::A, !value);
                self.set_flag(Flag::SubBCD);
                self.set_flag(Flag::HalfCarryBCD);
            },
            Instruction::Inc16 { src } => {
                let value = self.get_r16(src);
                let res = value.wrapping_add(1u16);
                self.inc_pc();
                self.set_r16(src, res);
            },
            Instruction::Dec16 { src } => {
                let value = self.get_r16(src);
                let res = value.wrapping_sub(1u16);
                self.inc_pc();
                self.set_r16(src, res);
            },
            Instruction::Add16HL { src } => {
                let base = self.get_r16(R16::HL);
                let value = self.get_r16(src);
                let (res, carry) = add_u16(base, value);
                self.inc_pc();
                self.set_r16(R16::HL, res);
                let base_11_0 = twelve_bits_of_u16(base, 0);
                let src_11_0 = twelve_bits_of_u16(value, 0);
                proof {
                    lemma_word_bits(base);
                    lemma_word_bits(value);
                }
                let (_, half_carry) = twelve_bit_overflowing_add(base_11_0, src_11_0);
                self.assign_flag(Flag::Carry, carry);
                self.assign_flag(Flag::HalfCarryBCD, half_carry);
            },
            Instruction::AddSPImm8 { imm } => {
                let (res, half_carry, carry) = self.sp_plus_offset(imm);
                self.adv_pc(0x02);
                self.set_r16(R16::SP, res);
                self.clear_flag(Flag::Zero);
                self.clear_flag(Flag::SubBCD);
                self.assign_flag(Flag::HalfCarryBCD, half_carry);
                self.assign_flag(Flag::Carry, carry);
            },
            _ => {
                self.exec_bit_ops(instruction);
            },
        }
    }

    /// `DAA`: adjusts `A` after a BCD addition or subtraction.
    fn decimal_adjust(&mut self)
        ensures
            final(self)@ == crate::semantics::daa_effect(old(self)@),
    {
        let value = self.get_r8(R8::A);
        let sub = self.get_flag(Flag::SubBCD);
        let hc = self.get_flag(Flag::HalfCarryBCD);
        let cry = self.get_flag(Flag::Carry);
        let res = daa_adjusted(value, sub, hc, cry);
        self.set_r8(R8::A, res);
        self.assign_flag(Flag::Zero, res == 0);
        self.clear_flag(Flag::HalfCarryBCD);
        self.assign_flag(Flag::Carry, res > 0x99 || cry);
    }

    /// The rotates of `A`, the 0xCB-prefixed rotates, shifts and swaps, and
    /// `BIT`, `RES` and `SET`.
    #[verifier::rlimit(50)]
    #[verifier::spinoff_prover]
    fn exec_bit_ops(&mut self, instruction: Instruction)
        requires
            can_execute(old(self)@, instruction),
            !is_load_store(instruction),
            is_bit_op(instruction),
        ensures
            final(self)@ == step(old(self)@, instruction),
    {
        match instruction {
            Instruction::RLCA => {
                let value = self.get_r8(R8::A);
                let (res, _) = shift_value(ShiftOp::Rlc, value, false);
                let carry = extract_u8::<1>(res, 0) == 1;
                proof {
                    lemma_byte_bits(value);
                }
                self.inc_pc();
                self.set_r8(R8::A, res);
                self.shift_assign_flags(res, carry, false);
            },
            Instruction::RRCA => {
                let value = self.get_r8(R8::A);
                let (res, _) = shift_value(ShiftOp::Rrc, value, false);
                let carry = extract_u8::<1>(value, 0) == 1;
                proof {
                    lemma_byte_bits(value);
                }
                self.inc_pc();
                self.set_r8(R8::A, res);
                self.shift_assign_flags(res, carry, false);
            },
            Instruction::RLA => {
                let from = self.get_r8(R8::A);
                let fc = self.get_flag(Flag::Carry);
                let (res, carry) = shift_value(ShiftOp::Rl, from, fc);
                self.inc_pc();
                self.set_r8(R8::A, res);
                self.shift_assign_flags(res, carry, false);
            },
            Instruction::RRA => {
                let from = self.get_r8(R8::A);
                let fc = self.get_flag(Flag::Carry);
                let (res, carry) = shift_value(ShiftOp::Rr, from, fc);
                self.inc_pc();
                self.set_r8(R8::A, res);
                self.shift_assign_flags(res, carry, false);
            },
            Instruction::RLC { src } => self.shift_register(ShiftOp::Rlc, src),
            Instruction::RLCIndirectHL => self.shift_indirect_hl(ShiftOp::Rlc),
            Instruction::RRC { src } => self.shift_register(ShiftOp::Rrc, src),
            Instruction::RRCIndirectHL => self.shift_indirect_hl(ShiftOp::Rrc),
            Instruction::RL { src } => self.shift_register(ShiftOp::Rl, src),
            Instruction::RLIndirectHL => self.shift_indirect_hl(ShiftOp::Rl),
            Instruction::RR { src } => self.shift_register(ShiftOp::Rr, src),
            Instruction::RRIndirectHL => self.shift_indirect_hl(ShiftOp::Rr),
            Instruction::SLA { src } => self.shift_register(ShiftOp::Sla, src),
            Instruction::SLAIndirectHL => self.shift_indirect_hl(ShiftOp::Sla),
            Instruction::SRA { src } => self.shift_register(ShiftOp::Sra, src),
            Instruction::SRAIndirectHL => self.shift_indirect_hl(ShiftOp::Sra),
            Instruction::Swap { src } => self.shift_register(ShiftOp::Swap, src),
            Instruction::SwapIndirectHL => self.shift_indirect_hl(ShiftOp::Swap),
            Instruction::SRL { src } => self.shift_register(ShiftOp::Srl, src),
            Instruction::SRLIndirectHL => self.shift_indirect_hl(ShiftOp::Srl),
            Instruction::BIT { src, bit } => {
                let from = self.get_r8(src);
                self.adv_pc(2);
                self.test_bit(from, bit);
            },
            Instruction::BITIndirectHL { bit } => {
                let from = self.indirect_hl();
                self.adv_pc(2);
                self.test_bit(from, bit);
            },
            Instruction::RES { src, bit } => {
                let from = self.get_r8(src);
                let mask: u8 = !(0x01u8 << bit);
                let res = from & mask;
                self.adv_pc(2);
                self.set_r8(src, res);
            },
            Instruction::RESIndirectHL { bit } => {
                let addr = self.get_r16(R16::HL);
                let from = self.get_mem8(addr);
                let mask: u8 = !(0x01u8 << bit);
                let res = from & mask;
                self.adv_pc(2);
                self.set_mem8(addr, res);
            },
            Instruction::SET { src, bit } => {
                let from = self.get_r8(src);
                let mask: u8 = 0x01u8 << bit;
                let res = from | mask;
                self.adv_pc(2);
                self.set_r8(src, res);
            },
            _ => {
                let addr = self.get_r16(R16::HL);
                let from = self.get_mem8(addr);
                let mask: u8 = 0x01u8 << instruction_bit(&instruction);
                let res = from | mask;
                self.adv_pc(2);
                self.set_mem8(addr, res);
            },
        }
    }

    /// A 0xCB-prefixed rotate, shift or swap of register `src`.
    fn shift_register(&mut self, op: ShiftOp, src: R8)
        requires
            old(self)@.pc + 2 <= 0xFFFF,
        ensures
            final(self)@ == crate::semantics::shift_reg_effect(old(self)@, op, src).advance(2),
    {
        let from = self.get_r8(src);
        let fc = self.get_flag(Flag::Carry);
        let (res, carry) = shift_value(op, from, fc);
        self.adv_pc(2);
        self.set_r8(src, res);
        self.shift_assign_flags(res, carry, true);
    }

    /// A 0xCB-prefixed rotate, shift or swap of the byte at `(HL)`.
    fn shift_indirect_hl(&mut self, op: ShiftOp)
        requires
            old(self)@.pc + 2 <= 0xFFFF,
        ensures
            final(self)@ == crate::semantics::shift_mem_effect(old(self)@, op).advance(2),
    {
        let addr = self.get_r16(R16::HL);
        let from = self.get_mem8(addr);
        let fc = self.get_flag(Flag::Carry);
        let (res, carry) = shift_value(op, from, fc);
        self.adv_pc(2);
        self.set_mem8(addr, res);
        self.shift_assign_flags(res, carry, true);
    }

    /// `BIT`: the zero flag takes bit `bit` of `from`; subtract is cleared and
    /// half carry set.
    fn test_bit(&mut self, from: u8, bit: u8)
        requires
            bit < 8,
        ensures
            final(self)@ == old(self)@.with_flag(Flag::Zero, bit_is_set(from, bit)).with_flag(
                Flag::SubBCD,
                false,
            ).with_flag(Flag::HalfCarryBCD, true),
    {
        let mask: u8 = 0x01u8 << bit;
        let bit_set = from & mask == mask;
        proof {
            lemma_mask_test(from, bit);
        }
        self.assign_flag(Flag::Zero, bit_set);
        self.clear_flag(Flag::SubBCD);
        self.set_flag(Flag::HalfCarryBCD);
    }

    /// `A + y` (plus the carry flag when `with_carry`), with all flags.
    fn add_to_a(&mut self, y: u8, with_carry: bool)
        ensures
            final(self)@ == alu_effect(
                old(self)@,
                if with_carry {
                    AluOp::AddCarry
                } else {
                    AluOp::Add
                },
                y,
            ),
    {
        let x = self.get_r8(R8::A);
        let cry: u8 = if with_carry && self.get_flag(Flag::Carry) {
            1
        } else {
            0
        };
        let (sum, half_carry, carry) = add_with_flags(x, y, cry);
        self.set_r8(R8::A, sum);
        self.assign_flag(Flag::Zero, sum == 0);
        self.clear_flag(Flag::SubBCD);
        self.assign_flag(Flag::HalfCarryBCD, half_carry);
        self.assign_flag(Flag::Carry, carry);
    }

    /// `A - y` (minus the carry flag when `with_carry`), with all flags; the
    /// difference is stored in `A` unless this is a compare.
    fn sub_from_a(&mut self, y: u8, with_carry: bool, store: bool)
        requires
            store || !with_carry,
        ensures
            final(self)@ == alu_effect(
                old(self)@,
                if !store {
                    AluOp::Cmp
                } else if with_carry {
                    AluOp::SubCarry
                } else {
                    AluOp::Sub
                },
                y,
            ),
    {
        let x = self.get_r8(R8::A);
        let cry: u8 = if with_carry && self.get_flag(Flag::Carry) {
            1
        } else {
            0
        };
        let (res, half_carry, carry) = sub_with_flags(x, y, cry);
        if store {
            self.set_r8(R8::A, res);
        }
        self.assign_flag(Flag::Zero, res == 0);
        self.set_flag(Flag::SubBCD);
        self.assign_flag(Flag::HalfCarryBCD, half_carry);
        self.assign_flag(Flag::Carry, carry);
    }

    /// `A & y`, `A ^ y` or `A | y` into `A`, with all flags.
    fn logic_a(&mut self, op: AluOp, y: u8)
        requires
            op == AluOp::And || op == AluOp::Xor || op == AluOp::Or,
        ensures
            final(self)@ == alu_effect(old(self)@, op, y),
    {
        let x = self.get_r8(R8::A);
        let res = match op {
            AluOp::And => x & y,
            AluOp::Xor => x ^ y,
            _ => x | y,
        };
        self.set_r8(R8::A, res);
        self.assign_flag(Flag::Zero, res == 0);
        self.clear_flag(Flag::SubBCD);
        if op == AluOp::And {
            self.set_flag(Flag::HalfCarryBCD);
        } else {
            self.clear_flag(Flag::HalfCarryBCD);
        }
        self.clear_flag(Flag::Carry);
    }

    /// The operand at `(HL)`.
    fn indirect_hl(&self) -> (v: u8)
        ensures
            v == self@.mem8(self@.r16(R16::HL)),
    {
        let addr = self.get_r16(R16::HL);
        self.get_mem8(addr)
    }

    /// The flags of an 8-bit increment or decrement of `x` whose result is
    /// `v`; carry is kept.
    fn inc_dec_assign_flags(&mut self, x: u8, v: u8, inc: bool)
        requires
            v == inc_dec_outcome(x, inc).0,
        ensures
            final(self)@ == old(self)@.with_flag(Flag::Zero, v == 0).with_flag(
                Flag::SubBCD,
                !inc,
            ).with_flag(Flag::HalfCarryBCD, inc_dec_outcome(x, inc).1),
    {
        let x_3_0 = extract_u8::<4>(x, 0);
        proof {
            lemma_byte_bits(x);
        }
        self.assign_flag(Flag::Zero, v == 0);
        if inc {
            self.clear_flag(Flag::SubBCD);
            let (_, half_carry) = nibble_overflowing_add(x_3_0, 1);
            self.assign_flag(Flag::HalfCarryBCD, half_carry);
        } else {
            self.set_flag(Flag::SubBCD);
            let (_, half_carry) = nibble_overflowing_sub(x_3_0, 1);
            self.assign_flag(Flag::HalfCarryBCD, half_carry);
        }
    }

    /// All four flags after a rotate, shift or swap whose result is `v`.
    fn shift_assign_flags(&mut self, v: u8, carry: bool, zero_allowed: bool)
        ensures
            final(self)@ == old(self)@.with_flags(zero_allowed && v == 0, false, false, carry),
    {
        if zero_allowed {
            self.assign_flag(Flag::Zero, v == 0x00);
        } else {
            self.clear_flag(Flag::Zero);
        }
        self.clear_flag(Flag::SubBCD);
        self.clear_flag(Flag::HalfCarryBCD);
        self.assign_flag(Flag::Carry, carry);
    }

    /// `SP` plus the signed offset `e`, with the half carry and carry of the
    /// low-byte addition.
    fn sp_plus_offset(&self, e: i8) -> (r: (u16, bool, bool))
        ensures
            r == crate::semantics::sp_offset(self@, e),
    {
        let sp = self.get_r16(R16::SP);
        let value = sp.wrapping_add_signed(e as i16);
        let e_u = signed_byte(e);
        let sp_3_0 = nibble_of_u16(sp, 0);
        let e_3_0 = extract_u8::<4>(e_u, 0);
        proof {
            lemma_word_bits(sp);
            lemma_byte_bits(e_u);
        }
        let (_, half_carry) = nibble_overflowing_add(sp_3_0, e_3_0);
        let sp_7_0 = (sp & 0x00FF) as u8;
        let (_, carry) = add_u8(sp_7_0, e_u);
        (value, half_carry, carry)
    }
}

} // verus!
