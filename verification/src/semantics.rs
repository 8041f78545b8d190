//! What each instruction does to the machine, as a function from state to
//! state.

use crate::instruction::Instruction;
use crate::registers::{Flag, R16, R8};
use crate::state::{bit_is_set, with_bit, MachineState};
use vstd::prelude::*;

verus! {

/// The eight operations of the arithmetic/logic unit on the accumulator.
#[derive(PartialEq, Eq, Structural, Copy, Clone)]
pub enum AluOp {
    Add,
    AddCarry,
    Sub,
    SubCarry,
    And,
    Xor,
    Or,
    Cmp,
}

/// The eight rotate, shift and swap operations on a byte.
#[derive(PartialEq, Eq, Structural, Copy, Clone)]
pub enum ShiftOp {
    Rlc,
    Rrc,
    Rl,
    Rr,
    Sla,
    Sra,
    Swap,
    Srl,
}

/// The carry flag as a number.
pub open spec fn carry_value(carry: bool) -> int {
    if carry {
        1
    } else {
        0
    }
}

/// Result and flags (zero, subtract, half carry, carry) of `op` applied to the
/// accumulator value `a` and the operand `y`, with incoming carry `carry_in`
/// (read only by the operations with carry).
pub open spec fn alu_outcome(op: AluOp, a: u8, y: u8, carry_in: bool) -> (u8, bool, bool, bool, bool) {
    let c = carry_value(carry_in);
    match op {
        AluOp::Add => {
            let t = a + y;
            let r = (t % 256) as u8;
            (r, r == 0, false, a % 16 + y % 16 > 15, t > 255)
        },
        AluOp::AddCarry => {
            let t = a + y + c;
            let r = (t % 256) as u8;
            (r, r == 0, false, a % 16 + y % 16 + c > 15, t > 255)
        },
        AluOp::Sub | AluOp::Cmp => {
            let t = a - y;
            let r = (t % 256) as u8;
            (r, r == 0, true, a % 16 < y % 16, t < 0)
        },
        AluOp::SubCarry => {
            let t = a - y - c;
            let r = (t % 256) as u8;
            (r, r == 0, true, a % 16 - y % 16 - c < 0, t < 0)
        },
        AluOp::And => {
            let r = a & y;
            (r, r == 0, false, true, false)
        },
        AluOp::Xor => {
            let r = a ^ y;
            (r, r == 0, false, false, false)
        },
        AluOp::Or => {
            let r = a | y;
            (r, r == 0, false, false, false)
        },
    }
}

/// `op` on the accumulator and `y`: the result goes to `A` (except for a
/// compare) and all four flags are assigned.
pub open spec fn alu_effect(s: MachineState, op: AluOp, y: u8) -> MachineState {
    let (r, z, n, h, c) = alu_outcome(op, s.r8(R8::A), y, s.flag(Flag::Carry));
    let s1 = if op == AluOp::Cmp {
        s
    } else {
        s.with_r8(R8::A, r)
    };
    s1.with_flags(z, n, h, c)
}

/// Result and carry out of the rotate, shift or swap `op` on `x`, with
/// incoming carry `carry_in` (read only by `Rl` and `Rr`).
pub open spec fn shift_outcome(op: ShiftOp, x: u8, carry_in: bool) -> (u8, bool) {
    let cin: u8 = if carry_in {
        1
    } else {
        0
    };
    match op {
        ShiftOp::Rlc => ((x << 1u8) | (x >> 7u8), x & 0x80 == 0x80),
        ShiftOp::Rrc => ((x >> 1u8) | (x << 7u8), x & 0x01 == 0x01),
        ShiftOp::Rl => ((x << 1u8) | cin, x & 0x80 == 0x80),
        ShiftOp::Rr => ((x >> 1u8) | (cin << 7u8), x & 0x01 == 0x01),
        ShiftOp::Sla => (x << 1u8, x & 0x80 == 0x80),
        ShiftOp::Sra => ((x >> 1u8) | (x & 0x80), x & 0x01 == 0x01),
        ShiftOp::Swap => ((x << 4u8) | (x >> 4u8), false),
        ShiftOp::Srl => (x >> 1u8, x & 0x01 == 0x01),
    }
}

/// A 0xCB-prefixed rotate, shift or swap of register `r`: the result is
/// written back and all four flags are assigned.
pub open spec fn shift_reg_effect(s: MachineState, op: ShiftOp, r: R8) -> MachineState {
    let (v, c) = shift_outcome(op, s.r8(r), s.flag(Flag::Carry));
    s.with_r8(r, v).with_flags(v == 0, false, false, c)
}

/// A 0xCB-prefixed rotate, shift or swap of the byte at `(HL)`.
pub open spec fn shift_mem_effect(s: MachineState, op: ShiftOp) -> MachineState {
    let addr = s.r16(R16::HL);
    let (v, c) = shift_outcome(op, s.mem8(addr), s.flag(Flag::Carry));
    s.with_mem8(addr, v).with_flags(v == 0, false, false, c)
}

/// `RLCA`, `RRCA`, `RLA` and `RRA`: a rotate of `A` that always clears the
/// zero flag.
pub open spec fn rotate_a_effect(s: MachineState, op: ShiftOp) -> MachineState {
    let (v, c) = shift_outcome(op, s.r8(R8::A), s.flag(Flag::Carry));
    s.with_r8(R8::A, v).with_flags(false, false, false, c)
}

/// The byte after incrementing (or decrementing) `x`, and the half carry (or
/// half borrow) out of the low nibble.
pub open spec fn inc_dec_outcome(x: u8, inc: bool) -> (u8, bool) {
    if inc {
        (((x + 1) % 256) as u8, x % 16 == 15)
    } else {
        (((x - 1) % 256) as u8, x % 16 == 0)
    }
}

/// The flags that an 8-bit increment or decrement assigns; carry is kept.
pub open spec fn inc_dec_flags(s: MachineState, v: u8, inc: bool, h: bool) -> MachineState {
    s.with_flag(Flag::Zero, v == 0).with_flag(Flag::SubBCD, !inc).with_flag(
        Flag::HalfCarryBCD,
        h,
    )
}

/// The value that decimal adjustment leaves in the accumulator `a`, given the
/// subtract, half carry and carry flags.
pub open spec fn daa_value(a: u8, n: bool, h: bool, c: bool) -> u8 {
    let r1: int = if !n && a % 16 > 9 {
        (a + 0x06) % 256
    } else {
        a as int
    };
    let r2: int = if !n && r1 > 0x90 {
        (r1 + 0x60) % 256
    } else {
        r1
    };
    let r3: int = if h {
        if n {
            (r2 - 0x06) % 256
        } else {
            (r2 + 0x06) % 256
        }
    } else {
        r2
    };
    let r4: int = if c {
        if n {
            (r3 - 0x60) % 256
        } else {
            (r3 + 0x60) % 256
        }
    } else {
        r3
    };
    r4 as u8
}

/// `DAA`: the adjusted accumulator, the zero flag, a cleared half carry, and
/// carry set when the result is above 0x99 or carry was set.
pub open spec fn daa_effect(s: MachineState) -> MachineState {
    let c = s.flag(Flag::Carry);
    let v = daa_value(s.r8(R8::A), s.flag(Flag::SubBCD), s.flag(Flag::HalfCarryBCD), c);
    s.with_r8(R8::A, v).with_flag(Flag::Zero, v == 0).with_flag(Flag::HalfCarryBCD, false).with_flag(
        Flag::Carry,
        v > 0x99 || c,
    )
}

/// The address `0xFF00 + offset` in the high page.
pub open spec fn high_page(offset: u8) -> u16 {
    (0xFF00 + offset) as u16
}

/// `SP` plus the signed offset `e`, wrapping, with the half carry and carry
/// of adding the low byte of `e` to the low byte of `SP`; the zero and
/// subtract flags are cleared.
pub open spec fn sp_offset(s: MachineState, e: i8) -> (u16, bool, bool) {
    let sp = s.sp;
    let u = e as u8;
    (((sp + e) % 65536) as u16, sp % 16 + u % 16 > 15, sp % 256 + u > 255)
}

/// Which instructions `exec` carries out: all but jumps, calls, returns,
/// restarts, `HALT`, `STOP`, `DI`, `EI` and `NOP`.
pub open spec fn is_executable(ins: Instruction) -> bool {
    match ins {
        Instruction::JP { .. } | Instruction::JPHL | Instruction::JPCC { .. } | Instruction::JR {
            ..
        } | Instruction::JRCC { .. } | Instruction::Call { .. } | Instruction::CallCC { .. }
        | Instruction::Ret | Instruction::RetCC { .. } | Instruction::RetI | Instruction::RST {
            ..
        } | Instruction::Halt | Instruction::Stop { .. } | Instruction::DI | Instruction::EI
        | Instruction::NOP => false,
        _ => true,
    }
}

/// How far `exec` moves the program counter for `ins`.
pub open spec fn pc_increment(ins: Instruction) -> u16 {
    match ins {
        Instruction::StoreImmIndirectHL { .. } | Instruction::LoadHLSPOffset { .. }
        | Instruction::AddImm8 { .. } | Instruction::AddCImm8 { .. } | Instruction::SubImm8 { .. }
        | Instruction::SubCImm8 { .. } | Instruction::CmpImm8 { .. } | Instruction::AndImm8 { .. }
        | Instruction::OrImm8 { .. } | Instruction::XorImm8 { .. } | Instruction::AddSPImm8 { .. }
        | Instruction::RLC { .. } | Instruction::RLCIndirectHL | Instruction::RRC { .. }
        | Instruction::RRCIndirectHL | Instruction::RL { .. } | Instruction::RLIndirectHL
        | Instruction::RR { .. } | Instruction::RRIndirectHL | Instruction::SLA { .. }
        | Instruction::SLAIndirectHL | Instruction::SRA { .. } | Instruction::SRAIndirectHL
        | Instruction::Swap { .. } | Instruction::SwapIndirectHL | Instruction::SRL { .. }
        | Instruction::SRLIndirectHL | Instruction::BIT { .. } | Instruction::BITIndirectHL { .. }
        | Instruction::RES { .. } | Instruction::RESIndirectHL { .. } | Instruction::SET { .. }
        | Instruction::SETIndirectHL { .. } => 2,
        Instruction::LoadAcc16 { .. } | Instruction::StoreAcc16 { .. } | Instruction::LoadImm16 {
            ..
        } | Instruction::StoreSP16 { .. } => 3,
        _ => 1,
    }
}

/// The conditions under which `exec` can carry out `ins` in state `s`: the
/// instruction is one that it carries out, the program counter does not pass
/// 0xFFFF, `HL` does not step past either end of memory, the stack has room
/// for a push or a pop, a stored word lies inside memory, and a bit number
/// is below 8.
pub open spec fn can_execute(s: MachineState, ins: Instruction) -> bool {
    &&& is_executable(ins)
    &&& s.pc + pc_increment(ins) <= 0xFFFF
    &&& match ins {
        Instruction::LoadAccIndirectHLDec | Instruction::StoreAccIndirectHLDec => s.r16(R16::HL)
            >= 1,
        Instruction::LoadAccIndirectHLInc | Instruction::StoreAccIndirectHLInc => s.r16(R16::HL)
            < 0xFFFF,
        Instruction::StoreSP16 { addr } => addr < 0xFFFF,
        Instruction::Push { .. } => s.sp >= 2,
        Instruction::Pop { .. } => s.sp <= 0xFFFD,
        Instruction::BIT { bit, .. } | Instruction::BITIndirectHL { bit } | Instruction::RES {
            bit,
            ..
        } | Instruction::RESIndirectHL { bit } | Instruction::SET { bit, .. }
        | Instruction::SETIndirectHL { bit } => bit < 8,
        _ => true,
    }
}

/// What `ins` does to `s` apart from moving the program counter.
pub open spec fn effect(s: MachineState, ins: Instruction) -> MachineState {
    let hl = s.r16(R16::HL);
    let a = s.r8(R8::A);
    match ins {
        Instruction::LoadReg8 { src, dest } => s.with_r8(dest, s.r8(src)),
        Instruction::LoadImm8 { dest, imm } => s.with_r8(dest, imm),
        Instruction::LoadIndirectHL { dest } => s.with_r8(dest, s.mem8(hl)),
        Instruction::StoreIndirectHL { src } => s.with_mem8(hl, s.r8(src)),
        Instruction::StoreImmIndirectHL { imm } => s.with_mem8(hl, imm),
        Instruction::LoadAccIndirectBC => s.with_r8(R8::A, s.mem8(s.r16(R16::BC))),
        Instruction::LoadAccIndirectDE => s.with_r8(R8::A, s.mem8(s.r16(R16::DE))),
        Instruction::StoreAccIndirectBC => s.with_mem8(s.r16(R16::BC), a),
        Instruction::StoreAccIndirectDE => s.with_mem8(s.r16(R16::DE), a),
        Instruction::LoadAcc16 { addr } => s.with_r8(R8::A, s.mem8(addr)),
        Instruction::StoreAcc16 { addr } => s.with_mem8(addr, a),
        Instruction::LoadAccIndirectC => s.with_r8(R8::A, s.mem8(high_page(s.r8(R8::C)))),
        Instruction::StoreAccIndirectC => s.with_mem8(high_page(s.r8(R8::C)), a),
        Instruction::LoadAccDirect8 { offset } => s.with_r8(R8::A, s.mem8(high_page(offset))),
        Instruction::StoreAccDirect8 { offset } => s.with_mem8(high_page(offset), a),
        Instruction::LoadAccIndirectHLDec => s.with_r8(R8::A, s.mem8(hl)).with_r16(
            R16::HL,
            (hl - 1) as u16,
        ),
        Instruction::StoreAccIndirectHLDec => s.with_mem8(hl, a).with_r16(R16::HL, (hl - 1) as u16),
        Instruction::LoadAccIndirectHLInc => s.with_r8(R8::A, s.mem8(hl)).with_r16(
            R16::HL,
            (hl + 1) as u16,
        ),
        Instruction::StoreAccIndirectHLInc => s.with_mem8(hl, a).with_r16(R16::HL, (hl + 1) as u16),
        Instruction::LoadImm16 { dest, imm } => s.with_r16(dest, imm),
        Instruction::StoreSP16 { addr } => s.with_mem16(addr, s.sp),
        Instruction::LoadSPHL => s.with_r16(R16::SP, hl),
        Instruction::Push { src } => s.with_mem16((s.sp - 1) as u16, s.r16(src)).with_sp(
            (s.sp - 2) as u16,
        ),
        Instruction::Pop { dest } => s.with_r16(dest, s.mem16((s.sp + 1) as u16)).with_sp(
            (s.sp + 2) as u16,
        ),
        Instruction::LoadHLSPOffset { offset } => {
            let (v, h, c) = sp_offset(s, offset);
            s.with_r16(R16::HL, v).with_flag(Flag::Zero, false).with_flag(Flag::SubBCD, false).with_flag(
                Flag::HalfCarryBCD,
                h,
            ).with_flag(Flag::Carry, c)
        },
        Instruction::Add8 { src } => alu_effect(s, AluOp::Add, s.r8(src)),
        Instruction::Add8IndirectHL => alu_effect(s, AluOp::Add, s.mem8(hl)),
        Instruction::AddImm8 { imm } => alu_effect(s, AluOp::Add, imm),
        Instruction::AddC8 { src } => alu_effect(s, AluOp::AddCarry, s.r8(src)),
        Instruction::AddC8IndirectHL => alu_effect(s, AluOp::AddCarry, s.mem8(hl)),
        Instruction::AddCImm8 { imm } => alu_effect(s, AluOp::AddCarry, imm),
        Instruction::Sub8 { src } => alu_effect(s, AluOp::Sub, s.r8(src)),
        Instruction::Sub8IndirectHL => alu_effect(s, AluOp::Sub, s.mem8(hl)),
        Instruction::SubImm8 { imm } => alu_effect(s, AluOp::Sub, imm),
        Instruction::SubC8 { src } => alu_effect(s, AluOp::SubCarry, s.r8(src)),
        Instruction::SubC8IndirectHL => alu_effect(s, AluOp::SubCarry, s.mem8(hl)),
        Instruction::SubCImm8 { imm } => alu_effect(s, AluOp::SubCarry, imm),
        Instruction::Cmp8 { src } => alu_effect(s, AluOp::Cmp, s.r8(src)),
        Instruction::Cmp8IndirectHL => alu_effect(s, AluOp::Cmp, s.mem8(hl)),
        Instruction::CmpImm8 { imm } => alu_effect(s, AluOp::Cmp, imm),
        Instruction::And8 { src } => alu_effect(s, AluOp::And, s.r8(src)),
        Instruction::And8IndirectHL => alu_effect(s, AluOp::And, s.mem8(hl)),
        Instruction::AndImm8 { imm } => alu_effect(s, AluOp::And, imm),
        Instruction::Or8 { src } => alu_effect(s, AluOp::Or, s.r8(src)),
        Instruction::Or8IndirectHL => alu_effect(s, AluOp::Or, s.mem8(hl)),
        Instruction::OrImm8 { imm } => alu_effect(s, AluOp::Or, imm),
        Instruction::Xor8 { src } => alu_effect(s, AluOp::Xor, s.r8(src)),
        Instruction::Xor8IndirectHL => alu_effect(s, AluOp::Xor, s.mem8(hl)),
        Instruction::XorImm8 { imm } => alu_effect(s, AluOp::Xor, imm),
        Instruction::Inc8 { src } => {
            let (v, h) = inc_dec_outcome(s.r8(src), true);
            inc_dec_flags(s.with_r8(src, v), v, true, h)
        },
        Instruction::Inc8IndirectHL => {
            let (v, h) = inc_dec_outcome(s.mem8(hl), true);
            inc_dec_flags(s.with_mem8(hl, v), v, true, h)
        },
        Instruction::Dec8 { src } => {
            let (v, h) = inc_dec_outcome(s.r8(src), false);
            inc_dec_flags(s.with_r8(src, v), v, false, h)
        },
        Instruction::Dec8IndirectHL => {
            let (v, h) = inc_dec_outcome(s.mem8(hl), false);
            inc_dec_flags(s.with_mem8(hl, v), v, false, h)
        },
        Instruction::CmplCarryFlag => s.with_flag(Flag::SubBCD, false).with_flag(
            Flag::HalfCarryBCD,
            false,
        ).with_flag(Flag::Carry, !s.flag(Flag::Carry)),
        Instruction::SetCarryFlag => s.with_flag(Flag::SubBCD, false).with_flag(
            Flag::HalfCarryBCD,
            false,
        ).with_flag(Flag::Carry, true),
        Instruction::DecAdjAcc => daa_effect(s),
        Instruction::CmplAcc => s.with_r8(R8::A, !a).with_flag(Flag::SubBCD, true).with_flag(
            Flag::HalfCarryBCD,
            true,
        ),
        Instruction::Inc16 { src } => s.with_r16(src, ((s.r16(src) + 1) % 65536) as u16),
        Instruction::Dec16 { src } => s.with_r16(src, ((s.r16(src) - 1) % 65536) as u16),
        Instruction::Add16HL { src } => {
            let v = s.r16(src);
            s.with_r16(R16::HL, ((hl + v) % 65536) as u16).with_flag(
                Flag::Carry,
                hl + v > 0xFFFF,
            ).with_flag(Flag::HalfCarryBCD, hl % 4096 + v % 4096 > 0xFFF)
        },
        Instruction::AddSPImm8 { imm } => {
            let (v, h, c) = sp_offset(s, imm);
            s.with_r16(R16::SP, v).with_flag(Flag::Zero, false).with_flag(Flag::SubBCD, false).with_flag(
                Flag::HalfCarryBCD,
                h,
            ).with_flag(Flag::Carry, c)
        },
        Instruction::RLCA => rotate_a_effect(s, ShiftOp::Rlc),
        Instruction::RRCA => rotate_a_effect(s, ShiftOp::Rrc),
        Instruction::RLA => rotate_a_effect(s, ShiftOp::Rl),
        Instruction::RRA => rotate_a_effect(s, ShiftOp::Rr),
        Instruction::RLC { src } => shift_reg_effect(s, ShiftOp::Rlc, src),
        Instruction::RLCIndirectHL => shift_mem_effect(s, ShiftOp::Rlc),
        Instruction::RRC { src } => shift_reg_effect(s, ShiftOp::Rrc, src),
        Instruction::RRCIndirectHL => shift_mem_effect(s, ShiftOp::Rrc),
        Instruction::RL { src } => shift_reg_effect(s, ShiftOp::Rl, src),
        Instruction::RLIndirectHL => shift_mem_effect(s, ShiftOp::Rl),
        Instruction::RR { src } => shift_reg_effect(s, ShiftOp::Rr, src),
        Instruction::RRIndirectHL => shift_mem_effect(s, ShiftOp::Rr),
        Instruction::SLA { src } => shift_reg_effect(s, ShiftOp::Sla, src),
        Instruction::SLAIndirectHL => shift_mem_effect(s, ShiftOp::Sla),
        Instruction::SRA { src } => shift_reg_effect(s, ShiftOp::Sra, src),
        Instruction::SRAIndirectHL => shift_mem_effect(s, ShiftOp::Sra),
        Instruction::Swap { src } => shift_reg_effect(s, ShiftOp::Swap, src),
        Instruction::SwapIndirectHL => shift_mem_effect(s, ShiftOp::Swap),
        Instruction::SRL { src } => shift_reg_effect(s, ShiftOp::Srl, src),
        Instruction::SRLIndirectHL => shift_mem_effect(s, ShiftOp::Srl),
        Instruction::BIT { src, bit } => s.with_flag(Flag::Zero, bit_is_set(s.r8(src), bit)).with_flag(
            Flag::SubBCD,
            false,
        ).with_flag(Flag::HalfCarryBCD, true),
        Instruction::BITIndirectHL { bit } => s.with_flag(
            Flag::Zero,
            bit_is_set(s.mem8(hl), bit),
        ).with_flag(Flag::SubBCD, false).with_flag(Flag::HalfCarryBCD, true),
        Instruction::RES { src, bit } => s.with_r8(src, with_bit(s.r8(src), bit, false)),
        Instruction::RESIndirectHL { bit } => s.with_mem8(hl, with_bit(s.mem8(hl), bit, false)),
        Instruction::SET { src, bit } => s.with_r8(src, with_bit(s.r8(src), bit, true)),
        Instruction::SETIndirectHL { bit } => s.with_mem8(hl, with_bit(s.mem8(hl), bit, true)),
        _ => s,
    }
}

/// The state after `exec` carries out `ins` in state `s`.
pub open spec fn step(s: MachineState, ins: Instruction) -> MachineState {
    effect(s, ins).advance(pc_increment(ins))
}

} // verus!
