//! Properties that hold of every machine state and every byte sequence:
//! what a read gives back after a write, what one instruction undoes of
//! another, and how decoding and execution fit together.

use crate::instruction::{
    decoded, instruction_length, instruction_of, is_unknown_opcode, op_x, op_y, op_z,
    prefixed_instruction, block1_instruction, DecodeError, Instruction,
};
use crate::registers::{Cond, Flag, R16, R8};
use crate::semantics::{can_execute, is_executable, pc_increment, step};
use crate::state::{bit_is_set, with_bit, MachineState};
use vstd::prelude::*;

verus! {

/// Setting one bit of a byte and reading bits back.
pub(crate) proof fn lemma_with_bit(b: u8, bit: u8, v: bool, other: u8)
    by (bit_vector)
    requires
        bit < 8,
        other < 8,
    ensures
        bit_is_set(with_bit(b, bit, v), bit) == v,
        other != bit ==> bit_is_set(with_bit(b, bit, v), other) == bit_is_set(b, other),
{
}

/// Writing an 8-bit register and reading a register back gives the written
/// value for that register and the old value for every other one.
pub proof fn law_r8_read_after_write(s: MachineState, r: R8, v: u8, q: R8)
    requires
        s.wf(),
    ensures
        s.with_r8(r, v).r8(q) == (if q == r {
            v
        } else {
            s.r8(q)
        }),
{
}

/// Writing a register pair (or `SP`) and reading it back gives the written
/// value; the 8-bit registers outside the pair keep their values.
pub proof fn law_r16_read_after_write(s: MachineState, p: R16, v: u16, q: R8)
    requires
        s.wf(),
    ensures
        s.with_r16(p, v).r16(p) == v,
        !pair_holds(p, q) ==> s.with_r16(p, v).r8(q) == s.r8(q),
{
}

/// Whether the 8-bit register `q` is one half of the pair `p`.
pub open spec fn pair_holds(p: R16, q: R8) -> bool {
    match p {
        R16::BC => q == R8::B || q == R8::C,
        R16::DE => q == R8::D || q == R8::E,
        R16::HL => q == R8::H || q == R8::L,
        R16::AF => q == R8::A || q == R8::F,
        R16::SP => false,
    }
}

/// Assigning a flag and reading a flag back gives the assigned value for that
/// flag and the old value for every other flag; no register but `F` changes.
pub proof fn law_flag_read_after_write(s: MachineState, f: Flag, v: bool, g: Flag, q: R8)
    requires
        s.wf(),
    ensures
        s.with_flag(f, v).flag(g) == (if g == f {
            v
        } else {
            s.flag(g)
        }),
        q != R8::F ==> s.with_flag(f, v).r8(q) == s.r8(q),
{
    lemma_with_bit(s.r8(R8::F), f.spec_bit(), v, g.spec_bit());
}

/// Writing a byte of memory and reading a byte back gives the written value at
/// that address and the old value everywhere else.
pub proof fn law_mem8_read_after_write(s: MachineState, addr: u16, v: u8, other: u16)
    requires
        s.wf(),
    ensures
        s.with_mem8(addr, v).mem8(other) == (if other == addr {
            v
        } else {
            s.mem8(other)
        }),
{
}

/// Writing a word of memory and reading it back at the same address gives the
/// written value.
pub proof fn law_mem16_read_after_write(s: MachineState, addr: u16, v: u16)
    requires
        s.wf(),
        addr < 0xFFFF,
    ensures
        s.with_mem16(addr, v).mem16(addr) == v,
{
}

/// `PUSH` followed by `POP` moves the pushed value into the popped register
/// and gives the stack pointer back its value, provided the pop targets a
/// register pair (not `SP`).
pub proof fn law_push_then_pop(s: MachineState, src: R16, dest: R16)
    requires
        s.wf(),
        can_execute(s, Instruction::Push { src }),
        s.pc + 2 <= 0xFFFF,
        dest != R16::SP,
    ensures
        can_execute(step(s, Instruction::Push { src }), Instruction::Pop { dest }),
        step(step(s, Instruction::Push { src }), Instruction::Pop { dest }).r16(dest) == s.r16(
            src,
        ),
        step(step(s, Instruction::Push { src }), Instruction::Pop { dest }).sp == s.sp,
        step(step(s, Instruction::Push { src }), Instruction::Pop { dest }).pc == s.pc + 2,
{
    let s1 = step(s, Instruction::Push { src });
    assert(s1.mem16((s1.sp + 1) as u16) == s.r16(src));
}

/// `INC` of a 16-bit register followed by `DEC` of the same register leaves
/// every register and memory as they were, for every starting value (0xFFFF
/// wraps to 0 and back).
pub proof fn law_inc16_then_dec16(s: MachineState, r: R16)
    requires
        s.wf(),
        s.pc + 2 <= 0xFFFF,
    ensures
        can_execute(s, Instruction::Inc16 { src: r }),
        can_execute(step(s, Instruction::Inc16 { src: r }), Instruction::Dec16 { src: r }),
        step(step(s, Instruction::Inc16 { src: r }), Instruction::Dec16 { src: r }) == s.advance(
            2,
        ),
{
    let s1 = step(s, Instruction::Inc16 { src: r });
    let s2 = step(s1, Instruction::Dec16 { src: r });
    assert(s1.r16(r) == (s.r16(r) + 1) % 65536);
    assert(s2.r16(r) == s.r16(r));
    assert(s2.regs =~= s.regs);
}

/// Every instruction takes one, two or three bytes.
pub proof fn law_instruction_length_bounds(op: u8)
    ensures
        1 <= instruction_length(op) <= 3,
{
}

/// Every opcode but the eleven unknown ones decodes when the two bytes after
/// it are present, and every 0xCB-prefixed opcode decodes.
pub proof fn law_decode_is_total(op: u8, b1: u8, b2: u8)
    ensures
        decoded(seq![op, b1, b2]) is Ok <==> !is_unknown_opcode(op),
        decoded(seq![0xCBu8, b1]) == Ok::<Instruction, DecodeError>(prefixed_instruction(b1)),
{
    law_instruction_length_bounds(op);
}

/// The instruction of a known opcode does not depend on bytes past its
/// length.
pub proof fn law_instruction_reads_only_its_bytes(op: u8, b1: u8, b2: u8, c1: u8, c2: u8)
    requires
        !is_unknown_opcode(op),
    ensures
        instruction_length(op) == 1 ==> instruction_of(op, b1, b2) == instruction_of(op, c1, c2),
        instruction_length(op) == 2 ==> instruction_of(op, b1, b2) == instruction_of(op, b1, c2),
{
}

/// Decoding reads nothing past the end of the instruction: a byte sequence
/// and any longer sequence that starts with the whole instruction decode
/// alike.
pub proof fn law_decode_ignores_trailing_bytes(memory: Seq<u8>, k: int)
    requires
        memory.len() > 0,
        instruction_length(memory[0]) <= k <= memory.len(),
    ensures
        decoded(memory.take(k)) == decoded(memory),
{
    if !is_unknown_opcode(memory[0]) {
        law_instruction_reads_only_its_bytes(
        memory[0],
        memory[1],
        memory[2],
        memory.take(k)[1],
        memory.take(k)[2],
    );
    }
}

/// When a decoded instruction is executed, the program counter moves past all
/// of its bytes, except for `LD r,n`, `LDH A,(n)` and `LDH (n),A`, which
/// move it by one byte only.
pub proof fn law_exec_skips_decoded_bytes(memory: Seq<u8>, ins: Instruction)
    requires
        decoded(memory) == Ok::<Instruction, DecodeError>(ins),
        is_executable(ins),
        !(ins is LoadImm8),
        !(ins is LoadAccDirect8),
        !(ins is StoreAccDirect8),
    ensures
        pc_increment(ins) == instruction_length(memory[0]),
{
}

/// `LD r,r'` built from the encodings of two registers other than `F`
/// decodes back to the load between those registers.
pub proof fn law_decode_inverts_load_encoding(src: R8, dest: R8)
    requires
        src != R8::F,
        dest != R8::F,
    ensures
        decoded(seq![(0x40 + 8 * dest.spec_code() + src.spec_code()) as u8]) == Ok::<
            Instruction,
            DecodeError,
        >(Instruction::LoadReg8 { src, dest }),
{
    let op = (0x40 + 8 * dest.spec_code() + src.spec_code()) as u8;
    assert(op_x(op) == 1 && op_y(op) == dest.spec_code() && op_z(op) == src.spec_code());
    assert(instruction_of(op, 0, 0) == block1_instruction(op));
}

/// `LD r,n`, `INC r` and `ADD A,r` built from the encoding of a register
/// other than `F` decode back to that register.
pub proof fn law_decode_inverts_register_encoding(r: R8, imm: u8)
    requires
        r != R8::F,
    ensures
        decoded(seq![(0x06 + 8 * r.spec_code()) as u8, imm]) == Ok::<Instruction, DecodeError>(
            Instruction::LoadImm8 { dest: r, imm },
        ),
        decoded(seq![(0x04 + 8 * r.spec_code()) as u8]) == Ok::<Instruction, DecodeError>(
            Instruction::Inc8 { src: r },
        ),
        decoded(seq![(0x80 + r.spec_code()) as u8]) == Ok::<Instruction, DecodeError>(
            Instruction::Add8 { src: r },
        ),
{
    match r {
        R8::B => {},
        R8::C => {},
        R8::D => {},
        R8::E => {},
        R8::H => {},
        R8::L => {},
        _ => {},
    }
}

/// `LD rr,nn`, `PUSH rr` and `POP rr` built from the encoding of a register
/// pair decode back to that pair (`SP` for the load, `AF` for the stack).
pub proof fn law_decode_inverts_pair_encoding(pair: R16, lo: u8, hi: u8)
    ensures
        pair != R16::AF ==> decoded(seq![(0x01 + 16 * pair.spec_code()) as u8, lo, hi]) == Ok::<
            Instruction,
            DecodeError,
        >(Instruction::LoadImm16 { dest: pair, imm: (lo + 256 * hi) as u16 }),
        pair != R16::SP ==> decoded(seq![(0xC5 + 16 * pair.spec_code()) as u8]) == Ok::<
            Instruction,
            DecodeError,
        >(Instruction::Push { src: pair }),
        pair != R16::SP ==> decoded(seq![(0xC1 + 16 * pair.spec_code()) as u8]) == Ok::<
            Instruction,
            DecodeError,
        >(Instruction::Pop { dest: pair }),
{
    match pair {
        R16::BC => {},
        R16::DE => {},
        R16::HL => {},
        R16::AF => {},
        R16::SP => {},
    }
}

/// A 0xCB-prefixed opcode built from a register encoding and a bit number
/// decodes back to `BIT`, `RES` or `SET` on that register and bit; one built
/// from a register encoding alone decodes back to `SWAP` on that register.
pub proof fn law_decode_inverts_bit_encoding(src: R8, bit: u8)
    requires
        src != R8::F,
        bit < 8,
    ensures
        decoded(seq![0xCBu8, (0x40 + 8 * bit + src.spec_code()) as u8]) == Ok::<
            Instruction,
            DecodeError,
        >(Instruction::BIT { src, bit }),
        decoded(seq![0xCBu8, (0x80 + 8 * bit + src.spec_code()) as u8]) == Ok::<
            Instruction,
            DecodeError,
        >(Instruction::RES { src, bit }),
        decoded(seq![0xCBu8, (0xC0 + 8 * bit + src.spec_code()) as u8]) == Ok::<
            Instruction,
            DecodeError,
        >(Instruction::SET { src, bit }),
        decoded(seq![0xCBu8, (0x30 + src.spec_code()) as u8]) == Ok::<Instruction, DecodeError>(
            Instruction::Swap { src },
        ),
{
}

/// A conditional return, jump or relative jump built from a condition's
/// encoding decodes back to that condition.
pub proof fn law_decode_inverts_condition_encoding(cond: Cond, lo: u8, hi: u8)
    ensures
        decoded(seq![(0xC0 + 8 * cond.spec_code()) as u8]) == Ok::<Instruction, DecodeError>(
            Instruction::RetCC { cond },
        ),
        decoded(seq![(0xC2 + 8 * cond.spec_code()) as u8, lo, hi]) == Ok::<Instruction, DecodeError>(
            Instruction::JPCC { cond, addr: (lo + 256 * hi) as u16 },
        ),
        decoded(seq![(0x20 + 8 * cond.spec_code()) as u8, lo]) == Ok::<Instruction, DecodeError>(
            Instruction::JRCC { cond, offset: lo as i8 },
        ),
{
    match cond {
        Cond::NZ => {},
        Cond::Z => {},
        Cond::NCARRY => {},
        Cond::CARRY => {},
    }
}

/// Every instruction keeps the register file at eight bytes and memory at
/// 65536 bytes.
pub proof fn law_step_keeps_shape(s: MachineState, ins: Instruction)
    requires
        s.wf(),
    ensures
        step(s, ins).wf(),
{
    match ins {
        Instruction::LoadReg8 { .. } => {},
        Instruction::LoadImm8 { .. } => {},
        Instruction::LoadIndirectHL { .. } => {},
        Instruction::StoreIndirectHL { .. } => {},
        Instruction::StoreImmIndirectHL { .. } => {},
        Instruction::LoadAccIndirectBC => {},
        Instruction::LoadAccIndirectDE => {},
        Instruction::StoreAccIndirectBC => {},
        Instruction::StoreAccIndirectDE => {},
        Instruction::LoadAcc16 { .. } => {},
        Instruction::StoreAcc16 { .. } => {},
        Instruction::LoadAccIndirectC => {},
        Instruction::StoreAccIndirectC => {},
        Instruction::LoadAccDirect8 { .. } => {},
        Instruction::StoreAccDirect8 { .. } => {},
        Instruction::LoadAccIndirectHLDec => {},
        Instruction::StoreAccIndirectHLDec => {},
        Instruction::LoadAccIndirectHLInc => {},
        Instruction::StoreAccIndirectHLInc => {},
        Instruction::LoadImm16 { .. } => {},
        Instruction::StoreSP16 { .. } => {},
        Instruction::LoadSPHL => {},
        Instruction::Push { .. } => {},
        Instruction::Pop { .. } => {},
        Instruction::LoadHLSPOffset { .. } => {},
        Instruction::Add8 { .. } => {},
        Instruction::Add8IndirectHL => {},
        Instruction::AddImm8 { .. } => {},
        Instruction::AddC8 { .. } => {},
        Instruction::AddC8IndirectHL => {},
        Instruction::AddCImm8 { .. } => {},
        Instruction::Sub8 { .. } => {},
        Instruction::Sub8IndirectHL => {},
        Instruction::SubImm8 { .. } => {},
        Instruction::SubC8 { .. } => {},
        Instruction::SubC8IndirectHL => {},
        Instruction::SubCImm8 { .. } => {},
        Instruction::Cmp8 { .. } => {},
        Instruction::Cmp8IndirectHL => {},
        Instruction::CmpImm8 { .. } => {},
        Instruction::Inc8 { .. } => {},
        Instruction::Inc8IndirectHL => {},
        Instruction::Dec8 { .. } => {},
        Instruction::Dec8IndirectHL => {},
        Instruction::And8 { .. } => {},
        Instruction::And8IndirectHL => {},
        Instruction::AndImm8 { .. } => {},
        Instruction::Or8 { .. } => {},
        Instruction::Or8IndirectHL => {},
        Instruction::OrImm8 { .. } => {},
        Instruction::Xor8 { .. } => {},
        Instruction::Xor8IndirectHL => {},
        Instruction::XorImm8 { .. } => {},
        Instruction::CmplCarryFlag => {},
        Instruction::SetCarryFlag => {},
        Instruction::DecAdjAcc => {},
        Instruction::CmplAcc => {},
        Instruction::Inc16 { .. } => {},
        Instruction::Dec16 { .. } => {},
        Instruction::Add16HL { .. } => {},
        Instruction::AddSPImm8 { .. } => {},
        Instruction::RLCA => {},
        Instruction::RRCA => {},
        Instruction::RLA => {},
        Instruction::RRA => {},
        Instruction::RLC { .. } => {},
        Instruction::RLCIndirectHL => {},
        Instruction::RRC { .. } => {},
        Instruction::RRCIndirectHL => {},
        Instruction::RL { .. } => {},
        Instruction::RLIndirectHL => {},
        Instruction::RR { .. } => {},
        Instruction::RRIndirectHL => {},
        Instruction::SLA { .. } => {},
        Instruction::SLAIndirectHL => {},
        Instruction::SRA { .. } => {},
        Instruction::SRAIndirectHL => {},
        Instruction::Swap { .. } => {},
        Instruction::SwapIndirectHL => {},
        Instruction::SRL { .. } => {},
        Instruction::SRLIndirectHL => {},
        Instruction::BIT { .. } => {},
        Instruction::BITIndirectHL { .. } => {},
        Instruction::RES { .. } => {},
        Instruction::RESIndirectHL { .. } => {},
        Instruction::SET { .. } => {},
        Instruction::SETIndirectHL { .. } => {},
        Instruction::JP { .. } => {},
        Instruction::JPHL => {},
        Instruction::JPCC { .. } => {},
        Instruction::JR { .. } => {},
        Instruction::JRCC { .. } => {},
        Instruction::Call { .. } => {},
        Instruction::CallCC { .. } => {},
        Instruction::Ret => {},
        Instruction::RetCC { .. } => {},
        Instruction::RetI => {},
        Instruction::RST { .. } => {},
        Instruction::Halt => {},
        Instruction::Stop { .. } => {},
        Instruction::DI => {},
        Instruction::EI => {},
        Instruction::NOP => {},
    }
}

} // verus!
