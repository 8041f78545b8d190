//! What single instructions compute, stated as arithmetic on the values they
//! read: sums and carries of the 8-bit and 16-bit arithmetic, the bitwise
//! operations bit by bit, decimal adjustment, the value each rotate, shift
//! and swap leaves, the bit instructions, the loads, stores, pushes and pops
//! with where they read and write, and how `HL` moves in the auto-increment
//! and auto-decrement forms; and how the opcodes name their operations and
//! operands, signed offsets among them.

use crate::instruction::{decoded, DecodeError, Instruction};
use crate::laws::{law_flag_read_after_write, law_r16_read_after_write, pair_holds};
use crate::registers::{Cond, Flag, R16, R8};
use crate::semantics::{
    alu_effect, alu_outcome, daa_effect, daa_value, shift_mem_effect, shift_outcome, shift_reg_effect, step, AluOp,
    ShiftOp,
};
use crate::state::{bit_is_set, with_bit, MachineState};
use vstd::prelude::*;

verus! {

/// The signed value of the byte `b` read as two's complement.
pub open spec fn signed_value(b: u8) -> int {
    if b < 128 {
        b as int
    } else {
        b - 256
    }
}

/// `b as i8` is the two's-complement reading of `b`.
proof fn lemma_as_i8(b: u8)
    ensures
        (b as i8) as int == signed_value(b),
{
    assert(((b as i8) as i16) == (if b < 128u8 {
        b as i16
    } else {
        ((b as i16) - 256i16) as i16
    })) by (bit_vector);
}

/// Reading the flags back after all four were assigned; nothing but `F`
/// changes.
proof fn lemma_read_flags(s: MachineState, z: bool, n: bool, h: bool, c: bool)
    requires
        s.wf(),
    ensures
        s.with_flags(z, n, h, c).flag(Flag::Zero) == z,
        s.with_flags(z, n, h, c).flag(Flag::SubBCD) == n,
        s.with_flags(z, n, h, c).flag(Flag::HalfCarryBCD) == h,
        s.with_flags(z, n, h, c).flag(Flag::Carry) == c,
        s.with_flags(z, n, h, c).wf(),
        s.with_flags(z, n, h, c).pc == s.pc,
        s.with_flags(z, n, h, c).sp == s.sp,
        s.with_flags(z, n, h, c).mem == s.mem,
        forall|q: R8| q != R8::F ==> #[trigger] s.with_flags(z, n, h, c).r8(q) == s.r8(q),
{
    let s1 = s.with_flag(Flag::Zero, z);
    let s2 = s1.with_flag(Flag::SubBCD, n);
    let s3 = s2.with_flag(Flag::HalfCarryBCD, h);
    assert forall|g: Flag| #[trigger] s.with_flags(z, n, h, c).flag(g) == (if g == Flag::Carry {
        c
    } else if g == Flag::HalfCarryBCD {
        h
    } else if g == Flag::SubBCD {
        n
    } else {
        z
    }) by {
        law_flag_read_after_write(s, Flag::Zero, z, g, R8::A);
        law_flag_read_after_write(s1, Flag::SubBCD, n, g, R8::A);
        law_flag_read_after_write(s2, Flag::HalfCarryBCD, h, g, R8::A);
        law_flag_read_after_write(s3, Flag::Carry, c, g, R8::A);
    }
    assert(s.with_flags(z, n, h, c).flag(Flag::Zero) == z);
    assert(s.with_flags(z, n, h, c).flag(Flag::SubBCD) == n);
    assert(s.with_flags(z, n, h, c).flag(Flag::HalfCarryBCD) == h);
    assert(s.with_flags(z, n, h, c).flag(Flag::Carry) == c);
    assert forall|q: R8| q != R8::F implies #[trigger] s.with_flags(z, n, h, c).r8(q) == s.r8(
        q,
    ) by {
        law_flag_read_after_write(s, Flag::Zero, z, Flag::Zero, q);
        law_flag_read_after_write(s1, Flag::SubBCD, n, Flag::Zero, q);
        law_flag_read_after_write(s2, Flag::HalfCarryBCD, h, Flag::Zero, q);
        law_flag_read_after_write(s3, Flag::Carry, c, Flag::Zero, q);
    }
}

/// `after` is `before` with `y + c` added to `A`: the sum modulo 256 in `A`,
/// zero when that sum is zero, subtract clear, half carry when the low
/// nibbles and `c` pass 15, carry when the whole sum passes 255; the
/// program counter has moved by `len` and nothing else has changed.
pub open spec fn adds_to_a(before: MachineState, after: MachineState, y: u8, c: int, len: int) -> bool {
    let a = before.r8(R8::A);
    &&& after.r8(R8::A) == (a + y + c) % 256
    &&& after.flag(Flag::Zero) == ((a + y + c) % 256 == 0)
    &&& !after.flag(Flag::SubBCD)
    &&& after.flag(Flag::HalfCarryBCD) == (a % 16 + y % 16 + c > 15)
    &&& after.flag(Flag::Carry) == (a + y + c > 255)
    &&& after.pc == before.pc + len
    &&& after.sp == before.sp
    &&& after.mem == before.mem
    &&& forall|q: R8| q != R8::A && q != R8::F ==> #[trigger] after.r8(q) == before.r8(q)
}

/// `after` is `before` with `y + c` taken from `A` (kept in `A` when `store`,
/// as for `SUB` and `SBC`; dropped for `CP`): zero when the difference
/// modulo 256 is zero, subtract set, half carry when the low nibble of `A` is
/// below that of `y` plus `c`, carry when `A` is below `y + c`; the program
/// counter has moved by `len` and nothing else has changed.
pub open spec fn subtracts_from_a(
    before: MachineState,
    after: MachineState,
    y: u8,
    c: int,
    len: int,
    store: bool,
) -> bool {
    let a = before.r8(R8::A);
    &&& after.r8(R8::A) == (if store {
        (a - y - c + 512) % 256
    } else {
        a as int
    })
    &&& after.flag(Flag::Zero) == ((a - y - c + 512) % 256 == 0)
    &&& after.flag(Flag::SubBCD)
    &&& after.flag(Flag::HalfCarryBCD) == (a % 16 < y % 16 + c)
    &&& after.flag(Flag::Carry) == (a < y + c)
    &&& after.pc == before.pc + len
    &&& after.sp == before.sp
    &&& after.mem == before.mem
    &&& forall|q: R8| q != R8::A && q != R8::F ==> #[trigger] after.r8(q) == before.r8(q)
}

/// The carry flag as the number 0 or 1.
pub open spec fn carry_in(s: MachineState) -> int {
    if s.flag(Flag::Carry) {
        1
    } else {
        0
    }
}

/// The accumulator operation `op` with operand `y`, before the program
/// counter moves, read back as arithmetic.
#[verifier::spinoff_prover]
proof fn lemma_alu(s: MachineState, op: AluOp, y: u8)
    requires
        s.wf(),
    ensures
        op == AluOp::Add ==> adds_to_a(s, alu_effect(s, op, y), y, 0, 0),
        op == AluOp::AddCarry ==> adds_to_a(s, alu_effect(s, op, y), y, carry_in(s), 0),
        op == AluOp::Sub ==> subtracts_from_a(s, alu_effect(s, op, y), y, 0, 0, true),
        op == AluOp::SubCarry ==> subtracts_from_a(
            s,
            alu_effect(s, op, y),
            y,
            carry_in(s),
            0,
            true,
        ),
        op == AluOp::Cmp ==> subtracts_from_a(s, alu_effect(s, op, y), y, 0, 0, false),
{
    let a = s.r8(R8::A);
    let cf = s.flag(Flag::Carry);
    let (r, z, n, h, c) = alu_outcome(op, a, y, cf);
    match op {
        AluOp::Add => {
            lemma_read_flags(s.with_r8(R8::A, r), z, n, h, c);
        },
        AluOp::AddCarry => {
            lemma_read_flags(s.with_r8(R8::A, r), z, n, h, c);
        },
        AluOp::Sub => {
            assert((a - y) % 256 == (a - y + 512) % 256);
            lemma_read_flags(s.with_r8(R8::A, r), z, n, h, c);
        },
        AluOp::SubCarry => {
            assert((a - y - carry_in(s)) % 256 == (a - y - carry_in(s) + 512) % 256);
            lemma_read_flags(s.with_r8(R8::A, r), z, n, h, c);
        },
        AluOp::Cmp => {
            assert((a - y) % 256 == (a - y + 512) % 256);
            lemma_read_flags(s, z, n, h, c);
        },
        _ => {},
    }
}

/// `ADD` in all its operand forms adds the operand to `A` and sets carry
/// exactly when the sum passes 255.
pub proof fn law_add(s: MachineState, src: R8, imm: u8)
    requires
        s.wf(),
        s.pc + 2 <= 0xFFFF,
    ensures
        adds_to_a(s, step(s, Instruction::Add8 { src }), s.r8(src), 0, 1),
        adds_to_a(s, step(s, Instruction::Add8IndirectHL), s.mem8(s.r16(R16::HL)), 0, 1),
        adds_to_a(s, step(s, Instruction::AddImm8 { imm }), imm, 0, 2),
{
    lemma_alu(s, AluOp::Add, s.r8(src));
    lemma_alu(s, AluOp::Add, s.mem8(s.r16(R16::HL)));
    lemma_alu(s, AluOp::Add, imm);
}

/// `ADC` in all its operand forms adds the operand and the carry flag to `A`
/// and sets carry exactly when the sum passes 255.
pub proof fn law_add_with_carry(s: MachineState, src: R8, imm: u8)
    requires
        s.wf(),
        s.pc + 2 <= 0xFFFF,
    ensures
        adds_to_a(s, step(s, Instruction::AddC8 { src }), s.r8(src), carry_in(s), 1),
        adds_to_a(
            s,
            step(s, Instruction::AddC8IndirectHL),
            s.mem8(s.r16(R16::HL)),
            carry_in(s),
            1,
        ),
        adds_to_a(s, step(s, Instruction::AddCImm8 { imm }), imm, carry_in(s), 2),
{
    lemma_alu(s, AluOp::AddCarry, s.r8(src));
    lemma_alu(s, AluOp::AddCarry, s.mem8(s.r16(R16::HL)));
    lemma_alu(s, AluOp::AddCarry, imm);
}

/// `SUB` in all its operand forms takes the operand from `A` and sets carry
/// exactly when `A` is below the operand.
pub proof fn law_sub(s: MachineState, src: R8, imm: u8)
    requires
        s.wf(),
        s.pc + 2 <= 0xFFFF,
    ensures
        subtracts_from_a(s, step(s, Instruction::Sub8 { src }), s.r8(src), 0, 1, true),
        subtracts_from_a(
            s,
            step(s, Instruction::Sub8IndirectHL),
            s.mem8(s.r16(R16::HL)),
            0,
            1,
            true,
        ),
        subtracts_from_a(s, step(s, Instruction::SubImm8 { imm }), imm, 0, 2, true),
{
    lemma_alu(s, AluOp::Sub, s.r8(src));
    lemma_alu(s, AluOp::Sub, s.mem8(s.r16(R16::HL)));
    lemma_alu(s, AluOp::Sub, imm);
}

/// `SBC` in all its operand forms takes the operand and the carry flag from
/// `A` and sets carry exactly when `A` is below their sum.
pub proof fn law_sub_with_carry(s: MachineState, src: R8, imm: u8)
    requires
        s.wf(),
        s.pc + 2 <= 0xFFFF,
    ensures
        subtracts_from_a(
            s,
            step(s, Instruction::SubC8 { src }),
            s.r8(src),
            carry_in(s),
            1,
            true,
        ),
        subtracts_from_a(
            s,
            step(s, Instruction::SubC8IndirectHL),
            s.mem8(s.r16(R16::HL)),
            carry_in(s),
            1,
            true,
        ),
        subtracts_from_a(s, step(s, Instruction::SubCImm8 { imm }), imm, carry_in(s), 2, true),
{
    lemma_alu(s, AluOp::SubCarry, s.r8(src));
    lemma_alu(s, AluOp::SubCarry, s.mem8(s.r16(R16::HL)));
    lemma_alu(s, AluOp::SubCarry, imm);
}

/// `CP` in all its operand forms sets the flags of `A` minus the operand and
/// leaves `A` as it was.
pub proof fn law_compare(s: MachineState, src: R8, imm: u8)
    requires
        s.wf(),
        s.pc + 2 <= 0xFFFF,
    ensures
        subtracts_from_a(s, step(s, Instruction::Cmp8 { src }), s.r8(src), 0, 1, false),
        subtracts_from_a(
            s,
            step(s, Instruction::Cmp8IndirectHL),
            s.mem8(s.r16(R16::HL)),
            0,
            1,
            false,
        ),
        subtracts_from_a(s, step(s, Instruction::CmpImm8 { imm }), imm, 0, 2, false),
{
    lemma_alu(s, AluOp::Cmp, s.r8(src));
    lemma_alu(s, AluOp::Cmp, s.mem8(s.r16(R16::HL)));
    lemma_alu(s, AluOp::Cmp, imm);
}

/// What `DAA` leaves in the flags, read back: zero, half carry and carry as
/// assigned, subtract as it was, and no register but `A` and `F` changed.
proof fn lemma_daa_flags(s: MachineState)
    requires
        s.wf(),
    ensures
        daa_effect(s).flag(Flag::Zero) == (daa_effect(s).r8(R8::A) == 0),
        !daa_effect(s).flag(Flag::HalfCarryBCD),
        daa_effect(s).flag(Flag::Carry) == (daa_effect(s).r8(R8::A) > 0x99 || s.flag(
            Flag::Carry,
        )),
        daa_effect(s).flag(Flag::SubBCD) == s.flag(Flag::SubBCD),
        daa_effect(s).r8(R8::A) == daa_value(
            s.r8(R8::A),
            s.flag(Flag::SubBCD),
            s.flag(Flag::HalfCarryBCD),
            s.flag(Flag::Carry),
        ),
{
    let c = s.flag(Flag::Carry);
    let v = daa_value(s.r8(R8::A), s.flag(Flag::SubBCD), s.flag(Flag::HalfCarryBCD), c);
    let s0 = s.with_r8(R8::A, v);
    let s1 = s0.with_flag(Flag::Zero, v == 0);
    let s2 = s1.with_flag(Flag::HalfCarryBCD, false);
    assert forall|g: Flag| #[trigger] daa_effect(s).flag(g) == (if g == Flag::Carry {
        v > 0x99 || c
    } else if g == Flag::HalfCarryBCD {
        false
    } else if g == Flag::Zero {
        v == 0
    } else {
        s.flag(g)
    }) by {
        law_flag_read_after_write(s0, Flag::Zero, v == 0, g, R8::A);
        law_flag_read_after_write(s1, Flag::HalfCarryBCD, false, g, R8::A);
        law_flag_read_after_write(s2, Flag::Carry, v > 0x99 || c, g, R8::A);
    }
    assert(daa_effect(s).flag(Flag::Zero) == (v == 0));
    assert(daa_effect(s).flag(Flag::HalfCarryBCD) == false);
    assert(daa_effect(s).flag(Flag::Carry) == (v > 0x99 || c));
    assert(daa_effect(s).flag(Flag::SubBCD) == s.flag(Flag::SubBCD));
    law_flag_read_after_write(s0, Flag::Zero, v == 0, Flag::Zero, R8::A);
    law_flag_read_after_write(s1, Flag::HalfCarryBCD, false, Flag::Zero, R8::A);
    law_flag_read_after_write(s2, Flag::Carry, v > 0x99 || c, Flag::Zero, R8::A);
}

/// After an addition that left no half carry and no carry, `DAA` leaves
/// alone every accumulator whose low nibble is at most 9 and whose value is
/// at most 0x90 (a low nibble of 9 is not adjusted): `A`, subtract, half
/// carry and carry end up clear or as they were, and zero tells whether `A`
/// is zero. (From 0x91 to 0x99 the adjustment adds 0x60.)
pub proof fn law_daa_keeps_bcd_after_add(s: MachineState)
    requires
        s.wf(),
        s.pc < 0xFFFF,
        !s.flag(Flag::SubBCD),
        !s.flag(Flag::HalfCarryBCD),
        !s.flag(Flag::Carry),
        s.r8(R8::A) % 16 <= 9,
        s.r8(R8::A) <= 0x90,
    ensures
        step(s, Instruction::DecAdjAcc).r8(R8::A) == s.r8(R8::A),
        step(s, Instruction::DecAdjAcc).flag(Flag::Zero) == (s.r8(R8::A) == 0),
        !step(s, Instruction::DecAdjAcc).flag(Flag::SubBCD),
        !step(s, Instruction::DecAdjAcc).flag(Flag::HalfCarryBCD),
        !step(s, Instruction::DecAdjAcc).flag(Flag::Carry),
        step(s, Instruction::DecAdjAcc).pc == s.pc + 1,
{
    lemma_daa_flags(s);
}

/// After an addition that left no half carry and no carry, `DAA` adds 6 to
/// an accumulator from 0x00 to 0x8A whose low nibble is above 9, carrying
/// the low digit into the high one.
pub proof fn law_daa_fixes_low_digit_after_add(s: MachineState)
    requires
        s.wf(),
        s.pc < 0xFFFF,
        !s.flag(Flag::SubBCD),
        !s.flag(Flag::HalfCarryBCD),
        !s.flag(Flag::Carry),
        s.r8(R8::A) % 16 > 9,
        s.r8(R8::A) <= 0x8A,
    ensures
        step(s, Instruction::DecAdjAcc).r8(R8::A) == s.r8(R8::A) + 6,
        !step(s, Instruction::DecAdjAcc).flag(Flag::Zero),
        !step(s, Instruction::DecAdjAcc).flag(Flag::Carry),
{
    lemma_daa_flags(s);
}

/// After a subtraction that borrowed neither from the high nor from the low
/// nibble, `DAA` leaves `A` as it was, keeps subtract set, clears half
/// carry, and sets carry exactly when `A` is above 0x99.
pub proof fn law_daa_keeps_a_after_subtract_without_borrow(s: MachineState)
    requires
        s.wf(),
        s.pc < 0xFFFF,
        s.flag(Flag::SubBCD),
        !s.flag(Flag::HalfCarryBCD),
        !s.flag(Flag::Carry),
    ensures
        step(s, Instruction::DecAdjAcc).r8(R8::A) == s.r8(R8::A),
        step(s, Instruction::DecAdjAcc).flag(Flag::SubBCD),
        !step(s, Instruction::DecAdjAcc).flag(Flag::HalfCarryBCD),
        step(s, Instruction::DecAdjAcc).flag(Flag::Carry) == (s.r8(R8::A) > 0x99),
{
    lemma_daa_flags(s);
}

/// The half carry flag as the number 0 or 1.
pub open spec fn half_carry_in(s: MachineState) -> int {
    if s.flag(Flag::HalfCarryBCD) {
        1
    } else {
        0
    }
}

/// After an addition that left `A` with a low digit of at most 9 and a value
/// of at most 0x90, `DAA` adds 6 for a half carry and 0x60 for a carry,
/// modulo 256; carry stays set when it was, and is set when the result
/// passes 0x99.
pub proof fn law_daa_after_add(s: MachineState)
    requires
        s.wf(),
        s.pc < 0xFFFF,
        !s.flag(Flag::SubBCD),
        s.r8(R8::A) % 16 <= 9,
        s.r8(R8::A) <= 0x90,
    ensures
        step(s, Instruction::DecAdjAcc).r8(R8::A) == (s.r8(R8::A) + 6 * half_carry_in(s) + 0x60
            * carry_in(s)) % 256,
        step(s, Instruction::DecAdjAcc).flag(Flag::Zero) == (step(s, Instruction::DecAdjAcc).r8(
            R8::A,
        ) == 0),
        !step(s, Instruction::DecAdjAcc).flag(Flag::HalfCarryBCD),
        step(s, Instruction::DecAdjAcc).flag(Flag::Carry) == (s.flag(Flag::Carry) || step(
            s,
            Instruction::DecAdjAcc,
        ).r8(R8::A) > 0x99),
{
    lemma_daa_flags(s);
}

/// After a subtraction, `DAA` takes 6 from `A` for a half borrow and 0x60 for
/// a borrow, modulo 256, and leaves subtract set; carry stays set when it
/// was, and is set when the result is above 0x99.
pub proof fn law_daa_after_subtract(s: MachineState)
    requires
        s.wf(),
        s.pc < 0xFFFF,
        s.flag(Flag::SubBCD),
    ensures
        step(s, Instruction::DecAdjAcc).r8(R8::A) == (s.r8(R8::A) - 6 * half_carry_in(s) - 0x60
            * carry_in(s) + 512) % 256,
        step(s, Instruction::DecAdjAcc).flag(Flag::Zero) == (step(s, Instruction::DecAdjAcc).r8(
            R8::A,
        ) == 0),
        step(s, Instruction::DecAdjAcc).flag(Flag::SubBCD),
        !step(s, Instruction::DecAdjAcc).flag(Flag::HalfCarryBCD),
        step(s, Instruction::DecAdjAcc).flag(Flag::Carry) == (s.flag(Flag::Carry) || step(
            s,
            Instruction::DecAdjAcc,
        ).r8(R8::A) > 0x99),
{
    lemma_daa_flags(s);
    let a = s.r8(R8::A) as int;
    assert((((a - 6) % 256) - 0x60) % 256 == (a - 6 - 0x60 + 512) % 256);
    assert((a - 6) % 256 == (a - 6 + 512) % 256);
    assert((a - 0x60) % 256 == (a - 0x60 + 512) % 256);
    assert(a % 256 == (a + 512) % 256);
}

/// Decoding an opcode whose operand is a signed offset reads the operand
/// byte `b` as two's complement: `ADD SP,e`, `LD HL,SP+e`, `JR e` and
/// `JR cc,e`.
pub proof fn law_decode_signed_offsets(b: u8, cond: Cond)
    ensures
        decoded(seq![0xE8u8, b]) matches Ok(Instruction::AddSPImm8 { imm }) && imm as int
            == signed_value(b),
        decoded(seq![0xF8u8, b]) matches Ok(Instruction::LoadHLSPOffset { offset }) && offset as int
            == signed_value(b),
        decoded(seq![0x18u8, b]) matches Ok(Instruction::JR { offset }) && offset as int
            == signed_value(b),
        decoded(seq![(0x20 + 8 * cond.spec_code()) as u8, b]) matches Ok(
            Instruction::JRCC { cond: c, offset },
        ) && c == cond && offset as int == signed_value(b),
{
    lemma_as_i8(b);
    crate::laws::law_decode_inverts_condition_encoding(cond, b, 0);
}

/// Decoding an opcode with an immediate byte or address takes the operand
/// bytes unchanged: the eight arithmetic/logic immediates, `LD (HL),n`,
/// `LDH (n),A`, `LDH A,(n)`, and the little-endian address of `JP`, `CALL`,
/// `LD (nn),A`, `LD A,(nn)` and `LD (nn),SP`.
pub proof fn law_decode_immediates(b: u8, hi: u8)
    ensures
        decoded(seq![0xC6u8, b]) == Ok::<Instruction, DecodeError>(Instruction::AddImm8 { imm: b }),
        decoded(seq![0xCEu8, b]) == Ok::<Instruction, DecodeError>(Instruction::AddCImm8 { imm: b }),
        decoded(seq![0xD6u8, b]) == Ok::<Instruction, DecodeError>(Instruction::SubImm8 { imm: b }),
        decoded(seq![0xDEu8, b]) == Ok::<Instruction, DecodeError>(Instruction::SubCImm8 { imm: b }),
        decoded(seq![0xE6u8, b]) == Ok::<Instruction, DecodeError>(Instruction::AndImm8 { imm: b }),
        decoded(seq![0xEEu8, b]) == Ok::<Instruction, DecodeError>(Instruction::XorImm8 { imm: b }),
        decoded(seq![0xF6u8, b]) == Ok::<Instruction, DecodeError>(Instruction::OrImm8 { imm: b }),
        decoded(seq![0xFEu8, b]) == Ok::<Instruction, DecodeError>(Instruction::CmpImm8 { imm: b }),
        decoded(seq![0x36u8, b]) == Ok::<Instruction, DecodeError>(
            Instruction::StoreImmIndirectHL { imm: b },
        ),
        decoded(seq![0xE0u8, b]) == Ok::<Instruction, DecodeError>(
            Instruction::StoreAccDirect8 { offset: b },
        ),
        decoded(seq![0xF0u8, b]) == Ok::<Instruction, DecodeError>(
            Instruction::LoadAccDirect8 { offset: b },
        ),
        decoded(seq![0xC3u8, b, hi]) == Ok::<Instruction, DecodeError>(
            Instruction::JP { addr: (b + 256 * hi) as u16 },
        ),
        decoded(seq![0xCDu8, b, hi]) == Ok::<Instruction, DecodeError>(
            Instruction::Call { addr: (b + 256 * hi) as u16 },
        ),
        decoded(seq![0xEAu8, b, hi]) == Ok::<Instruction, DecodeError>(
            Instruction::StoreAcc16 { addr: (b + 256 * hi) as u16 },
        ),
        decoded(seq![0xFAu8, b, hi]) == Ok::<Instruction, DecodeError>(
            Instruction::LoadAcc16 { addr: (b + 256 * hi) as u16 },
        ),
        decoded(seq![0x08u8, b, hi]) == Ok::<Instruction, DecodeError>(
            Instruction::StoreSP16 { addr: (b + 256 * hi) as u16 },
        ),
{
}

/// The rotates, shifts and swap of a byte as arithmetic, with `c` the bit
/// shifted in by the rotates through carry.
proof fn lemma_shift_bits(x: u8, c: u8)
    by (bit_vector)
    requires
        c <= 1u8,
    ensures
        ((x << 4u8) | (x >> 4u8)) as u16 == ((x as u16 % 16u16) * 16u16 + x as u16 / 16u16) as u16,
        (x & 0x80u8 == 0x80u8) == (x >= 128u8),
        (x & 0x01u8 == 0x01u8) == (x % 2u8 == 1u8),
        (x >> 1u8) as u16 == (x as u16 / 2u16) as u16,
        ((x >> 1u8) | (x & 0x80u8)) as u16 == (x as u16 / 2u16 + (x as u16 / 128u16) * 128u16) as u16,
        ((x << 1u8) as u16 + (x as u16 / 128u16) * 256u16) as u16 == (x as u16 * 2u16) as u16,
        ((x << 1u8) | (x >> 7u8)) as u16 == ((x << 1u8) as u16 + x as u16 / 128u16) as u16,
        ((x << 1u8) | c) as u16 == ((x << 1u8) as u16 + c as u16) as u16,
        ((x >> 1u8) | (c << 7u8)) as u16 == (x as u16 / 2u16 + c as u16 * 128u16) as u16,
        ((x >> 1u8) | (x << 7u8)) as u16 == (x as u16 / 2u16 + (x as u16 % 2u16) * 128u16) as u16,
{
}

/// The byte and carry that each rotate, shift and swap gives, as arithmetic
/// on the byte `x` and the carry flag `cf`.
proof fn lemma_shift_outcome(op: ShiftOp, x: u8, cf: bool)
    ensures
        ({
            let (v, c) = shift_outcome(op, x, cf);
            let cin: int = if cf { 1 } else { 0 };
            &&& op == ShiftOp::Rlc ==> v == (x * 2) % 256 + x / 128 && c == (x >= 128)
            &&& op == ShiftOp::Rrc ==> v == x / 2 + (x % 2) * 128 && c == (x % 2 == 1)
            &&& op == ShiftOp::Rl ==> v == (x * 2) % 256 + cin && c == (x >= 128)
            &&& op == ShiftOp::Rr ==> v == x / 2 + cin * 128 && c == (x % 2 == 1)
            &&& op == ShiftOp::Sla ==> v == (x * 2) % 256 && c == (x >= 128)
            &&& op == ShiftOp::Sra ==> v == x / 2 + (x / 128) * 128 && c == (x % 2 == 1)
            &&& op == ShiftOp::Swap ==> v == (x % 16) * 16 + x / 16 && !c
            &&& op == ShiftOp::Srl ==> v == x / 2 && c == (x % 2 == 1)
        }),
{
    let c: u8 = if cf { 1 } else { 0 };
    lemma_shift_bits(x, c);
}

/// `after` is `before` with register `r` holding `v` and the flags that a
/// 0xCB-prefixed rotate, shift or swap leaves: zero when `v` is zero,
/// subtract and half carry clear, carry `c`; the program counter has moved
/// past the two bytes of the instruction and nothing else has changed.
pub open spec fn shifts_register(before: MachineState, after: MachineState, r: R8, v: int, c: bool) -> bool {
    &&& after.r8(r) == v
    &&& after.flag(Flag::Zero) == (v == 0)
    &&& !after.flag(Flag::SubBCD)
    &&& !after.flag(Flag::HalfCarryBCD)
    &&& after.flag(Flag::Carry) == c
    &&& after.pc == before.pc + 2
    &&& after.sp == before.sp
    &&& after.mem == before.mem
    &&& forall|q: R8| q != r && q != R8::F ==> #[trigger] after.r8(q) == before.r8(q)
}

/// `after` is `before` with the byte at `HL` holding `v` and the flags that a
/// 0xCB-prefixed rotate, shift or swap leaves: zero when `v` is zero,
/// subtract and half carry clear, carry `c`; the program counter has moved
/// past the two bytes of the instruction and nothing else has changed.
pub open spec fn shifts_memory(before: MachineState, after: MachineState, v: int, c: bool) -> bool {
    let hl = before.r16(R16::HL);
    &&& after.mem8(hl) == v
    &&& after.flag(Flag::Zero) == (v == 0)
    &&& !after.flag(Flag::SubBCD)
    &&& !after.flag(Flag::HalfCarryBCD)
    &&& after.flag(Flag::Carry) == c
    &&& after.pc == before.pc + 2
    &&& after.sp == before.sp
    &&& forall|addr: u16| addr != hl ==> #[trigger] after.mem8(addr) == before.mem8(addr)
    &&& forall|q: R8| q != R8::F ==> #[trigger] after.r8(q) == before.r8(q)
}

/// A rotate, shift or swap of a register other than `F`, or of the byte at
/// `HL`, writes back the byte that `op` gives and sets the flags from it.
proof fn lemma_shift_effects(s: MachineState, op: ShiftOp, r: R8)
    requires
        s.wf(),
        s.pc + 2 <= 0xFFFF,
        r != R8::F,
    ensures
        ({
            let (v, c) = shift_outcome(op, s.r8(r), s.flag(Flag::Carry));
            shifts_register(s, shift_reg_effect(s, op, r).advance(2), r, v as int, c)
        }),
        ({
            let (v, c) = shift_outcome(op, s.mem8(s.r16(R16::HL)), s.flag(Flag::Carry));
            shifts_memory(s, shift_mem_effect(s, op).advance(2), v as int, c)
        }),
{
    let (v, c) = shift_outcome(op, s.r8(r), s.flag(Flag::Carry));
    lemma_read_flags(s.with_r8(r, v), v == 0, false, false, c);
    let hl = s.r16(R16::HL);
    let (w, d) = shift_outcome(op, s.mem8(hl), s.flag(Flag::Carry));
    lemma_read_flags(s.with_mem8(hl, w), w == 0, false, false, d);
}

/// `SWAP` exchanges the two nibbles of a register or of the byte at `HL`:
/// the low nibble becomes the high one and the high nibble the low one; carry
/// is cleared.
pub proof fn law_swap(s: MachineState, src: R8)
    requires
        s.wf(),
        s.pc + 2 <= 0xFFFF,
        src != R8::F,
    ensures
        shifts_register(
            s,
            step(s, Instruction::Swap { src }),
            src,
            (s.r8(src) % 16) * 16 + s.r8(src) / 16,
            false,
        ),
        shifts_memory(
            s,
            step(s, Instruction::SwapIndirectHL),
            (s.mem8(s.r16(R16::HL)) % 16) * 16 + s.mem8(s.r16(R16::HL)) / 16,
            false,
        ),
{
    lemma_shift_effects(s, ShiftOp::Swap, src);
    lemma_shift_outcome(ShiftOp::Swap, s.r8(src), s.flag(Flag::Carry));
    lemma_shift_outcome(ShiftOp::Swap, s.mem8(s.r16(R16::HL)), s.flag(Flag::Carry));
}

/// `RLC` doubles the byte modulo 256 and brings its top bit round to the
/// bottom; carry receives the top bit.
pub proof fn law_rotate_left_circular(s: MachineState, src: R8)
    requires
        s.wf(),
        s.pc + 2 <= 0xFFFF,
        src != R8::F,
    ensures
        shifts_register(
            s,
            step(s, Instruction::RLC { src }),
            src,
            (s.r8(src) * 2) % 256 + s.r8(src) / 128,
            s.r8(src) >= 128,
        ),
        shifts_memory(
            s,
            step(s, Instruction::RLCIndirectHL),
            (s.mem8(s.r16(R16::HL)) * 2) % 256 + s.mem8(s.r16(R16::HL)) / 128,
            s.mem8(s.r16(R16::HL)) >= 128,
        ),
{
    lemma_shift_effects(s, ShiftOp::Rlc, src);
    lemma_shift_outcome(ShiftOp::Rlc, s.r8(src), s.flag(Flag::Carry));
    lemma_shift_outcome(ShiftOp::Rlc, s.mem8(s.r16(R16::HL)), s.flag(Flag::Carry));
}

/// `RRC` halves the byte and brings its bottom bit round to the top; carry
/// receives the bottom bit.
pub proof fn law_rotate_right_circular(s: MachineState, src: R8)
    requires
        s.wf(),
        s.pc + 2 <= 0xFFFF,
        src != R8::F,
    ensures
        shifts_register(
            s,
            step(s, Instruction::RRC { src }),
            src,
            s.r8(src) / 2 + (s.r8(src) % 2) * 128,
            s.r8(src) % 2 == 1,
        ),
        shifts_memory(
            s,
            step(s, Instruction::RRCIndirectHL),
            s.mem8(s.r16(R16::HL)) / 2 + (s.mem8(s.r16(R16::HL)) % 2) * 128,
            s.mem8(s.r16(R16::HL)) % 2 == 1,
        ),
{
    lemma_shift_effects(s, ShiftOp::Rrc, src);
    lemma_shift_outcome(ShiftOp::Rrc, s.r8(src), s.flag(Flag::Carry));
    lemma_shift_outcome(ShiftOp::Rrc, s.mem8(s.r16(R16::HL)), s.flag(Flag::Carry));
}

/// `RL` doubles the byte modulo 256 and adds the old carry at the bottom;
/// carry receives the top bit.
pub proof fn law_rotate_left_through_carry(s: MachineState, src: R8)
    requires
        s.wf(),
        s.pc + 2 <= 0xFFFF,
        src != R8::F,
    ensures
        shifts_register(
            s,
            step(s, Instruction::RL { src }),
            src,
            (s.r8(src) * 2) % 256 + carry_in(s),
            s.r8(src) >= 128,
        ),
        shifts_memory(
            s,
            step(s, Instruction::RLIndirectHL),
            (s.mem8(s.r16(R16::HL)) * 2) % 256 + carry_in(s),
            s.mem8(s.r16(R16::HL)) >= 128,
        ),
{
    lemma_shift_effects(s, ShiftOp::Rl, src);
    lemma_shift_outcome(ShiftOp::Rl, s.r8(src), s.flag(Flag::Carry));
    lemma_shift_outcome(ShiftOp::Rl, s.mem8(s.r16(R16::HL)), s.flag(Flag::Carry));
}

/// `RR` halves the byte and puts the old carry at the top; carry receives the
/// bottom bit.
pub proof fn law_rotate_right_through_carry(s: MachineState, src: R8)
    requires
        s.wf(),
        s.pc + 2 <= 0xFFFF,
        src != R8::F,
    ensures
        shifts_register(
            s,
            step(s, Instruction::RR { src }),
            src,
            s.r8(src) / 2 + carry_in(s) * 128,
            s.r8(src) % 2 == 1,
        ),
        shifts_memory(
            s,
            step(s, Instruction::RRIndirectHL),
            s.mem8(s.r16(R16::HL)) / 2 + carry_in(s) * 128,
            s.mem8(s.r16(R16::HL)) % 2 == 1,
        ),
{
    lemma_shift_effects(s, ShiftOp::Rr, src);
    lemma_shift_outcome(ShiftOp::Rr, s.r8(src), s.flag(Flag::Carry));
    lemma_shift_outcome(ShiftOp::Rr, s.mem8(s.r16(R16::HL)), s.flag(Flag::Carry));
}

/// `SLA` doubles the byte modulo 256; carry receives the top bit.
pub proof fn law_shift_left_arithmetic(s: MachineState, src: R8)
    requires
        s.wf(),
        s.pc + 2 <= 0xFFFF,
        src != R8::F,
    ensures
        shifts_register(
            s,
            step(s, Instruction::SLA { src }),
            src,
            (s.r8(src) * 2) % 256,
            s.r8(src) >= 128,
        ),
        shifts_memory(
            s,
            step(s, Instruction::SLAIndirectHL),
            (s.mem8(s.r16(R16::HL)) * 2) % 256,
            s.mem8(s.r16(R16::HL)) >= 128,
        ),
{
    lemma_shift_effects(s, ShiftOp::Sla, src);
    lemma_shift_outcome(ShiftOp::Sla, s.r8(src), s.flag(Flag::Carry));
    lemma_shift_outcome(ShiftOp::Sla, s.mem8(s.r16(R16::HL)), s.flag(Flag::Carry));
}

/// `SRA` halves the byte and keeps its top bit: the signed byte divided by
/// two, rounded down; carry receives the bottom bit.
pub proof fn law_shift_right_arithmetic(s: MachineState, src: R8)
    requires
        s.wf(),
        s.pc + 2 <= 0xFFFF,
        src != R8::F,
    ensures
        shifts_register(
            s,
            step(s, Instruction::SRA { src }),
            src,
            s.r8(src) / 2 + (s.r8(src) / 128) * 128,
            s.r8(src) % 2 == 1,
        ),
        shifts_memory(
            s,
            step(s, Instruction::SRAIndirectHL),
            s.mem8(s.r16(R16::HL)) / 2 + (s.mem8(s.r16(R16::HL)) / 128) * 128,
            s.mem8(s.r16(R16::HL)) % 2 == 1,
        ),
{
    lemma_shift_effects(s, ShiftOp::Sra, src);
    lemma_shift_outcome(ShiftOp::Sra, s.r8(src), s.flag(Flag::Carry));
    lemma_shift_outcome(ShiftOp::Sra, s.mem8(s.r16(R16::HL)), s.flag(Flag::Carry));
}

/// `SRL` halves the byte, rounding down; carry receives the bottom bit.
pub proof fn law_shift_right_logical(s: MachineState, src: R8)
    requires
        s.wf(),
        s.pc + 2 <= 0xFFFF,
        src != R8::F,
    ensures
        shifts_register(
            s,
            step(s, Instruction::SRL { src }),
            src,
            (s.r8(src) / 2) as int,
            s.r8(src) % 2 == 1,
        ),
        shifts_memory(
            s,
            step(s, Instruction::SRLIndirectHL),
            (s.mem8(s.r16(R16::HL)) / 2) as int,
            s.mem8(s.r16(R16::HL)) % 2 == 1,
        ),
{
    lemma_shift_effects(s, ShiftOp::Srl, src);
    lemma_shift_outcome(ShiftOp::Srl, s.r8(src), s.flag(Flag::Carry));
    lemma_shift_outcome(ShiftOp::Srl, s.mem8(s.r16(R16::HL)), s.flag(Flag::Carry));
}

/// `after` is `before` with `A` holding `v` and the flags that `RLCA`,
/// `RRCA`, `RLA` and `RRA` leave: zero, subtract and half carry clear, carry
/// `c`; the program counter has moved by one and nothing else has changed.
pub open spec fn rotates_accumulator(before: MachineState, after: MachineState, v: int, c: bool) -> bool {
    &&& after.r8(R8::A) == v
    &&& !after.flag(Flag::Zero)
    &&& !after.flag(Flag::SubBCD)
    &&& !after.flag(Flag::HalfCarryBCD)
    &&& after.flag(Flag::Carry) == c
    &&& after.pc == before.pc + 1
    &&& after.sp == before.sp
    &&& after.mem == before.mem
    &&& forall|q: R8| q != R8::A && q != R8::F ==> #[trigger] after.r8(q) == before.r8(q)
}

/// The one-byte rotates of `A` compute what their 0xCB-prefixed forms do,
/// but always clear zero: `RLCA` and `RRCA` rotate round, `RLA` and `RRA`
/// rotate through carry.
pub proof fn law_rotate_accumulator(s: MachineState)
    requires
        s.wf(),
        s.pc + 1 <= 0xFFFF,
    ensures
        rotates_accumulator(
            s,
            step(s, Instruction::RLCA),
            (s.r8(R8::A) * 2) % 256 + s.r8(R8::A) / 128,
            s.r8(R8::A) >= 128,
        ),
        rotates_accumulator(
            s,
            step(s, Instruction::RRCA),
            s.r8(R8::A) / 2 + (s.r8(R8::A) % 2) * 128,
            s.r8(R8::A) % 2 == 1,
        ),
        rotates_accumulator(
            s,
            step(s, Instruction::RLA),
            (s.r8(R8::A) * 2) % 256 + carry_in(s),
            s.r8(R8::A) >= 128,
        ),
        rotates_accumulator(
            s,
            step(s, Instruction::RRA),
            s.r8(R8::A) / 2 + carry_in(s) * 128,
            s.r8(R8::A) % 2 == 1,
        ),
{
    let a = s.r8(R8::A);
    let cf = s.flag(Flag::Carry);
    lemma_shift_outcome(ShiftOp::Rlc, a, cf);
    lemma_shift_outcome(ShiftOp::Rrc, a, cf);
    lemma_shift_outcome(ShiftOp::Rl, a, cf);
    lemma_shift_outcome(ShiftOp::Rr, a, cf);
    let (v1, c1) = shift_outcome(ShiftOp::Rlc, a, cf);
    let (v2, c2) = shift_outcome(ShiftOp::Rrc, a, cf);
    let (v3, c3) = shift_outcome(ShiftOp::Rl, a, cf);
    let (v4, c4) = shift_outcome(ShiftOp::Rr, a, cf);
    lemma_read_flags(s.with_r8(R8::A, v1), false, false, false, c1);
    lemma_read_flags(s.with_r8(R8::A, v2), false, false, false, c2);
    lemma_read_flags(s.with_r8(R8::A, v3), false, false, false, c3);
    lemma_read_flags(s.with_r8(R8::A, v4), false, false, false, c4);
}

/// `LD A,(HL+)` and `LD A,(HL-)` load `A` from the byte at `HL` and then
/// move `HL` as one 16-bit number, by one up or down (carrying between `L`
/// and `H`); memory and the other registers stay as they were.
pub proof fn law_load_accumulator_moves_hl(s: MachineState)
    requires
        s.wf(),
        s.pc + 1 <= 0xFFFF,
    ensures
        s.r16(R16::HL) < 0xFFFF ==> {
            let t = step(s, Instruction::LoadAccIndirectHLInc);
            &&& t.r8(R8::A) == s.mem8(s.r16(R16::HL))
            &&& t.r16(R16::HL) == s.r16(R16::HL) + 1
            &&& t.mem == s.mem
            &&& t.sp == s.sp
            &&& t.pc == s.pc + 1
            &&& forall|q: R8| q != R8::A && q != R8::H && q != R8::L ==> #[trigger] t.r8(q) == s.r8(q)
        },
        s.r16(R16::HL) >= 1 ==> {
            let t = step(s, Instruction::LoadAccIndirectHLDec);
            &&& t.r8(R8::A) == s.mem8(s.r16(R16::HL))
            &&& t.r16(R16::HL) == s.r16(R16::HL) - 1
            &&& t.mem == s.mem
            &&& t.sp == s.sp
            &&& t.pc == s.pc + 1
            &&& forall|q: R8| q != R8::A && q != R8::H && q != R8::L ==> #[trigger] t.r8(q) == s.r8(q)
        },
{
    let hl = s.r16(R16::HL);
    let s1 = s.with_r8(R8::A, s.mem8(hl));
    assert(s1.r16(R16::HL) == hl);
    assert forall|q: R8| q != R8::A && q != R8::H && q != R8::L implies #[trigger] s1.with_r16(
        R16::HL,
        (hl + 1) as u16,
    ).r8(q) == s.r8(q) && s1.with_r16(R16::HL, (hl - 1) as u16).r8(q) == s.r8(q) by {
        law_r16_read_after_write(s1, R16::HL, (hl + 1) as u16, q);
        law_r16_read_after_write(s1, R16::HL, (hl - 1) as u16, q);
    }
    law_r16_read_after_write(s1, R16::HL, (hl + 1) as u16, R8::A);
    law_r16_read_after_write(s1, R16::HL, (hl - 1) as u16, R8::A);
}

/// `LD (HL+),A` and `LD (HL-),A` store `A` at `HL` and then move `HL` as one
/// 16-bit number, by one up or down (carrying between `L` and `H`); every
/// other byte of memory and the other registers stay as they were.
pub proof fn law_store_accumulator_moves_hl(s: MachineState)
    requires
        s.wf(),
        s.pc + 1 <= 0xFFFF,
    ensures
        s.r16(R16::HL) < 0xFFFF ==> {
            let t = step(s, Instruction::StoreAccIndirectHLInc);
            &&& t.mem8(s.r16(R16::HL)) == s.r8(R8::A)
            &&& forall|addr: u16| addr != s.r16(R16::HL) ==> #[trigger] t.mem8(addr) == s.mem8(addr)
            &&& t.r16(R16::HL) == s.r16(R16::HL) + 1
            &&& t.sp == s.sp
            &&& t.pc == s.pc + 1
            &&& forall|q: R8| q != R8::H && q != R8::L ==> #[trigger] t.r8(q) == s.r8(q)
        },
        s.r16(R16::HL) >= 1 ==> {
            let t = step(s, Instruction::StoreAccIndirectHLDec);
            &&& t.mem8(s.r16(R16::HL)) == s.r8(R8::A)
            &&& forall|addr: u16| addr != s.r16(R16::HL) ==> #[trigger] t.mem8(addr) == s.mem8(addr)
            &&& t.r16(R16::HL) == s.r16(R16::HL) - 1
            &&& t.sp == s.sp
            &&& t.pc == s.pc + 1
            &&& forall|q: R8| q != R8::H && q != R8::L ==> #[trigger] t.r8(q) == s.r8(q)
        },
{
    let hl = s.r16(R16::HL);
    let s1 = s.with_mem8(hl, s.r8(R8::A));
    assert forall|q: R8| q != R8::H && q != R8::L implies #[trigger] s1.with_r16(
        R16::HL,
        (hl + 1) as u16,
    ).r8(q) == s.r8(q) && s1.with_r16(R16::HL, (hl - 1) as u16).r8(q) == s.r8(q) by {
        law_r16_read_after_write(s1, R16::HL, (hl + 1) as u16, q);
        law_r16_read_after_write(s1, R16::HL, (hl - 1) as u16, q);
    }
    law_r16_read_after_write(s1, R16::HL, (hl + 1) as u16, R8::A);
    law_r16_read_after_write(s1, R16::HL, (hl - 1) as u16, R8::A);
}

/// `after` is `before` with register `r` holding `v`, zero set when `v` is
/// zero, subtract `n`, half carry `h` and carry kept, as an 8-bit increment
/// or decrement leaves them; the program counter has moved by one and
/// nothing else has changed.
pub open spec fn counts_register(
    before: MachineState,
    after: MachineState,
    r: R8,
    v: int,
    n: bool,
    h: bool,
) -> bool {
    &&& after.r8(r) == v
    &&& after.flag(Flag::Zero) == (v == 0)
    &&& after.flag(Flag::SubBCD) == n
    &&& after.flag(Flag::HalfCarryBCD) == h
    &&& after.flag(Flag::Carry) == before.flag(Flag::Carry)
    &&& after.pc == before.pc + 1
    &&& after.sp == before.sp
    &&& after.mem == before.mem
    &&& forall|q: R8| q != r && q != R8::F ==> #[trigger] after.r8(q) == before.r8(q)
}

/// `after` is `before` with the byte at `HL` holding `v`, zero set when `v`
/// is zero, subtract `n`, half carry `h` and carry kept, as an 8-bit
/// increment or decrement leaves them; the program counter has moved by one
/// and nothing else has changed.
pub open spec fn counts_memory(before: MachineState, after: MachineState, v: int, n: bool, h: bool) -> bool {
    let hl = before.r16(R16::HL);
    &&& after.mem8(hl) == v
    &&& after.flag(Flag::Zero) == (v == 0)
    &&& after.flag(Flag::SubBCD) == n
    &&& after.flag(Flag::HalfCarryBCD) == h
    &&& after.flag(Flag::Carry) == before.flag(Flag::Carry)
    &&& after.pc == before.pc + 1
    &&& after.sp == before.sp
    &&& forall|addr: u16| addr != hl ==> #[trigger] after.mem8(addr) == before.mem8(addr)
    &&& forall|q: R8| q != R8::F ==> #[trigger] after.r8(q) == before.r8(q)
}

/// Assigning zero, subtract and half carry, in that order, and reading the
/// flags back; carry and every register but `F` keep their values.
proof fn lemma_read_three_flags(s: MachineState, z: bool, n: bool, h: bool)
    requires
        s.wf(),
    ensures
        ({
            let t = s.with_flag(Flag::Zero, z).with_flag(Flag::SubBCD, n).with_flag(
                Flag::HalfCarryBCD,
                h,
            );
            &&& t.flag(Flag::Zero) == z
            &&& t.flag(Flag::SubBCD) == n
            &&& t.flag(Flag::HalfCarryBCD) == h
            &&& t.flag(Flag::Carry) == s.flag(Flag::Carry)
            &&& t.wf()
            &&& t.pc == s.pc
            &&& t.sp == s.sp
            &&& t.mem == s.mem
            &&& forall|q: R8| q != R8::F ==> #[trigger] t.r8(q) == s.r8(q)
        }),
{
    let s1 = s.with_flag(Flag::Zero, z);
    let s2 = s1.with_flag(Flag::SubBCD, n);
    let t = s2.with_flag(Flag::HalfCarryBCD, h);
    assert forall|g: Flag| #[trigger] t.flag(g) == (if g == Flag::HalfCarryBCD {
        h
    } else if g == Flag::SubBCD {
        n
    } else if g == Flag::Zero {
        z
    } else {
        s.flag(g)
    }) by {
        law_flag_read_after_write(s, Flag::Zero, z, g, R8::A);
        law_flag_read_after_write(s1, Flag::SubBCD, n, g, R8::A);
        law_flag_read_after_write(s2, Flag::HalfCarryBCD, h, g, R8::A);
    }
    assert(t.flag(Flag::Carry) == s.flag(Flag::Carry));
    assert forall|q: R8| q != R8::F implies #[trigger] t.r8(q) == s.r8(q) by {
        law_flag_read_after_write(s, Flag::Zero, z, Flag::Zero, q);
        law_flag_read_after_write(s1, Flag::SubBCD, n, Flag::Zero, q);
        law_flag_read_after_write(s2, Flag::HalfCarryBCD, h, Flag::Zero, q);
    }
}

/// `INC` adds one to a register or to the byte at `HL`, wrapping 255 round
/// to 0; half carry is set exactly when the low nibble was 15, subtract is
/// cleared and carry is left alone.
pub proof fn law_increment_byte(s: MachineState, src: R8)
    requires
        s.wf(),
        s.pc + 1 <= 0xFFFF,
        src != R8::F,
    ensures
        counts_register(
            s,
            step(s, Instruction::Inc8 { src }),
            src,
            (s.r8(src) + 1) % 256,
            false,
            s.r8(src) % 16 == 15,
        ),
        counts_memory(
            s,
            step(s, Instruction::Inc8IndirectHL),
            (s.mem8(s.r16(R16::HL)) + 1) % 256,
            false,
            s.mem8(s.r16(R16::HL)) % 16 == 15,
        ),
{
    let x = s.r8(src);
    let hl = s.r16(R16::HL);
    let m = s.mem8(hl);
    lemma_read_three_flags(s.with_r8(src, ((x + 1) % 256) as u8), (x + 1) % 256 == 0, false, x % 16 == 15);
    lemma_read_three_flags(s.with_mem8(hl, ((m + 1) % 256) as u8), (m + 1) % 256 == 0, false, m % 16 == 15);
}

/// `DEC` takes one from a register or from the byte at `HL`, wrapping 0 round
/// to 255; half carry is set exactly when the low nibble was 0, subtract is
/// set and carry is left alone.
pub proof fn law_decrement_byte(s: MachineState, src: R8)
    requires
        s.wf(),
        s.pc + 1 <= 0xFFFF,
        src != R8::F,
    ensures
        counts_register(
            s,
            step(s, Instruction::Dec8 { src }),
            src,
            (s.r8(src) + 255) % 256,
            true,
            s.r8(src) % 16 == 0,
        ),
        counts_memory(
            s,
            step(s, Instruction::Dec8IndirectHL),
            (s.mem8(s.r16(R16::HL)) + 255) % 256,
            true,
            s.mem8(s.r16(R16::HL)) % 16 == 0,
        ),
{
    let x = s.r8(src);
    let hl = s.r16(R16::HL);
    let m = s.mem8(hl);
    assert((x - 1) % 256 == (x + 255) % 256);
    assert((m - 1) % 256 == (m + 255) % 256);
    lemma_read_three_flags(s.with_r8(src, ((x - 1) % 256) as u8), (x - 1) % 256 == 0, true, x % 16 == 0);
    lemma_read_three_flags(s.with_mem8(hl, ((m - 1) % 256) as u8), (m - 1) % 256 == 0, true, m % 16 == 0);
}

/// `ADD HL,rr` adds the register pair (or `SP`) to `HL` modulo 65536; carry
/// is set exactly when the sum passes 0xFFFF and half carry exactly when the
/// low twelve bits carry; zero and subtract are left alone.
pub proof fn law_add_to_hl(s: MachineState, src: R16)
    requires
        s.wf(),
        s.pc + 1 <= 0xFFFF,
    ensures
        ({
            let t = step(s, Instruction::Add16HL { src });
            let hl = s.r16(R16::HL);
            let v = s.r16(src);
            &&& t.r16(R16::HL) == (hl + v) % 65536
            &&& t.flag(Flag::Carry) == (hl + v > 0xFFFF)
            &&& t.flag(Flag::HalfCarryBCD) == (hl % 4096 + v % 4096 > 0xFFF)
            &&& t.flag(Flag::Zero) == s.flag(Flag::Zero)
            &&& t.flag(Flag::SubBCD) == s.flag(Flag::SubBCD)
            &&& t.pc == s.pc + 1
            &&& t.sp == s.sp
            &&& t.mem == s.mem
            &&& forall|q: R8| q != R8::H && q != R8::L && q != R8::F ==> #[trigger] t.r8(q) == s.r8(q)
        }),
{
    let hl = s.r16(R16::HL);
    let v = s.r16(src);
    let w = ((hl + v) % 65536) as u16;
    let s1 = s.with_r16(R16::HL, w);
    let s2 = s1.with_flag(Flag::Carry, hl + v > 0xFFFF);
    let s3 = s2.with_flag(Flag::HalfCarryBCD, hl % 4096 + v % 4096 > 0xFFF);
    law_r16_read_after_write(s, R16::HL, w, R8::A);
    assert forall|g: Flag| #[trigger] s3.flag(g) == (if g == Flag::HalfCarryBCD {
        hl % 4096 + v % 4096 > 0xFFF
    } else if g == Flag::Carry {
        hl + v > 0xFFFF
    } else {
        s.flag(g)
    }) by {
        law_r16_read_after_write(s, R16::HL, w, R8::F);
        law_flag_read_after_write(s1, Flag::Carry, hl + v > 0xFFFF, g, R8::A);
        law_flag_read_after_write(s2, Flag::HalfCarryBCD, hl % 4096 + v % 4096 > 0xFFF, g, R8::A);
    }
    assert forall|q: R8| q != R8::F implies #[trigger] s3.r8(q) == s1.r8(q) by {
        law_flag_read_after_write(s1, Flag::Carry, hl + v > 0xFFFF, Flag::Zero, q);
        law_flag_read_after_write(s2, Flag::HalfCarryBCD, hl % 4096 + v % 4096 > 0xFFF, Flag::Zero, q);
    }
    assert(s3.r16(R16::HL) == s1.r16(R16::HL));
    assert forall|q: R8| q != R8::H && q != R8::L && q != R8::F implies #[trigger] s3.r8(q) == s.r8(q) by {
        law_r16_read_after_write(s, R16::HL, w, q);
    }
    assert(s3.flag(Flag::Carry) == (hl + v > 0xFFFF));
    assert(s3.flag(Flag::Zero) == s.flag(Flag::Zero));
    assert(s3.flag(Flag::SubBCD) == s.flag(Flag::SubBCD));
    assert(s3.flag(Flag::HalfCarryBCD) == (hl % 4096 + v % 4096 > 0xFFF));
}

/// The unsigned byte whose two's-complement reading is `e`.
pub open spec fn unsigned_value(e: i8) -> int {
    (e + 256) % 256
}

/// `e as u8` is the unsigned byte of `e`.
proof fn lemma_as_u8(e: i8)
    ensures
        (e as u8) as int == unsigned_value(e),
{
    lemma_as_i8(e as u8);
    assert(((e as u8) as i8) == e) by (bit_vector);
}

/// `ADD SP,e` and `LD HL,SP+e` add the signed offset `e` to `SP` modulo
/// 65536, the first into `SP`, the second into `HL` with `SP` kept; both
/// clear zero and subtract and take half carry and carry from adding the
/// unsigned byte of `e` to the low nibble and the low byte of `SP`.
pub proof fn law_stack_pointer_offset(s: MachineState, e: i8)
    requires
        s.wf(),
        s.pc + 2 <= 0xFFFF,
    ensures
        ({
            let t = step(s, Instruction::AddSPImm8 { imm: e });
            &&& t.sp == (s.sp + e) % 65536
            &&& !t.flag(Flag::Zero)
            &&& !t.flag(Flag::SubBCD)
            &&& t.flag(Flag::HalfCarryBCD) == (s.sp % 16 + unsigned_value(e) % 16 > 15)
            &&& t.flag(Flag::Carry) == (s.sp % 256 + unsigned_value(e) > 255)
            &&& t.pc == s.pc + 2
            &&& t.mem == s.mem
            &&& forall|q: R8| q != R8::F ==> #[trigger] t.r8(q) == s.r8(q)
        }),
        ({
            let t = step(s, Instruction::LoadHLSPOffset { offset: e });
            &&& t.r16(R16::HL) == (s.sp + e) % 65536
            &&& !t.flag(Flag::Zero)
            &&& !t.flag(Flag::SubBCD)
            &&& t.flag(Flag::HalfCarryBCD) == (s.sp % 16 + unsigned_value(e) % 16 > 15)
            &&& t.flag(Flag::Carry) == (s.sp % 256 + unsigned_value(e) > 255)
            &&& t.pc == s.pc + 2
            &&& t.sp == s.sp
            &&& t.mem == s.mem
            &&& forall|q: R8| q != R8::H && q != R8::L && q != R8::F ==> #[trigger] t.r8(q) == s.r8(q)
        }),
{
    lemma_as_u8(e);
    let (v, h, c) = crate::semantics::sp_offset(s, e);
    lemma_read_flags(s.with_sp(v), false, false, h, c);
    let s1 = s.with_r16(R16::HL, v);
    lemma_read_flags(s1, false, false, h, c);
    law_r16_read_after_write(s, R16::HL, v, R8::A);
    assert forall|q: R8| q != R8::H && q != R8::L && q != R8::F implies #[trigger] s1.r8(q) == s.r8(q) by {
        law_r16_read_after_write(s, R16::HL, v, q);
    }
    assert(s1.with_flags(false, false, h, c).r8(R8::H) == s1.r8(R8::H));
    assert(s1.with_flags(false, false, h, c).r8(R8::L) == s1.r8(R8::L));
}

/// `CPL` replaces `A` by its complement, 255 minus `A`, and sets subtract
/// and half carry; `SCF` sets carry and `CCF` flips it, both clearing
/// subtract and half carry. Zero is left alone by all three.
pub proof fn law_complement_and_carry(s: MachineState)
    requires
        s.wf(),
        s.pc + 1 <= 0xFFFF,
    ensures
        ({
            let t = step(s, Instruction::CmplAcc);
            &&& t.r8(R8::A) == 255 - s.r8(R8::A)
            &&& t.flag(Flag::SubBCD)
            &&& t.flag(Flag::HalfCarryBCD)
            &&& t.flag(Flag::Zero) == s.flag(Flag::Zero)
            &&& t.flag(Flag::Carry) == s.flag(Flag::Carry)
            &&& t.pc == s.pc + 1
            &&& forall|q: R8| q != R8::A && q != R8::F ==> #[trigger] t.r8(q) == s.r8(q)
        }),
        ({
            let t = step(s, Instruction::SetCarryFlag);
            &&& t.flag(Flag::Carry)
            &&& !t.flag(Flag::SubBCD)
            &&& !t.flag(Flag::HalfCarryBCD)
            &&& t.flag(Flag::Zero) == s.flag(Flag::Zero)
            &&& t.pc == s.pc + 1
            &&& forall|q: R8| q != R8::F ==> #[trigger] t.r8(q) == s.r8(q)
        }),
        ({
            let t = step(s, Instruction::CmplCarryFlag);
            &&& t.flag(Flag::Carry) == !s.flag(Flag::Carry)
            &&& !t.flag(Flag::SubBCD)
            &&& !t.flag(Flag::HalfCarryBCD)
            &&& t.flag(Flag::Zero) == s.flag(Flag::Zero)
            &&& t.pc == s.pc + 1
            &&& forall|q: R8| q != R8::F ==> #[trigger] t.r8(q) == s.r8(q)
        }),
{
    let a = s.r8(R8::A);
    assert(((!a) as u16 + a as u16) as u16 == 255u16) by (bit_vector);
    let s0 = s.with_r8(R8::A, !a);
    let s1 = s0.with_flag(Flag::SubBCD, true);
    law_flag_read_after_write(s0, Flag::SubBCD, true, Flag::Zero, R8::A);
    law_flag_read_after_write(s0, Flag::SubBCD, true, Flag::Carry, R8::A);
    law_flag_read_after_write(s1, Flag::HalfCarryBCD, true, Flag::Zero, R8::A);
    law_flag_read_after_write(s1, Flag::HalfCarryBCD, true, Flag::Carry, R8::A);
    law_flag_read_after_write(s1, Flag::HalfCarryBCD, true, Flag::SubBCD, R8::A);
    law_flag_read_after_write(s1, Flag::HalfCarryBCD, true, Flag::HalfCarryBCD, R8::A);
    law_flag_read_after_write(s0, Flag::SubBCD, true, Flag::SubBCD, R8::A);
    assert forall|q: R8| q != R8::A && q != R8::F implies #[trigger] s1.with_flag(
        Flag::HalfCarryBCD,
        true,
    ).r8(q) == s.r8(q) by {
        law_flag_read_after_write(s0, Flag::SubBCD, true, Flag::Zero, q);
        law_flag_read_after_write(s1, Flag::HalfCarryBCD, true, Flag::Zero, q);
    }
    lemma_read_three_flags(s, s.flag(Flag::Zero), false, false);
    let u = s.with_flag(Flag::Zero, s.flag(Flag::Zero)).with_flag(Flag::SubBCD, false).with_flag(
        Flag::HalfCarryBCD,
        false,
    );
    let v = s.with_flag(Flag::SubBCD, false).with_flag(Flag::HalfCarryBCD, false);
    lemma_keep_flag(s, Flag::Zero);
    assert(u == v);
    law_flag_read_after_write(v, Flag::Carry, true, Flag::Zero, R8::A);
    law_flag_read_after_write(v, Flag::Carry, true, Flag::Carry, R8::A);
    law_flag_read_after_write(v, Flag::Carry, true, Flag::SubBCD, R8::A);
    law_flag_read_after_write(v, Flag::Carry, true, Flag::HalfCarryBCD, R8::A);
    law_flag_read_after_write(v, Flag::Carry, !s.flag(Flag::Carry), Flag::Zero, R8::A);
    law_flag_read_after_write(v, Flag::Carry, !s.flag(Flag::Carry), Flag::Carry, R8::A);
    law_flag_read_after_write(v, Flag::Carry, !s.flag(Flag::Carry), Flag::SubBCD, R8::A);
    law_flag_read_after_write(v, Flag::Carry, !s.flag(Flag::Carry), Flag::HalfCarryBCD, R8::A);
    assert forall|q: R8| q != R8::F implies #[trigger] v.with_flag(Flag::Carry, true).r8(q) == s.r8(q)
        && v.with_flag(Flag::Carry, !s.flag(Flag::Carry)).r8(q) == s.r8(q) by {
        law_flag_read_after_write(v, Flag::Carry, true, Flag::Zero, q);
        law_flag_read_after_write(v, Flag::Carry, !s.flag(Flag::Carry), Flag::Zero, q);
    }
}

/// Writing a flag with the value it already has leaves the state as it was.
proof fn lemma_keep_flag(s: MachineState, f: Flag)
    requires
        s.wf(),
    ensures
        s.with_flag(f, s.flag(f)) == s,
{
    let b = s.r8(R8::F);
    let bit = f.spec_bit();
    assert(bit < 8);
    assert(with_bit(b, bit, bit_is_set(b, bit)) == b) by (bit_vector)
        requires
            bit < 8,
    ;
    assert(s.with_flag(f, s.flag(f)).regs =~= s.regs);
}

/// Whether `after` is `before` with bit `bit` made `v` and the seven other
/// bits kept.
pub open spec fn writes_bit(before: u8, after: u8, bit: u8, v: bool) -> bool {
    forall|o: u8| o < 8 ==> #[trigger] bit_is_set(after, o) == (if o == bit {
        v
    } else {
        bit_is_set(before, o)
    })
}

/// `SET` and `RES` make one bit of a register, or of the byte at `HL`, one or
/// zero and keep its other seven bits; no flag, no other register and no
/// other byte changes.
pub proof fn law_set_and_reset_bit(s: MachineState, src: R8, bit: u8)
    requires
        s.wf(),
        s.pc + 2 <= 0xFFFF,
        src != R8::F,
        bit < 8,
    ensures
        ({
            let t = step(s, Instruction::SET { src, bit });
            &&& writes_bit(s.r8(src), t.r8(src), bit, true)
            &&& forall|q: R8| q != src ==> #[trigger] t.r8(q) == s.r8(q)
            &&& t.mem == s.mem
            &&& t.pc == s.pc + 2
        }),
        ({
            let t = step(s, Instruction::RES { src, bit });
            &&& writes_bit(s.r8(src), t.r8(src), bit, false)
            &&& forall|q: R8| q != src ==> #[trigger] t.r8(q) == s.r8(q)
            &&& t.mem == s.mem
            &&& t.pc == s.pc + 2
        }),
        ({
            let t = step(s, Instruction::SETIndirectHL { bit });
            let hl = s.r16(R16::HL);
            &&& writes_bit(s.mem8(hl), t.mem8(hl), bit, true)
            &&& forall|addr: u16| addr != hl ==> #[trigger] t.mem8(addr) == s.mem8(addr)
            &&& t.regs == s.regs
            &&& t.pc == s.pc + 2
        }),
        ({
            let t = step(s, Instruction::RESIndirectHL { bit });
            let hl = s.r16(R16::HL);
            &&& writes_bit(s.mem8(hl), t.mem8(hl), bit, false)
            &&& forall|addr: u16| addr != hl ==> #[trigger] t.mem8(addr) == s.mem8(addr)
            &&& t.regs == s.regs
            &&& t.pc == s.pc + 2
        }),
{
    let x = s.r8(src);
    let m = s.mem8(s.r16(R16::HL));
    lemma_writes_bit(x, bit, true);
    lemma_writes_bit(x, bit, false);
    lemma_writes_bit(m, bit, true);
    lemma_writes_bit(m, bit, false);
}

/// `with_bit` writes the one bit and keeps the others.
proof fn lemma_writes_bit(b: u8, bit: u8, v: bool)
    requires
        bit < 8,
    ensures
        writes_bit(b, with_bit(b, bit, v), bit, v),
{
    assert forall|o: u8| o < 8 implies #[trigger] bit_is_set(with_bit(b, bit, v), o) == (if o
        == bit {
        v
    } else {
        bit_is_set(b, o)
    }) by {
        crate::laws::lemma_with_bit(b, bit, v, o);
    }
}

/// `BIT` copies one bit of a register, or of the byte at `HL`, into the zero
/// flag, clears subtract and sets half carry; carry, the registers and memory
/// stay as they were.
pub proof fn law_test_bit(s: MachineState, src: R8, bit: u8)
    requires
        s.wf(),
        s.pc + 2 <= 0xFFFF,
        bit < 8,
    ensures
        ({
            let t = step(s, Instruction::BIT { src, bit });
            &&& t.flag(Flag::Zero) == bit_is_set(s.r8(src), bit)
            &&& !t.flag(Flag::SubBCD)
            &&& t.flag(Flag::HalfCarryBCD)
            &&& t.flag(Flag::Carry) == s.flag(Flag::Carry)
            &&& forall|q: R8| q != R8::F ==> #[trigger] t.r8(q) == s.r8(q)
            &&& t.mem == s.mem
            &&& t.pc == s.pc + 2
        }),
        ({
            let t = step(s, Instruction::BITIndirectHL { bit });
            &&& t.flag(Flag::Zero) == bit_is_set(s.mem8(s.r16(R16::HL)), bit)
            &&& !t.flag(Flag::SubBCD)
            &&& t.flag(Flag::HalfCarryBCD)
            &&& t.flag(Flag::Carry) == s.flag(Flag::Carry)
            &&& forall|q: R8| q != R8::F ==> #[trigger] t.r8(q) == s.r8(q)
            &&& t.mem == s.mem
            &&& t.pc == s.pc + 2
        }),
{
    lemma_read_three_flags(s, bit_is_set(s.r8(src), bit), false, true);
    lemma_read_three_flags(s, bit_is_set(s.mem8(s.r16(R16::HL)), bit), false, true);
}

/// Each bit of `a & y`, `a | y` and `a ^ y` from the same bit of `a` and `y`.
proof fn lemma_bitwise(a: u8, y: u8, o: u8)
    by (bit_vector)
    requires
        o < 8,
    ensures
        bit_is_set(a & y, o) == (bit_is_set(a, o) && bit_is_set(y, o)),
        bit_is_set(a | y, o) == (bit_is_set(a, o) || bit_is_set(y, o)),
        bit_is_set(a ^ y, o) == (bit_is_set(a, o) != bit_is_set(y, o)),
{
}

/// `after` is `before` with `A` combined bit by bit with `y` by `op` (`AND`:
/// both bits set; `OR`: either; `XOR`: exactly one), zero when the result is
/// zero, subtract and carry clear, half carry set for `AND` alone; the
/// program counter has moved by `len` and nothing else has changed.
pub open spec fn combines_bits(before: MachineState, after: MachineState, op: AluOp, y: u8, len: int) -> bool {
    let a = before.r8(R8::A);
    let r = after.r8(R8::A);
    &&& forall|o: u8| o < 8 ==> #[trigger] bit_is_set(r, o) == (if op == AluOp::And {
        bit_is_set(a, o) && bit_is_set(y, o)
    } else if op == AluOp::Or {
        bit_is_set(a, o) || bit_is_set(y, o)
    } else {
        bit_is_set(a, o) != bit_is_set(y, o)
    })
    &&& after.flag(Flag::Zero) == (r == 0)
    &&& !after.flag(Flag::SubBCD)
    &&& after.flag(Flag::HalfCarryBCD) == (op == AluOp::And)
    &&& !after.flag(Flag::Carry)
    &&& after.pc == before.pc + len
    &&& after.sp == before.sp
    &&& after.mem == before.mem
    &&& forall|q: R8| q != R8::A && q != R8::F ==> #[trigger] after.r8(q) == before.r8(q)
}

/// The bitwise operation `op` on `A` and `y`, read back.
proof fn lemma_logic(s: MachineState, op: AluOp, y: u8)
    requires
        s.wf(),
        op == AluOp::And || op == AluOp::Or || op == AluOp::Xor,
    ensures
        combines_bits(s, alu_effect(s, op, y), op, y, 0),
{
    let a = s.r8(R8::A);
    let (r, z, n, h, c) = alu_outcome(op, a, y, s.flag(Flag::Carry));
    lemma_read_flags(s.with_r8(R8::A, r), z, n, h, c);
    assert forall|o: u8| o < 8 implies #[trigger] bit_is_set(r, o) == (if op == AluOp::And {
        bit_is_set(a, o) && bit_is_set(y, o)
    } else if op == AluOp::Or {
        bit_is_set(a, o) || bit_is_set(y, o)
    } else {
        bit_is_set(a, o) != bit_is_set(y, o)
    }) by {
        lemma_bitwise(a, y, o);
    }
}

/// `AND`, `OR` and `XOR`, with a register, the byte at `HL` or an immediate,
/// combine `A` with the operand bit by bit and set the flags from the result.
pub proof fn law_bitwise(s: MachineState, src: R8, imm: u8)
    requires
        s.wf(),
        s.pc + 2 <= 0xFFFF,
    ensures
        combines_bits(s, step(s, Instruction::And8 { src }), AluOp::And, s.r8(src), 1),
        combines_bits(s, step(s, Instruction::And8IndirectHL), AluOp::And, s.mem8(s.r16(R16::HL)), 1),
        combines_bits(s, step(s, Instruction::AndImm8 { imm }), AluOp::And, imm, 2),
        combines_bits(s, step(s, Instruction::Or8 { src }), AluOp::Or, s.r8(src), 1),
        combines_bits(s, step(s, Instruction::Or8IndirectHL), AluOp::Or, s.mem8(s.r16(R16::HL)), 1),
        combines_bits(s, step(s, Instruction::OrImm8 { imm }), AluOp::Or, imm, 2),
        combines_bits(s, step(s, Instruction::Xor8 { src }), AluOp::Xor, s.r8(src), 1),
        combines_bits(s, step(s, Instruction::Xor8IndirectHL), AluOp::Xor, s.mem8(s.r16(R16::HL)), 1),
        combines_bits(s, step(s, Instruction::XorImm8 { imm }), AluOp::Xor, imm, 2),
{
    let m = s.mem8(s.r16(R16::HL));
    lemma_logic(s, AluOp::And, s.r8(src));
    lemma_logic(s, AluOp::And, m);
    lemma_logic(s, AluOp::And, imm);
    lemma_logic(s, AluOp::Or, s.r8(src));
    lemma_logic(s, AluOp::Or, m);
    lemma_logic(s, AluOp::Or, imm);
    lemma_logic(s, AluOp::Xor, s.r8(src));
    lemma_logic(s, AluOp::Xor, m);
    lemma_logic(s, AluOp::Xor, imm);
}

/// `INC rr` and `DEC rr` add or take one from a register pair (or `SP`) as a
/// 16-bit number, wrapping at both ends; the flags, memory and the registers
/// outside the pair are left alone.
pub proof fn law_count_pair(s: MachineState, src: R16)
    requires
        s.wf(),
        s.pc + 1 <= 0xFFFF,
    ensures
        ({
            let t = step(s, Instruction::Inc16 { src });
            &&& t.r16(src) == (s.r16(src) + 1) % 65536
            &&& forall|q: R8| !pair_holds(src, q) ==> #[trigger] t.r8(q) == s.r8(q)
            &&& src != R16::SP ==> t.sp == s.sp
            &&& t.mem == s.mem
            &&& t.pc == s.pc + 1
        }),
        ({
            let t = step(s, Instruction::Dec16 { src });
            &&& t.r16(src) == (s.r16(src) + 65535) % 65536
            &&& forall|q: R8| !pair_holds(src, q) ==> #[trigger] t.r8(q) == s.r8(q)
            &&& src != R16::SP ==> t.sp == s.sp
            &&& t.mem == s.mem
            &&& t.pc == s.pc + 1
        }),
{
    let v = s.r16(src);
    let up = ((v + 1) % 65536) as u16;
    let down = ((v - 1) % 65536) as u16;
    assert((v - 1) % 65536 == (v + 65535) % 65536);
    assert forall|q: R8| !pair_holds(src, q) implies #[trigger] s.with_r16(src, up).r8(q) == s.r8(q)
        && s.with_r16(src, down).r8(q) == s.r8(q) by {
        law_r16_read_after_write(s, src, up, q);
        law_r16_read_after_write(s, src, down, q);
    }
    law_r16_read_after_write(s, src, up, R8::A);
    law_r16_read_after_write(s, src, down, R8::A);
}

/// `PUSH` stores the pair little-endian in the two bytes at `SP - 1` and `SP`
/// and lowers `SP` by two; `POP` loads a pair from the two bytes at `SP + 1`
/// and `SP + 2` and raises `SP` by two. Neither touches a flag it does not
/// load, nor memory outside those bytes.
pub proof fn law_push_and_pop(s: MachineState, src: R16, dest: R16)
    requires
        s.wf(),
        s.pc + 1 <= 0xFFFF,
        dest != R16::SP,
    ensures
        s.sp >= 2 ==> {
            let t = step(s, Instruction::Push { src });
            &&& t.mem16((s.sp - 1) as u16) == s.r16(src)
            &&& t.sp == s.sp - 2
            &&& forall|addr: u16| addr != s.sp - 1 && addr != s.sp ==> #[trigger] t.mem8(addr)
                == s.mem8(addr)
            &&& t.regs == s.regs
            &&& t.pc == s.pc + 1
        },
        s.sp <= 0xFFFD ==> {
            let t = step(s, Instruction::Pop { dest });
            &&& t.r16(dest) == s.mem16((s.sp + 1) as u16)
            &&& t.sp == s.sp + 2
            &&& forall|q: R8| !pair_holds(dest, q) ==> #[trigger] t.r8(q) == s.r8(q)
            &&& t.mem == s.mem
            &&& t.pc == s.pc + 1
        },
{
    if s.sp >= 2 {
        crate::laws::law_mem16_read_after_write(s, (s.sp - 1) as u16, s.r16(src));
    }
    let w = s.mem16((s.sp + 1) as u16);
    assert forall|q: R8| !pair_holds(dest, q) implies #[trigger] s.with_r16(dest, w).r8(q) == s.r8(
        q,
    ) by {
        law_r16_read_after_write(s, dest, w, q);
    }
    law_r16_read_after_write(s, dest, w, R8::A);
}

/// The arithmetic/logic opcodes name their operation in bits 5 to 3 (`ADD`,
/// `ADC`, `SUB`, `SBC`, `AND`, `XOR`, `OR`, `CP` in that order) and their
/// operand in bits 2 to 0: a register other than `F`, or `(HL)` at 6.
pub proof fn law_decode_alu_block(r: R8)
    requires
        r != R8::F,
    ensures
        decoded(seq![(0x80 + r.spec_code()) as u8]) == Ok::<Instruction, DecodeError>(Instruction::Add8 { src: r }),
        decoded(seq![(0x88 + r.spec_code()) as u8]) == Ok::<Instruction, DecodeError>(Instruction::AddC8 { src: r }),
        decoded(seq![(0x90 + r.spec_code()) as u8]) == Ok::<Instruction, DecodeError>(Instruction::Sub8 { src: r }),
        decoded(seq![(0x98 + r.spec_code()) as u8]) == Ok::<Instruction, DecodeError>(Instruction::SubC8 { src: r }),
        decoded(seq![(0xA0 + r.spec_code()) as u8]) == Ok::<Instruction, DecodeError>(Instruction::And8 { src: r }),
        decoded(seq![(0xA8 + r.spec_code()) as u8]) == Ok::<Instruction, DecodeError>(Instruction::Xor8 { src: r }),
        decoded(seq![(0xB0 + r.spec_code()) as u8]) == Ok::<Instruction, DecodeError>(Instruction::Or8 { src: r }),
        decoded(seq![(0xB8 + r.spec_code()) as u8]) == Ok::<Instruction, DecodeError>(Instruction::Cmp8 { src: r }),
        decoded(seq![0x86u8]) == Ok::<Instruction, DecodeError>(Instruction::Add8IndirectHL),
        decoded(seq![0x8Eu8]) == Ok::<Instruction, DecodeError>(Instruction::AddC8IndirectHL),
        decoded(seq![0x96u8]) == Ok::<Instruction, DecodeError>(Instruction::Sub8IndirectHL),
        decoded(seq![0x9Eu8]) == Ok::<Instruction, DecodeError>(Instruction::SubC8IndirectHL),
        decoded(seq![0xA6u8]) == Ok::<Instruction, DecodeError>(Instruction::And8IndirectHL),
        decoded(seq![0xAEu8]) == Ok::<Instruction, DecodeError>(Instruction::Xor8IndirectHL),
        decoded(seq![0xB6u8]) == Ok::<Instruction, DecodeError>(Instruction::Or8IndirectHL),
        decoded(seq![0xBEu8]) == Ok::<Instruction, DecodeError>(Instruction::Cmp8IndirectHL),
{
    match r {
        R8::B => {},
        R8::C => {},
        R8::D => {},
        R8::E => {},
        R8::H => {},
        R8::L => {},
        _ => {},
    }
}

/// The 0xCB-prefixed rotates, shifts and swap name their operation in bits 5
/// to 3 (`RLC`, `RRC`, `RL`, `RR`, `SLA`, `SRA`, `SWAP`, `SRL` in that order)
/// and their operand in bits 2 to 0: a register other than `F`, or `(HL)` at
/// 6.
pub proof fn law_decode_shift_block(r: R8)
    requires
        r != R8::F,
    ensures
        decoded(seq![0xCBu8, (0x00 + r.spec_code()) as u8]) == Ok::<Instruction, DecodeError>(Instruction::RLC { src: r }),
        decoded(seq![0xCBu8, (0x08 + r.spec_code()) as u8]) == Ok::<Instruction, DecodeError>(Instruction::RRC { src: r }),
        decoded(seq![0xCBu8, (0x10 + r.spec_code()) as u8]) == Ok::<Instruction, DecodeError>(Instruction::RL { src: r }),
        decoded(seq![0xCBu8, (0x18 + r.spec_code()) as u8]) == Ok::<Instruction, DecodeError>(Instruction::RR { src: r }),
        decoded(seq![0xCBu8, (0x20 + r.spec_code()) as u8]) == Ok::<Instruction, DecodeError>(Instruction::SLA { src: r }),
        decoded(seq![0xCBu8, (0x28 + r.spec_code()) as u8]) == Ok::<Instruction, DecodeError>(Instruction::SRA { src: r }),
        decoded(seq![0xCBu8, (0x30 + r.spec_code()) as u8]) == Ok::<Instruction, DecodeError>(Instruction::Swap { src: r }),
        decoded(seq![0xCBu8, (0x38 + r.spec_code()) as u8]) == Ok::<Instruction, DecodeError>(Instruction::SRL { src: r }),
        decoded(seq![0xCBu8, 0x06u8]) == Ok::<Instruction, DecodeError>(Instruction::RLCIndirectHL),
        decoded(seq![0xCBu8, 0x0Eu8]) == Ok::<Instruction, DecodeError>(Instruction::RRCIndirectHL),
        decoded(seq![0xCBu8, 0x16u8]) == Ok::<Instruction, DecodeError>(Instruction::RLIndirectHL),
        decoded(seq![0xCBu8, 0x1Eu8]) == Ok::<Instruction, DecodeError>(Instruction::RRIndirectHL),
        decoded(seq![0xCBu8, 0x26u8]) == Ok::<Instruction, DecodeError>(Instruction::SLAIndirectHL),
        decoded(seq![0xCBu8, 0x2Eu8]) == Ok::<Instruction, DecodeError>(Instruction::SRAIndirectHL),
        decoded(seq![0xCBu8, 0x36u8]) == Ok::<Instruction, DecodeError>(Instruction::SwapIndirectHL),
        decoded(seq![0xCBu8, 0x3Eu8]) == Ok::<Instruction, DecodeError>(Instruction::SRLIndirectHL),
{
    match r {
        R8::B => {},
        R8::C => {},
        R8::D => {},
        R8::E => {},
        R8::H => {},
        R8::L => {},
        _ => {},
    }
}

/// `DEC r`, `LD r,(HL)` and `LD (HL),r` built from the encoding of a register
/// other than `F` decode back to that register, and `INC (HL)` and
/// `DEC (HL)` decode to the forms on `(HL)`.
pub proof fn law_decode_register_operands(r: R8)
    requires
        r != R8::F,
    ensures
        decoded(seq![(0x05 + 8 * r.spec_code()) as u8]) == Ok::<Instruction, DecodeError>(Instruction::Dec8 { src: r }),
        decoded(seq![(0x46 + 8 * r.spec_code()) as u8]) == Ok::<Instruction, DecodeError>(Instruction::LoadIndirectHL { dest: r }),
        decoded(seq![(0x70 + r.spec_code()) as u8]) == Ok::<Instruction, DecodeError>(Instruction::StoreIndirectHL { src: r }),
        decoded(seq![0x34u8]) == Ok::<Instruction, DecodeError>(Instruction::Inc8IndirectHL),
        decoded(seq![0x35u8]) == Ok::<Instruction, DecodeError>(Instruction::Dec8IndirectHL),
{
    match r {
        R8::B => {},
        R8::C => {},
        R8::D => {},
        R8::E => {},
        R8::H => {},
        R8::L => {},
        _ => {},
    }
}

/// `after` is `before` with register `r` holding `v`; the flags (unless `r`
/// is `F`), the other registers, `SP` and memory are unchanged and the
/// program counter has moved by `len`.
pub open spec fn loads_register(before: MachineState, after: MachineState, r: R8, v: u8, len: int) -> bool {
    &&& after.r8(r) == v
    &&& forall|q: R8| q != r ==> #[trigger] after.r8(q) == before.r8(q)
    &&& after.sp == before.sp
    &&& after.mem == before.mem
    &&& after.pc == before.pc + len
}

/// `after` is `before` with the byte at `at` holding `v`; every other byte,
/// the registers and `SP` are unchanged and the program counter has moved by
/// `len`.
pub open spec fn stores_byte(before: MachineState, after: MachineState, at: u16, v: u8, len: int) -> bool {
    &&& after.mem8(at) == v
    &&& forall|addr: u16| addr != at ==> #[trigger] after.mem8(addr) == before.mem8(addr)
    &&& after.regs == before.regs
    &&& after.sp == before.sp
    &&& after.pc == before.pc + len
}

/// The 8-bit loads put into their target the register, immediate or byte of
/// memory that they name: `(HL)`, `(BC)`, `(DE)`, `(nn)`, and `0xFF00` plus
/// `C` or plus `n` for `LDH`. `LD r,n` and `LDH A,(n)` move the program
/// counter by one byte only.
pub proof fn law_load_byte(s: MachineState, src: R8, dest: R8, imm: u8, addr: u16)
    requires
        s.wf(),
        s.pc + 3 <= 0xFFFF,
    ensures
        loads_register(s, step(s, Instruction::LoadReg8 { src, dest }), dest, s.r8(src), 1),
        loads_register(s, step(s, Instruction::LoadImm8 { dest, imm }), dest, imm, 1),
        loads_register(
            s,
            step(s, Instruction::LoadIndirectHL { dest }),
            dest,
            s.mem8(s.r16(R16::HL)),
            1,
        ),
        loads_register(s, step(s, Instruction::LoadAccIndirectBC), R8::A, s.mem8(s.r16(R16::BC)), 1),
        loads_register(s, step(s, Instruction::LoadAccIndirectDE), R8::A, s.mem8(s.r16(R16::DE)), 1),
        loads_register(s, step(s, Instruction::LoadAcc16 { addr }), R8::A, s.mem8(addr), 3),
        loads_register(
            s,
            step(s, Instruction::LoadAccIndirectC),
            R8::A,
            s.mem8((0xFF00 + s.r8(R8::C)) as u16),
            1,
        ),
        loads_register(
            s,
            step(s, Instruction::LoadAccDirect8 { offset: imm }),
            R8::A,
            s.mem8((0xFF00 + imm) as u16),
            1,
        ),
{
}

/// The 8-bit stores write the register or immediate that they name to the
/// byte of memory that they name: `(HL)`, `(BC)`, `(DE)`, `(nn)`, and
/// `0xFF00` plus `C` or plus `n` for `LDH`. `LDH (n),A` moves the program
/// counter by one byte only.
pub proof fn law_store_byte(s: MachineState, src: R8, imm: u8, addr: u16)
    requires
        s.wf(),
        s.pc + 3 <= 0xFFFF,
    ensures
        stores_byte(s, step(s, Instruction::StoreIndirectHL { src }), s.r16(R16::HL), s.r8(src), 1),
        stores_byte(s, step(s, Instruction::StoreImmIndirectHL { imm }), s.r16(R16::HL), imm, 2),
        stores_byte(s, step(s, Instruction::StoreAccIndirectBC), s.r16(R16::BC), s.r8(R8::A), 1),
        stores_byte(s, step(s, Instruction::StoreAccIndirectDE), s.r16(R16::DE), s.r8(R8::A), 1),
        stores_byte(s, step(s, Instruction::StoreAcc16 { addr }), addr, s.r8(R8::A), 3),
        stores_byte(
            s,
            step(s, Instruction::StoreAccIndirectC),
            (0xFF00 + s.r8(R8::C)) as u16,
            s.r8(R8::A),
            1,
        ),
        stores_byte(
            s,
            step(s, Instruction::StoreAccDirect8 { offset: imm }),
            (0xFF00 + imm) as u16,
            s.r8(R8::A),
            1,
        ),
{
}

/// `LD rr,nn` puts `nn` in the register pair (or `SP`), `LD SP,HL` copies
/// `HL` into `SP`, and `LD (nn),SP` stores `SP` little-endian at `nn` and
/// `nn + 1`.
pub proof fn law_load_word(s: MachineState, dest: R16, imm: u16, addr: u16)
    requires
        s.wf(),
        s.pc + 3 <= 0xFFFF,
    ensures
        step(s, Instruction::LoadImm16 { dest, imm }).r16(dest) == imm,
        step(s, Instruction::LoadSPHL).sp == s.r16(R16::HL),
        step(s, Instruction::LoadSPHL).regs == s.regs,
        addr < 0xFFFF ==> step(s, Instruction::StoreSP16 { addr }).mem16(addr) == s.sp,
        addr < 0xFFFF ==> step(s, Instruction::StoreSP16 { addr }).regs == s.regs,
{
    law_r16_read_after_write(s, dest, imm, R8::A);
    if addr < 0xFFFF {
        crate::laws::law_mem16_read_after_write(s, addr, s.sp);
    }
}

/// The opcodes that stand for one instruction each decode to it: the loads
/// and stores through `(BC)`, `(DE)`, `(HL+)`, `(HL-)` and `0xFF00 + C`, the
/// rotates of `A`, `DAA`, `CPL`, `SCF`, `CCF`, `LD SP,HL`, `JP (HL)`, `RET`,
/// `RETI`, `HALT`, `STOP`, `DI`, `EI` and `NOP`.
pub proof fn law_decode_fixed_opcodes(b: u8)
    ensures
        decoded(seq![0x00u8]) == Ok::<Instruction, DecodeError>(Instruction::NOP),
        decoded(seq![0x02u8]) == Ok::<Instruction, DecodeError>(Instruction::StoreAccIndirectBC),
        decoded(seq![0x0Au8]) == Ok::<Instruction, DecodeError>(Instruction::LoadAccIndirectBC),
        decoded(seq![0x12u8]) == Ok::<Instruction, DecodeError>(Instruction::StoreAccIndirectDE),
        decoded(seq![0x1Au8]) == Ok::<Instruction, DecodeError>(Instruction::LoadAccIndirectDE),
        decoded(seq![0x22u8]) == Ok::<Instruction, DecodeError>(Instruction::StoreAccIndirectHLInc),
        decoded(seq![0x2Au8]) == Ok::<Instruction, DecodeError>(Instruction::LoadAccIndirectHLInc),
        decoded(seq![0x32u8]) == Ok::<Instruction, DecodeError>(Instruction::StoreAccIndirectHLDec),
        decoded(seq![0x3Au8]) == Ok::<Instruction, DecodeError>(Instruction::LoadAccIndirectHLDec),
        decoded(seq![0x07u8]) == Ok::<Instruction, DecodeError>(Instruction::RLCA),
        decoded(seq![0x0Fu8]) == Ok::<Instruction, DecodeError>(Instruction::RRCA),
        decoded(seq![0x17u8]) == Ok::<Instruction, DecodeError>(Instruction::RLA),
        decoded(seq![0x1Fu8]) == Ok::<Instruction, DecodeError>(Instruction::RRA),
        decoded(seq![0x27u8]) == Ok::<Instruction, DecodeError>(Instruction::DecAdjAcc),
        decoded(seq![0x2Fu8]) == Ok::<Instruction, DecodeError>(Instruction::CmplAcc),
        decoded(seq![0x37u8]) == Ok::<Instruction, DecodeError>(Instruction::SetCarryFlag),
        decoded(seq![0x3Fu8]) == Ok::<Instruction, DecodeError>(Instruction::CmplCarryFlag),
        decoded(seq![0x76u8]) == Ok::<Instruction, DecodeError>(Instruction::Halt),
        decoded(seq![0xC9u8]) == Ok::<Instruction, DecodeError>(Instruction::Ret),
        decoded(seq![0xD9u8]) == Ok::<Instruction, DecodeError>(Instruction::RetI),
        decoded(seq![0xE9u8]) == Ok::<Instruction, DecodeError>(Instruction::JPHL),
        decoded(seq![0xF3u8]) == Ok::<Instruction, DecodeError>(Instruction::DI),
        decoded(seq![0xFBu8]) == Ok::<Instruction, DecodeError>(Instruction::EI),
        decoded(seq![0xF9u8]) == Ok::<Instruction, DecodeError>(Instruction::LoadSPHL),
        decoded(seq![0xE2u8]) == Ok::<Instruction, DecodeError>(Instruction::StoreAccIndirectC),
        decoded(seq![0xF2u8]) == Ok::<Instruction, DecodeError>(Instruction::LoadAccIndirectC),
        decoded(seq![0x10u8, b]) == Ok::<Instruction, DecodeError>(Instruction::Stop { ignore: b }),
{
}

/// `INC rr`, `DEC rr` and `ADD HL,rr` name the pair in bits 5 and 4 (`BC`,
/// `DE`, `HL`, `SP`), and `RST` names its target, a multiple of 8, in bits 5
/// to 3.
pub proof fn law_decode_pair_and_restart_operands(pair: R16, k: u8)
    requires
        pair != R16::AF,
        k < 8,
    ensures
        decoded(seq![(0x03 + 16 * pair.spec_code()) as u8]) == Ok::<Instruction, DecodeError>(
            Instruction::Inc16 { src: pair },
        ),
        decoded(seq![(0x0B + 16 * pair.spec_code()) as u8]) == Ok::<Instruction, DecodeError>(
            Instruction::Dec16 { src: pair },
        ),
        decoded(seq![(0x09 + 16 * pair.spec_code()) as u8]) == Ok::<Instruction, DecodeError>(
            Instruction::Add16HL { src: pair },
        ),
        decoded(seq![(0xC7 + 8 * k) as u8]) == Ok::<Instruction, DecodeError>(
            Instruction::RST { addr: (8 * k) as u8 },
        ),
{
    match pair {
        R16::BC => {},
        R16::DE => {},
        R16::HL => {},
        R16::SP => {},
        _ => {},
    }
}

/// `CALL cc,nn` names its condition in bits 4 and 3 (`NZ`, `Z`, `NC`, `C`)
/// and reads its address little-endian.
pub proof fn law_decode_conditional_call(cond: Cond, lo: u8, hi: u8)
    ensures
        decoded(seq![(0xC4 + 8 * cond.spec_code()) as u8, lo, hi]) == Ok::<Instruction, DecodeError>(
            Instruction::CallCC { cond, addr: (lo + 256 * hi) as u16 },
        ),
{
    match cond {
        Cond::NZ => {},
        Cond::Z => {},
        Cond::NCARRY => {},
        Cond::CARRY => {},
    }
}

} // verus!
