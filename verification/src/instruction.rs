//! The instruction set and its binary encoding.

use crate::bitfield::extract_u8;
use crate::registers::{Cond, R16, R8};
use vstd::prelude::*;

verus! {

/// One instruction, with its operands.
#[allow(inconsistent_fields)]
#[derive(Debug, PartialEq, Eq, Structural)]
pub enum Instruction {
    LoadReg8 { src: R8, dest: R8 },
    LoadImm8 { dest: R8, imm: u8 },
    LoadIndirectHL { dest: R8 },
    StoreIndirectHL { src: R8 },
    StoreImmIndirectHL { imm: u8 },
    LoadAccIndirectBC,
    LoadAccIndirectDE,
    StoreAccIndirectBC,
    StoreAccIndirectDE,
    LoadAcc16 { addr: u16 },
    StoreAcc16 { addr: u16 },
    LoadAccIndirectC,
    StoreAccIndirectC,
    LoadAccDirect8 { offset: u8 },
    StoreAccDirect8 { offset: u8 },
    LoadAccIndirectHLDec,
    StoreAccIndirectHLDec,
    LoadAccIndirectHLInc,
    StoreAccIndirectHLInc,
    LoadImm16 { dest: R16, imm: u16 },
    StoreSP16 { addr: u16 },
    LoadSPHL,
    Push { src: R16 },
    Pop { dest: R16 },
    LoadHLSPOffset { offset: i8 },
    Add8 { src: R8 },
    Add8IndirectHL,
    AddImm8 { imm: u8 },
    AddC8 { src: R8 },
    AddC8IndirectHL,
    AddCImm8 { imm: u8 },
    Sub8 { src: R8 },
    Sub8IndirectHL,
    SubImm8 { imm: u8 },
    SubC8 { src: R8 },
    SubC8IndirectHL,
    SubCImm8 { imm: u8 },
    Cmp8 { src: R8 },
    Cmp8IndirectHL,
    CmpImm8 { imm: u8 },
    Inc8 { src: R8 },
    Inc8IndirectHL,
    Dec8 { src: R8 },
    Dec8IndirectHL,
    And8 { src: R8 },
    And8IndirectHL,
    AndImm8 { imm: u8 },
    Or8 { src: R8 },
    Or8IndirectHL,
    OrImm8 { imm: u8 },
    Xor8 { src: R8 },
    Xor8IndirectHL,
    XorImm8 { imm: u8 },
    CmplCarryFlag,
    SetCarryFlag,
    DecAdjAcc,
    CmplAcc,
    Inc16 { src: R16 },
    Dec16 { src: R16 },
    Add16HL { src: R16 },
    AddSPImm8 { imm: i8 },
    RLCA,
    RRCA,
    RLA,
    RRA,
    RLC { src: R8 },
    RLCIndirectHL,
    RRC { src: R8 },
    RRCIndirectHL,
    RL { src: R8 },
    RLIndirectHL,
    RR { src: R8 },
    RRIndirectHL,
    SLA { src: R8 },
    SLAIndirectHL,
    SRA { src: R8 },
    SRAIndirectHL,
    Swap { src: R8 },
    SwapIndirectHL,
    SRL { src: R8 },
    SRLIndirectHL,
    BIT { src: R8, bit: u8 },
    BITIndirectHL { bit: u8 },
    RES { src: R8, bit: u8 },
    RESIndirectHL { bit: u8 },
    SET { src: R8, bit: u8 },
    SETIndirectHL { bit: u8 },
    JP { addr: u16 },
    JPHL,
    JPCC { cond: Cond, addr: u16 },
    JR { offset: i8 },
    JRCC { cond: Cond, offset: i8 },
    Call { addr: u16 },
    CallCC { cond: Cond, addr: u16 },
    Ret,
    RetCC { cond: Cond },
    RetI,
    RST { addr: u8 },
    Halt,
    Stop { ignore: u8 },
    DI,
    EI,
    NOP,
}

/// Why a byte sequence is no instruction.
#[derive(Debug, PartialEq, Eq, Structural)]
pub enum DecodeError {
    /// The first byte is none of the 245 opcodes.
    UnknownOpcode,
    /// The sequence ends before the instruction does.
    MemoryOutOfBounds,
}

// An opcode is read as three fields: `x` (bits 7..6), `y` (bits 5..3) and
// `z` (bits 2..0); `y` splits further into `p` (bits 5..4) and `q` (bit 3).

pub open spec fn op_x(op: u8) -> u8 {
    op / 64
}

pub open spec fn op_y(op: u8) -> u8 {
    (op / 8) % 8
}

pub open spec fn op_z(op: u8) -> u8 {
    op % 8
}

pub open spec fn op_p(op: u8) -> u8 {
    (op / 16) % 4
}

pub open spec fn op_q(op: u8) -> u8 {
    (op / 8) % 2
}

/// The opcodes that no instruction has: 0xD3, 0xDB, 0xDD, 0xE3, 0xE4, 0xEB,
/// 0xEC, 0xED, 0xF4, 0xFC and 0xFD.
pub open spec fn is_unknown_opcode(op: u8) -> bool {
    op == 0xD3 || op == 0xDB || op == 0xDD || op == 0xE3 || op == 0xE4 || op == 0xEB || op
        == 0xEC || op == 0xED || op == 0xF4 || op == 0xFC || op == 0xFD
}

/// Number of bytes of the instruction whose first byte is `op`: the opcode
/// and its operand bytes (an immediate, an address, or the second byte of a
/// 0xCB-prefixed opcode).
pub open spec fn instruction_length(op: u8) -> nat {
    let x = op_x(op);
    let y = op_y(op);
    let z = op_z(op);
    if x == 0 {
        if z == 0 {
            if y == 0 {
                1
            } else if y == 1 {
                3
            } else {
                2
            }
        } else if z == 1 {
            if op_q(op) == 0 {
                3
            } else {
                1
            }
        } else if z == 6 {
            2
        } else {
            1
        }
    } else if x == 1 || x == 2 {
        1
    } else {
        if z == 0 {
            if y < 4 {
                1
            } else {
                2
            }
        } else if z == 2 {
            if y < 4 || y == 5 || y == 7 {
                3
            } else {
                1
            }
        } else if z == 3 {
            if y == 0 {
                3
            } else if y == 1 {
                2
            } else {
                1
            }
        } else if z == 4 {
            3
        } else if z == 5 {
            if y == 1 {
                3
            } else {
                1
            }
        } else if z == 6 {
            2
        } else {
            1
        }
    }
}

/// The register-operand form of the arithmetic/logic operation `y` on `A`.
pub open spec fn alu_reg(y: u8, src: R8) -> Instruction {
    if y == 0 {
        Instruction::Add8 { src }
    } else if y == 1 {
        Instruction::AddC8 { src }
    } else if y == 2 {
        Instruction::Sub8 { src }
    } else if y == 3 {
        Instruction::SubC8 { src }
    } else if y == 4 {
        Instruction::And8 { src }
    } else if y == 5 {
        Instruction::Xor8 { src }
    } else if y == 6 {
        Instruction::Or8 { src }
    } else {
        Instruction::Cmp8 { src }
    }
}

/// The `(HL)`-operand form of the arithmetic/logic operation `y` on `A`.
pub open spec fn alu_indirect(y: u8) -> Instruction {
    if y == 0 {
        Instruction::Add8IndirectHL
    } else if y == 1 {
        Instruction::AddC8IndirectHL
    } else if y == 2 {
        Instruction::Sub8IndirectHL
    } else if y == 3 {
        Instruction::SubC8IndirectHL
    } else if y == 4 {
        Instruction::And8IndirectHL
    } else if y == 5 {
        Instruction::Xor8IndirectHL
    } else if y == 6 {
        Instruction::Or8IndirectHL
    } else {
        Instruction::Cmp8IndirectHL
    }
}

/// The immediate-operand form of the arithmetic/logic operation `y` on `A`.
pub open spec fn alu_immediate(y: u8, imm: u8) -> Instruction {
    if y == 0 {
        Instruction::AddImm8 { imm }
    } else if y == 1 {
        Instruction::AddCImm8 { imm }
    } else if y == 2 {
        Instruction::SubImm8 { imm }
    } else if y == 3 {
        Instruction::SubCImm8 { imm }
    } else if y == 4 {
        Instruction::AndImm8 { imm }
    } else if y == 5 {
        Instruction::XorImm8 { imm }
    } else if y == 6 {
        Instruction::OrImm8 { imm }
    } else {
        Instruction::CmpImm8 { imm }
    }
}

/// The instruction that follows the 0xCB prefix when the next byte is `op`.
pub open spec fn prefixed_instruction(op: u8) -> Instruction {
    let x = op_x(op);
    let y = op_y(op);
    let z = op_z(op);
    let src = R8::from_code(z);
    if x == 1 {
        if z == 6 {
            Instruction::BITIndirectHL { bit: y }
        } else {
            Instruction::BIT { src, bit: y }
        }
    } else if x == 2 {
        if z == 6 {
            Instruction::RESIndirectHL { bit: y }
        } else {
            Instruction::RES { src, bit: y }
        }
    } else if x == 3 {
        if z == 6 {
            Instruction::SETIndirectHL { bit: y }
        } else {
            Instruction::SET { src, bit: y }
        }
    } else if z == 6 {
        if y == 0 {
            Instruction::RLCIndirectHL
        } else if y == 1 {
            Instruction::RRCIndirectHL
        } else if y == 2 {
            Instruction::RLIndirectHL
        } else if y == 3 {
            Instruction::RRIndirectHL
        } else if y == 4 {
            Instruction::SLAIndirectHL
        } else if y == 5 {
            Instruction::SRAIndirectHL
        } else if y == 6 {
            Instruction::SwapIndirectHL
        } else {
            Instruction::SRLIndirectHL
        }
    } else {
        if y == 0 {
            Instruction::RLC { src }
        } else if y == 1 {
            Instruction::RRC { src }
        } else if y == 2 {
            Instruction::RL { src }
        } else if y == 3 {
            Instruction::RR { src }
        } else if y == 4 {
            Instruction::SLA { src }
        } else if y == 5 {
            Instruction::SRA { src }
        } else if y == 6 {
            Instruction::Swap { src }
        } else {
            Instruction::SRL { src }
        }
    }
}

/// The instructions with opcodes 0x00..=0x3F.
pub open spec fn block0_instruction(op: u8, b1: u8, b2: u8) -> Instruction {
    let y = op_y(op);
    let z = op_z(op);
    let p = op_p(op);
    let imm16 = (b1 + 256 * b2) as u16;
    if z == 0 {
        if y == 0 {
            Instruction::NOP
        } else if y == 1 {
            Instruction::StoreSP16 { addr: imm16 }
        } else if y == 2 {
            Instruction::Stop { ignore: b1 }
        } else if y == 3 {
            Instruction::JR { offset: b1 as i8 }
        } else {
            Instruction::JRCC { cond: Cond::from_code((y - 4) as u8), offset: b1 as i8 }
        }
    } else if z == 1 {
        if op_q(op) == 0 {
            Instruction::LoadImm16 { dest: R16::from_code(p), imm: imm16 }
        } else {
            Instruction::Add16HL { src: R16::from_code(p) }
        }
    } else if z == 2 {
        if y == 0 {
            Instruction::StoreAccIndirectBC
        } else if y == 1 {
            Instruction::LoadAccIndirectBC
        } else if y == 2 {
            Instruction::StoreAccIndirectDE
        } else if y == 3 {
            Instruction::LoadAccIndirectDE
        } else if y == 4 {
            Instruction::StoreAccIndirectHLInc
        } else if y == 5 {
            Instruction::LoadAccIndirectHLInc
        } else if y == 6 {
            Instruction::StoreAccIndirectHLDec
        } else {
            Instruction::LoadAccIndirectHLDec
        }
    } else if z == 3 {
        if op_q(op) == 0 {
            Instruction::Inc16 { src: R16::from_code(p) }
        } else {
            Instruction::Dec16 { src: R16::from_code(p) }
        }
    } else if z == 4 {
        if y == 6 {
            Instruction::Inc8IndirectHL
        } else {
            Instruction::Inc8 { src: R8::from_code(y) }
        }
    } else if z == 5 {
        if y == 6 {
            Instruction::Dec8IndirectHL
        } else {
            Instruction::Dec8 { src: R8::from_code(y) }
        }
    } else if z == 6 {
        if y == 6 {
            Instruction::StoreImmIndirectHL { imm: b1 }
        } else {
            Instruction::LoadImm8 { dest: R8::from_code(y), imm: b1 }
        }
    } else {
        if y == 0 {
            Instruction::RLCA
        } else if y == 1 {
            Instruction::RRCA
        } else if y == 2 {
            Instruction::RLA
        } else if y == 3 {
            Instruction::RRA
        } else if y == 4 {
            Instruction::DecAdjAcc
        } else if y == 5 {
            Instruction::CmplAcc
        } else if y == 6 {
            Instruction::SetCarryFlag
        } else {
            Instruction::CmplCarryFlag
        }
    }
}

/// The instructions with opcodes 0x40..=0x7F: register-to-register loads,
/// loads through `(HL)`, and `HALT` in place of `LD (HL),(HL)`.
pub open spec fn block1_instruction(op: u8) -> Instruction {
    let y = op_y(op);
    let z = op_z(op);
    if op == 0x76 {
        Instruction::Halt
    } else if z == 6 {
        Instruction::LoadIndirectHL { dest: R8::from_code(y) }
    } else if y == 6 {
        Instruction::StoreIndirectHL { src: R8::from_code(z) }
    } else {
        Instruction::LoadReg8 { src: R8::from_code(z), dest: R8::from_code(y) }
    }
}

/// The instructions with opcodes 0xC0..=0xFF (other than the unknown ones).
pub open spec fn block3_instruction(op: u8, b1: u8, b2: u8) -> Instruction {
    let y = op_y(op);
    let z = op_z(op);
    let p = op_p(op);
    let imm16 = (b1 + 256 * b2) as u16;
    if z == 0 {
        if y < 4 {
            Instruction::RetCC { cond: Cond::from_code(y) }
        } else if y == 4 {
            Instruction::StoreAccDirect8 { offset: b1 }
        } else if y == 5 {
            Instruction::AddSPImm8 { imm: b1 as i8 }
        } else if y == 6 {
            Instruction::LoadAccDirect8 { offset: b1 }
        } else {
            Instruction::LoadHLSPOffset { offset: b1 as i8 }
        }
    } else if z == 1 {
        if op_q(op) == 0 {
            Instruction::Pop { dest: R16::from_stack_code(p) }
        } else if p == 0 {
            Instruction::Ret
        } else if p == 1 {
            Instruction::RetI
        } else if p == 2 {
            Instruction::JPHL
        } else {
            Instruction::LoadSPHL
        }
    } else if z == 2 {
        if y < 4 {
            Instruction::JPCC { cond: Cond::from_code(y), addr: imm16 }
        } else if y == 4 {
            Instruction::StoreAccIndirectC
        } else if y == 5 {
            Instruction::StoreAcc16 { addr: imm16 }
        } else if y == 6 {
            Instruction::LoadAccIndirectC
        } else {
            Instruction::LoadAcc16 { addr: imm16 }
        }
    } else if z == 3 {
        if y == 0 {
            Instruction::JP { addr: imm16 }
        } else if y == 1 {
            prefixed_instruction(b1)
        } else if y == 6 {
            Instruction::DI
        } else {
            Instruction::EI
        }
    } else if z == 4 {
        Instruction::CallCC { cond: Cond::from_code(y), addr: imm16 }
    } else if z == 5 {
        if op_q(op) == 0 {
            Instruction::Push { src: R16::from_stack_code(p) }
        } else {
            Instruction::Call { addr: imm16 }
        }
    } else if z == 6 {
        alu_immediate(y, b1)
    } else {
        Instruction::RST { addr: (y * 8) as u8 }
    }
}

/// The instruction whose opcode is `op`, given the two bytes that follow it;
/// only the bytes within [`instruction_length`] are read.
pub open spec fn instruction_of(op: u8, b1: u8, b2: u8) -> Instruction {
    let x = op_x(op);
    if x == 0 {
        block0_instruction(op, b1, b2)
    } else if x == 1 {
        block1_instruction(op)
    } else if x == 2 {
        if op_z(op) == 6 {
            alu_indirect(op_y(op))
        } else {
            alu_reg(op_y(op), R8::from_code(op_z(op)))
        }
    } else {
        block3_instruction(op, b1, b2)
    }
}

/// What decoding the start of `memory` gives: the instruction when the opcode
/// is known and all its bytes are present, `UnknownOpcode` for an unknown
/// opcode, and `MemoryOutOfBounds` when `memory` is empty or ends inside the
/// instruction.
pub open spec fn decoded(memory: Seq<u8>) -> Result<Instruction, DecodeError> {
    if memory.len() == 0 {
        Err(DecodeError::MemoryOutOfBounds)
    } else if is_unknown_opcode(memory[0]) {
        Err(DecodeError::UnknownOpcode)
    } else if memory.len() < instruction_length(memory[0]) {
        Err(DecodeError::MemoryOutOfBounds)
    } else {
        Ok(instruction_of(memory[0], memory[1], memory[2]))
    }
}

} // verus!

verus! {

/// How the opcode fields read by shifting and masking relate to division.
proof fn lemma_opcode_fields(op: u8)
    by (bit_vector)
    ensures
        (op >> 6u8) & 3u8 == op / 64,
        (op >> 5u8) & 7u8 == op / 32,
        (op >> 0u8) & 7u8 == op % 8,
        (op >> 3u8) & 31u8 == op / 8,
        (op >> 3u8) & 7u8 == (op / 8) % 8,
        (op >> 4u8) & 3u8 == (op / 16) % 4,
        (op >> 3u8) & 3u8 == (op / 8) % 4,
{
}

/// The little-endian word made of `lo` and `hi`.
fn le_word(lo: u8, hi: u8) -> (v: u16)
    ensures
        v == (lo + 256 * hi) as u16,
{
    lo as u16 + (hi as u16) * 256
}

impl Instruction {
    /// Decodes the instruction at the start of `memory`.
    pub fn decode(memory: &[u8]) -> (r: Result<Instruction, DecodeError>)
        ensures
            r == decoded(memory@),
    {
        if memory.len() == 0 {
            return Err(DecodeError::MemoryOutOfBounds);
        }
        let first_byte = memory[0];
        let b7_6 = extract_u8::<2>(first_byte, 6);
        let b7_5 = extract_u8::<3>(first_byte, 5);
        let b2_0 = extract_u8::<3>(first_byte, 0);
        let b7_3 = extract_u8::<5>(first_byte, 3);
        let b5_3 = extract_u8::<3>(first_byte, 3);
        let b5_4 = extract_u8::<2>(first_byte, 4);
        let b4_3 = extract_u8::<2>(first_byte, 3);
        proof {
            lemma_opcode_fields(first_byte);
        }
        if b7_6 == 0b11 && b2_0 == 0b111 {
            assert(b5_3 << 3u8 == b5_3 * 8) by (bit_vector)
                requires
                    b5_3 < 8,
            ;
            return Ok(Instruction::RST { addr: b5_3 << 3 });
        }
        if b7_5 == 0b110 && b2_0 == 0b000 {
            return Ok(Instruction::RetCC { cond: Cond::new(b4_3) });
        }
        if b7_5 == 0b110 && b2_0 == 0b100 {
            if memory.len() < 3 {
                return Err(DecodeError::MemoryOutOfBounds);
            }
            let addr = le_word(memory[1], memory[2]);
            return Ok(Instruction::CallCC { cond: Cond::new(b4_3), addr });
        }
        if b7_5 == 0b001 && b2_0 == 0b000 {
            if memory.len() < 2 {
                return Err(DecodeError::MemoryOutOfBounds);
            }
            return Ok(Instruction::JRCC { cond: Cond::new(b4_3), offset: memory[1] as i8 });
        }
        if b7_5 == 0b110 && b2_0 == 0b10 {
            if memory.len() < 3 {
                return Err(DecodeError::MemoryOutOfBounds);
            }
            let addr = le_word(memory[1], memory[2]);
            return Ok(Instruction::JPCC { cond: Cond::new(b4_3), addr });
        }
        Self::decode_unprefixed(memory, first_byte, b7_3, b7_6, b2_0, b5_3, b5_4)
    }

    /// Decodes the opcodes that the fixed patterns tried in `decode` do not
    /// cover, given the fields of the first byte.
    fn decode_unprefixed(
        memory: &[u8],
        first_byte: u8,
        b7_3: u8,
        b7_6: u8,
        b2_0: u8,
        b5_3: u8,
        b5_4: u8,
    ) -> (r: Result<Instruction, DecodeError>)
        requires
            memory@.len() > 0,
            first_byte == memory@[0],
            b7_3 == first_byte / 8,
            b7_6 == first_byte / 64,
            b2_0 == first_byte % 8,
            b5_3 == (first_byte / 8) % 8,
            b5_4 == (first_byte / 16) % 4,
            !(b7_6 == 3 && b2_0 == 7),
            !(first_byte / 32 == 6 && (b2_0 == 0 || b2_0 == 4 || b2_0 == 2)),
            !(first_byte / 32 == 1 && b2_0 == 0),
        ensures
            r == decoded(memory@),
    {
        match (first_byte, b7_3, b7_6, b2_0) {
            (0b0000_0000, _, _, _) => Ok(Instruction::NOP),
            (0b1111_1011, _, _, _) => Ok(Instruction::EI),
            (0b1111_0011, _, _, _) => Ok(Instruction::DI),
            (0b0001_0000, _, _, _) => {
                if memory.len() < 2 {
                    return Err(DecodeError::MemoryOutOfBounds);
                }
                Ok(Instruction::Stop { ignore: memory[1] })
            },
            (0b0111_0110, _, _, _) => Ok(Instruction::Halt),
            (0b1101_1001, _, _, _) => Ok(Instruction::RetI),
            (0b1100_1001, _, _, _) => Ok(Instruction::Ret),
            (0b1100_1101, _, _, _) => {
                if memory.len() < 3 {
                    return Err(DecodeError::MemoryOutOfBounds);
                }
                let addr = le_word(memory[1], memory[2]);
                Ok(Instruction::Call { addr })
            },
            (0b0001_1000, _, _, _) => {
                if memory.len() < 2 {
                    return Err(DecodeError::MemoryOutOfBounds);
                }
                Ok(Instruction::JR { offset: memory[1] as i8 })
            },
            (0b1110_1001, _, _, _) => Ok(Instruction::JPHL),
            (0xCB, _, _, _) => {
                if memory.len() < 2 {
                    return Err(DecodeError::MemoryOutOfBounds);
                }
                Self::decode_prefixed(memory[1])
            },
            _ => Self::decode_block(memory, first_byte, b7_3, b7_6, b2_0, b5_3, b5_4),
        }
    }

    /// Decodes the byte that follows the 0xCB prefix.
    fn decode_prefixed(prefixed_opcode: u8) -> (r: Result<Instruction, DecodeError>)
        ensures
            r == Ok::<Instruction, DecodeError>(prefixed_instruction(prefixed_opcode)),
    {
        let b7_6 = extract_u8::<2>(prefixed_opcode, 6);
        let b2_0 = extract_u8::<3>(prefixed_opcode, 0);
        let b7_3 = extract_u8::<5>(prefixed_opcode, 3);
        let b6_4 = extract_u8::<3>(prefixed_opcode, 3);
        proof {
            lemma_opcode_fields(prefixed_opcode);
        }
        if b7_6 == 0b11 {
            if b2_0 == 0b110 {
                return Ok(Instruction::SETIndirectHL { bit: b6_4 });
            } else {
                return Ok(Instruction::SET { src: R8::new(b2_0), bit: b6_4 });
            }
        } else if b7_6 == 0b10 {
            if b2_0 == 0b110 {
                return Ok(Instruction::RESIndirectHL { bit: b6_4 });
            } else {
                return Ok(Instruction::RES { src: R8::new(b2_0), bit: b6_4 });
            }
        } else if b7_6 == 0b01 {
            if b2_0 == 0b110 {
                return Ok(Instruction::BITIndirectHL { bit: b6_4 });
            } else {
                return Ok(Instruction::BIT { src: R8::new(b2_0), bit: b6_4 });
            }
        }
        let reg = R8::new(b2_0);
        let not_f = !matches!(reg, R8::F);
        match (prefixed_opcode, b7_3) {
            (0b0011_1110, _) => Ok(Instruction::SRLIndirectHL),
            (_, 0b0011_1) if not_f => Ok(Instruction::SRL { src: reg }),
            (0b0011_0110, _) => Ok(Instruction::SwapIndirectHL),
            (_, 0b0011_0) if not_f => Ok(Instruction::Swap { src: reg }),
            (0b0010_1110, _) => Ok(Instruction::SRAIndirectHL),
            (_, 0b0010_1) if not_f => Ok(Instruction::SRA { src: reg }),
            (0b0010_0110, _) => Ok(Instruction::SLAIndirectHL),
            (_, 0b0010_0) if not_f => Ok(Instruction::SLA { src: reg }),
            (0b0001_1110, _) => Ok(Instruction::RRIndirectHL),
            (_, 0b0001_1) if not_f => Ok(Instruction::RR { src: reg }),
            (0b0001_0110, _) => Ok(Instruction::RLIndirectHL),
            (_, 0b0001_0) if not_f => Ok(Instruction::RL { src: reg }),
            (0b0000_1110, _) => Ok(Instruction::RRCIndirectHL),
            (_, 0b0000_1) if not_f => Ok(Instruction::RRC { src: reg }),
            (0b0000_0110, _) => Ok(Instruction::RLCIndirectHL),
            (_, 0b0000_0) if not_f => Ok(Instruction::RLC { src: reg }),
            _ => Err(DecodeError::UnknownOpcode),
        }
    }
    /// Decodes the opcodes that neither the fixed patterns of `decode` nor the
    /// single-opcode instructions of `decode_unprefixed` cover.
    #[verifier::rlimit(40)]
    #[verifier::spinoff_prover]
    fn decode_block(
        memory: &[u8],
        first_byte: u8,
        b7_3: u8,
        b7_6: u8,
        b2_0: u8,
        b5_3: u8,
        b5_4: u8,
    ) -> (r: Result<Instruction, DecodeError>)
        requires
            memory@.len() > 0,
            first_byte == memory@[0],
            b7_3 == first_byte / 8,
            b7_6 == first_byte / 64,
            b2_0 == first_byte % 8,
            b5_3 == (first_byte / 8) % 8,
            b5_4 == (first_byte / 16) % 4,
            !(b7_6 == 3 && b2_0 == 7),
            !(first_byte / 32 == 6 && (b2_0 == 0 || b2_0 == 4 || b2_0 == 2)),
            !(first_byte / 32 == 1 && b2_0 == 0),
            first_byte != 0x00 && first_byte != 0xFB && first_byte != 0xF3 && first_byte != 0x10,
            first_byte != 0x76 && first_byte != 0xD9 && first_byte != 0xC9 && first_byte != 0xCD,
            first_byte != 0x18 && first_byte != 0xE9 && first_byte != 0xCB,
        ensures
            r == decoded(memory@),
    {
        match (first_byte, b7_3, b7_6, b2_0) {
            (0b1100_0011, _, _, _) => {
                if memory.len() < 3 {
                    return Err(DecodeError::MemoryOutOfBounds);
                }
                let addr = le_word(memory[1], memory[2]);
                Ok(Instruction::JP { addr })
            },
            (0b0001_1111, _, _, _) => Ok(Instruction::RRA),
            (0b0001_0111, _, _, _) => Ok(Instruction::RLA),
            (0b0000_1111, _, _, _) => Ok(Instruction::RRCA),
            (0b0000_0111, _, _, _) => Ok(Instruction::RLCA),
            (0b1110_1000, _, _, _) => {
                if memory.len() < 2 {
                    return Err(DecodeError::MemoryOutOfBounds);
                }
                Ok(Instruction::AddSPImm8 { imm: memory[1] as i8 })
            },
            (0b00_00_1001 | 0b00_01_1001 | 0b00_10_1001 | 0b00_11_1001, _, _, _) => {
                Ok(Instruction::Add16HL { src: R16::new(b5_4) })
            },
            (0b00_00_1011 | 0b00_01_1011 | 0b00_10_1011 | 0b00_11_1011, _, _, _) => {
                Ok(Instruction::Dec16 { src: R16::new(b5_4) })
            },
            (0b00_00_0011 | 0b00_01_0011 | 0b00_10_0011 | 0b00_11_0011, _, _, _) => {
                Ok(Instruction::Inc16 { src: R16::new(b5_4) })
            },
            (0b0010_1111, _, _, _) => Ok(Instruction::CmplAcc),
            (0b0010_0111, _, _, _) => Ok(Instruction::DecAdjAcc),
            (0b0011_0111, _, _, _) => Ok(Instruction::SetCarryFlag),
            (0b0011_1111, _, _, _) => Ok(Instruction::CmplCarryFlag),
            (0b1110_1110, _, _, _) => {
                if memory.len() < 2 {
                    return Err(DecodeError::MemoryOutOfBounds);
                }
                Ok(Instruction::XorImm8 { imm: memory[1] })
            },
            (0b1010_1110, _, _, _) => Ok(Instruction::Xor8IndirectHL),
            (_, 0b10101, _, _) => Ok(Instruction::Xor8 { src: R8::new(b2_0) }),
            (0b1111_0110, _, _, _) => {
                if memory.len() < 2 {
                    return Err(DecodeError::MemoryOutOfBounds);
                }
                Ok(Instruction::OrImm8 { imm: memory[1] })
            },
            (0b1011_0110, _, _, _) => Ok(Instruction::Or8IndirectHL),
            (_, 0b10110, _, _) => Ok(Instruction::Or8 { src: R8::new(b2_0) }),
            (0b1110_0110, _, _, _) => {
                if memory.len() < 2 {
                    return Err(DecodeError::MemoryOutOfBounds);
                }
                Ok(Instruction::AndImm8 { imm: memory[1] })
            },
            (0b1010_0110, _, _, _) => Ok(Instruction::And8IndirectHL),
            (_, 0b10100, _, _) => Ok(Instruction::And8 { src: R8::new(b2_0) }),
            (0b0011_0101, _, _, _) => Ok(Instruction::Dec8IndirectHL),
            (_, _, 0b00, 0b101) => Ok(Instruction::Dec8 { src: R8::new(b5_3) }),
            (0b0011_0100, _, _, _) => Ok(Instruction::Inc8IndirectHL),
            (_, _, 0b00, 0b100) => Ok(Instruction::Inc8 { src: R8::new(b5_3) }),
            (0b1111_1110, _, _, _) => {
                if memory.len() < 2 {
                    return Err(DecodeError::MemoryOutOfBounds);
                }
                Ok(Instruction::CmpImm8 { imm: memory[1] })
            },
            (0b1011_1110, _, _, _) => Ok(Instruction::Cmp8IndirectHL),
            (_, 0b10111, _, _) => Ok(Instruction::Cmp8 { src: R8::new(b2_0) }),
            (0b1101_1110, _, _, _) => {
                if memory.len() < 2 {
                    return Err(DecodeError::MemoryOutOfBounds);
                }
                Ok(Instruction::SubCImm8 { imm: memory[1] })
            },
            (0b1001_1110, _, _, _) => Ok(Instruction::SubC8IndirectHL),
            (_, 0b10011, _, _) => Ok(Instruction::SubC8 { src: R8::new(b2_0) }),
            (0b1101_0110, _, _, _) => {
                if memory.len() < 2 {
                    return Err(DecodeError::MemoryOutOfBounds);
                }
                Ok(Instruction::SubImm8 { imm: memory[1] })
            },
            (0b1001_0110, _, _, _) => Ok(Instruction::Sub8IndirectHL),
            (_, 0b10010, _, _) => Ok(Instruction::Sub8 { src: R8::new(b2_0) }),
            (0b1100_1110, _, _, _) => {
                if memory.len() < 2 {
                    return Err(DecodeError::MemoryOutOfBounds);
                }
                Ok(Instruction::AddCImm8 { imm: memory[1] })
            },
            (0b1000_1110, _, _, _) => Ok(Instruction::AddC8IndirectHL),
            (_, 0b10001, _, _) => Ok(Instruction::AddC8 { src: R8::new(b2_0) }),
            (0b1100_0110, _, _, _) => {
                if memory.len() < 2 {
                    return Err(DecodeError::MemoryOutOfBounds);
                }
                Ok(Instruction::AddImm8 { imm: memory[1] })
            },
            (0b1000_0110, _, _, _) => Ok(Instruction::Add8IndirectHL),
            (_, 0b10000, _, _) => Ok(Instruction::Add8 { src: R8::new(b2_0) }),
            (0b1111_1000, _, _, _) => {
                if memory.len() < 2 {
                    return Err(DecodeError::MemoryOutOfBounds);
                }
                Ok(Instruction::LoadHLSPOffset { offset: memory[1] as i8 })
            },
            (0b11_00_0001 | 0b11_01_0001 | 0b11_10_0001 | 0b11_11_0001, _, _, _) => {
                Ok(Instruction::Pop { dest: R16::stk(b5_4) })
            },
            (0b11_00_0101 | 0b11_01_0101 | 0b11_10_0101 | 0b11_11_0101, _, _, _) => {
                Ok(Instruction::Push { src: R16::stk(b5_4) })
            },
            (0b1111_1001, _, _, _) => Ok(Instruction::LoadSPHL),
            (0b0000_1000, _, _, _) => {
                if memory.len() < 3 {
                    return Err(DecodeError::MemoryOutOfBounds);
                }
                let addr = le_word(memory[1], memory[2]);
                Ok(Instruction::StoreSP16 { addr })
            },
            (0b00_00_0001 | 0b00_01_0001 | 0b00_10_0001 | 0b00_11_0001, _, _, _) => {
                if memory.len() < 3 {
                    return Err(DecodeError::MemoryOutOfBounds);
                }
                let imm = le_word(memory[1], memory[2]);
                Ok(Instruction::LoadImm16 { dest: R16::new(b5_4), imm })
            },
            (0b0010_1010, _, _, _) => Ok(Instruction::LoadAccIndirectHLInc),
            (0b0010_0010, _, _, _) => Ok(Instruction::StoreAccIndirectHLInc),
            (0b0011_1010, _, _, _) => Ok(Instruction::LoadAccIndirectHLDec),
            (0b0011_0010, _, _, _) => Ok(Instruction::StoreAccIndirectHLDec),
            (0b1110_0000, _, _, _) => {
                if memory.len() < 2 {
                    return Err(DecodeError::MemoryOutOfBounds);
                }
                Ok(Instruction::StoreAccDirect8 { offset: memory[1] })
            },
            (0b1111_0000, _, _, _) => {
                if memory.len() < 2 {
                    return Err(DecodeError::MemoryOutOfBounds);
                }
                Ok(Instruction::LoadAccDirect8 { offset: memory[1] })
            },
            (0b1110_0010, _, _, _) => Ok(Instruction::StoreAccIndirectC),
            (0b1111_0010, _, _, _) => Ok(Instruction::LoadAccIndirectC),
            (0b1110_1010, _, _, _) => {
                if memory.len() < 3 {
                    return Err(DecodeError::MemoryOutOfBounds);
                }
                let addr = le_word(memory[1], memory[2]);
                Ok(Instruction::StoreAcc16 { addr })
            },
            (0b1111_1010, _, _, _) => {
                if memory.len() < 3 {
                    return Err(DecodeError::MemoryOutOfBounds);
                }
                let addr = le_word(memory[1], memory[2]);
                Ok(Instruction::LoadAcc16 { addr })
            },
            (0b0001_0010, _, _, _) => Ok(Instruction::StoreAccIndirectDE),
            (0b0000_0010, _, _, _) => Ok(Instruction::StoreAccIndirectBC),
            (0b0001_1010, _, _, _) => Ok(Instruction::LoadAccIndirectDE),
            (0b0000_1010, _, _, _) => Ok(Instruction::LoadAccIndirectBC),
            (0b0011_0110, _, _, _) => {
                if memory.len() < 2 {
                    return Err(DecodeError::MemoryOutOfBounds);
                }
                Ok(Instruction::StoreImmIndirectHL { imm: memory[1] })
            },
            (_, 0b01110, _, _) => Ok(Instruction::StoreIndirectHL { src: R8::new(b2_0) }),
            (_, _, 0b01, 0b110) => Ok(Instruction::LoadIndirectHL { dest: R8::new(b5_3) }),
            (_, _, 0b01, _) => Ok(Instruction::LoadReg8 { src: R8::new(b2_0), dest: R8::new(b5_3) }),
            (_, _, 0b00, 0b110) => {
                if memory.len() < 2 {
                    return Err(DecodeError::MemoryOutOfBounds);
                }
                Ok(Instruction::LoadImm8 { dest: R8::new(b5_3), imm: memory[1] })
            },
            _ => Err(DecodeError::UnknownOpcode),
        }
    }
}

} // verus!
