use squaregb::Flag::{Carry, HalfCarryBCD, SubBCD, Zero};
use squaregb::R16::{AF, BC, DE, HL, SP};
use squaregb::R8::{A, B, C, D, E, F, H, L};
use squaregb::{say_hello, Cond, DecodeError, Instruction, Machine, R16, R8};

#[test]
fn it_starts_with_everything_zero() {
    let machine = Machine::new();
    assert_eq!(machine.get_pc(), 0);
    for reg in [A, B, C, D, E, F, H, L] {
        assert_eq!(machine.get_r8(reg), 0);
    }
    assert_eq!(machine.get_r16(SP), 0);
    assert_eq!(machine.get_mem8(0x0000), 0);
    assert_eq!(machine.get_mem8(0xFFFF), 0);
}

#[test]
fn it_reads_back_a_written_pair() {
    for pair in [BC, DE, HL, AF, SP] {
        let mut machine = Machine::new();
        machine.set_r8(B, 0x11);
        machine.set_r8(H, 0x22);
        machine.set_r16(pair, 0xBEEF);
        assert_eq!(machine.get_r16(pair), 0xBEEF);
        if pair != BC {
            assert_eq!(machine.get_r8(B), 0x11);
        }
        if pair != HL {
            assert_eq!(machine.get_r8(H), 0x22);
        }
    }
}

#[test]
fn it_reads_back_a_written_word() {
    let mut machine = Machine::new();
    machine.set_mem16(0xFFFE, 0x1234);
    assert_eq!(machine.get_mem16(0xFFFE), 0x1234);
    assert_eq!(machine.get_mem8(0xFFFE), 0x34);
    assert_eq!(machine.get_mem8(0xFFFF), 0x12);
}

#[test]
fn it_keeps_other_flags_when_assigning_one() {
    let mut machine = Machine::new();
    machine.set_r8(F, 0b1010_0101);
    machine.assign_flag(SubBCD, true);
    assert_eq!(machine.get_r8(F), 0b1110_0101);
    machine.assign_flag(Zero, false);
    assert_eq!(machine.get_r8(F), 0b0110_0101);
    assert!(machine.get_flag(SubBCD));
    assert!(machine.get_flag(HalfCarryBCD));
    assert!(!machine.get_flag(Carry));
}

#[test]
fn it_pops_what_it_pushed() {
    let mut machine = Machine::new();
    machine.set_sp(0x8000);
    machine.set_r16(DE, 0xCAFE);
    machine.exec(Instruction::Push { src: DE });
    machine.exec(Instruction::Pop { dest: HL });
    assert_eq!(machine.get_r16(HL), 0xCAFE);
    assert_eq!(machine.get_r16(SP), 0x8000);
    assert_eq!(machine.get_pc(), 2);
}

#[test]
fn it_undoes_inc16_with_dec16() {
    for value in [0x0000u16, 0x00FF, 0xFFFF] {
        let mut machine = Machine::new();
        machine.set_r16(BC, value);
        machine.exec(Instruction::Inc16 { src: BC });
        machine.exec(Instruction::Dec16 { src: BC });
        assert_eq!(machine.get_r16(BC), value);
        assert_eq!(machine.get_pc(), 2);
    }
}

#[test]
fn it_ignores_bytes_after_the_instruction() {
    let short = [0xFA, 0x34, 0x12];
    let long = [0xFA, 0x34, 0x12, 0x99, 0x00];
    assert_eq!(Instruction::decode(&short), Instruction::decode(&long));
    assert_eq!(Instruction::decode(&short), Ok(Instruction::LoadAcc16 { addr: 0x1234 }));
}

#[test]
fn it_reports_unknown_opcode_before_missing_bytes() {
    assert_eq!(Instruction::decode(&[0xDD]), Err(DecodeError::UnknownOpcode));
    assert_eq!(Instruction::decode(&[0xCB]), Err(DecodeError::MemoryOutOfBounds));
    assert_eq!(Instruction::decode(&[0xC3, 0x00]), Err(DecodeError::MemoryOutOfBounds));
}

#[test]
fn it_skips_the_decoded_bytes_when_executing() {
    let memory = [0xC6, 0x05];
    let ins = Instruction::decode(&memory).unwrap();
    let mut machine = Machine::new();
    machine.set_pc(0x0100);
    machine.exec(ins);
    assert_eq!(machine.get_pc(), 0x0102);
    assert_eq!(machine.get_r8(A), 0x05);
}

#[test]
fn it_moves_one_byte_after_an_8_bit_immediate_load() {
    let memory = [0x06, 0x2A];
    let ins = Instruction::decode(&memory).unwrap();
    assert_eq!(ins, Instruction::LoadImm8 { dest: B, imm: 0x2A });
    let mut machine = Machine::new();
    machine.exec(ins);
    assert_eq!(machine.get_pc(), 1);
    assert_eq!(machine.get_r8(B), 0x2A);
}

#[test]
fn it_decodes_register_and_condition_fields() {
    assert_eq!(R8::new(7), A);
    assert_eq!(R8::new(6), F);
    assert_eq!(R16::new(3), SP);
    assert_eq!(R16::stk(3), AF);
    assert_eq!(Cond::new(2), Cond::NCARRY);
    assert_eq!(<Cond as Into<u8>>::into(Cond::Z), 1);
    assert_eq!(<squaregb::Flag as Into<u8>>::into(HalfCarryBCD), 5);
}

#[test]
fn it_adds_with_twelve_bit_half_carry() {
    let mut machine = Machine::new();
    machine.set_r16(HL, 0x0FFF);
    machine.set_r16(DE, 0x0001);
    machine.exec(Instruction::Add16HL { src: DE });
    assert_eq!(machine.get_r16(HL), 0x1000);
    assert!(machine.get_flag(HalfCarryBCD));
    assert!(!machine.get_flag(Carry));
}

#[test]
fn it_subtracts_with_half_borrow() {
    let mut machine = Machine::new();
    machine.set_r8(A, 0x10);
    machine.exec(Instruction::SubImm8 { imm: 0x01 });
    assert_eq!(machine.get_r8(A), 0x0F);
    assert!(machine.get_flag(HalfCarryBCD));
    assert!(machine.get_flag(SubBCD));
    assert!(!machine.get_flag(Carry));
}

#[test]
fn it_copies_a_block_into_memory() {
    let mut machine = Machine::new();
    machine.set_memory(0xFFFD, &[1, 2, 3]);
    assert_eq!(machine.get_mem8(0xFFFC), 0);
    assert_eq!(machine.get_mem8(0xFFFD), 1);
    assert_eq!(machine.get_mem8(0xFFFF), 3);
}

#[test]
fn it_greets() {
    assert_eq!(say_hello(), "Hello, World!");
}

#[test]
fn it_runs_in_one_call_what_it_runs_in_several() {
    let binary = [0x06, 0x06, 0x3E, 0x04, 0x80];
    let mut once = Machine::new();
    once.set_memory(0x0, &binary);
    assert_eq!(once.eval(3), 3);
    let mut thrice = Machine::new();
    thrice.set_memory(0x0, &binary);
    assert_eq!(thrice.eval(1) + thrice.eval(1) + thrice.eval(1), 3);
    assert_eq!(once.get_r8(A), thrice.get_r8(A));
    assert_eq!(once.get_r8(A), 10);
    assert_eq!(once.get_pc(), 5);
    assert_eq!(thrice.get_pc(), 5);
}

#[test]
fn it_stops_at_an_instruction_it_cannot_carry_out() {
    let binary = [0x3C, 0x18, 0xFE];
    let mut machine = Machine::new();
    machine.set_memory(0x0, &binary);
    assert_eq!(machine.eval(10), 1);
    assert_eq!(machine.get_r8(A), 1);
    assert_eq!(machine.get_pc(), 1);
    assert_eq!(machine.eval(10), 0);
    assert_eq!(machine.get_pc(), 1);
}

#[test]
fn it_runs_until_the_target_pc() {
    let binary = [0x3C, 0x3C, 0x3C, 0x3C];
    let mut machine = Machine::new();
    machine.set_memory(0x0, &binary);
    assert_eq!(machine.run_until_pc(2, 100), 2);
    assert_eq!(machine.get_r8(A), 2);
    assert_eq!(machine.get_pc(), 2);
}
