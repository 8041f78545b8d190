use squaregb::Cond::{CARRY, NCARRY, NZ, Z};
use squaregb::R16::{AF, BC, DE, HL, SP};
use squaregb::R8::{A, B, C, D, E, H, L};
use squaregb::{Cond, DecodeError, Instruction, R16, R8};

fn it_decodes_load_reg_opcode_case(src: R8, dest: R8) {
    // 0b01_xxx_yyy
    let opcode: u8 =
        0b01_000_000 | (<R8 as Into<u8>>::into(dest) << 3) | <R8 as Into<u8>>::into(src);

    let memory = [opcode];
    let decoded = Instruction::decode(&memory).expect("LoadReg should decode");

    assert_eq!(decoded, Instruction::LoadReg8 { src, dest });
}

#[test]
fn it_decodes_load_reg_opcode() {
    for a0 in [A, B, C, D, E, H, L] {
        let a0: R8 = a0;
        for a1 in [A, B, C, D, E, H, L] {
            let a1: R8 = a1;
            it_decodes_load_reg_opcode_case(a0, a1);
        }
    }
}

fn it_decodes_load_imm_opcode_case(dest: R8) {
    // 0b00_xxx_110, <1-byte imm>
    let opcode: u8 = 0b00_000_110 | (<R8 as Into<u8>>::into(dest) << 3);
    let memory = [opcode, 0b0000_0001];
    let decoded = Instruction::decode(&memory).expect("LoadImm should decode");

    assert_eq!(decoded, Instruction::LoadImm8 { dest, imm: 1 });
}

#[test]
fn it_decodes_load_imm_opcode() {
    for a0 in [B, C, D, E, H, L, A] {
        let a0: R8 = a0;
        it_decodes_load_imm_opcode_case(a0);
    }
}

fn it_decodes_load_indirect_hl_opcode_case(dest: R8) {
    // 0b01_xxx_110
    let opcode: u8 = 0b01_000_110 | (<R8 as Into<u8>>::into(dest) << 3);
    let memory = [opcode];
    let decoded = Instruction::decode(&memory).expect("LoadIndirectHL should decode");

    assert_eq!(decoded, Instruction::LoadIndirectHL { dest });
}

#[test]
fn it_decodes_load_indirect_hl_opcode() {
    for a0 in [B, C, D, E, H, L, A] {
        let a0: R8 = a0;
        it_decodes_load_indirect_hl_opcode_case(a0);
    }
}

fn it_decodes_store_indirect_hl_opcode_case(src: R8) {
    // 0b01110_xxx
    let opcode: u8 = 0b01110_000 | <R8 as Into<u8>>::into(src);
    let memory = [opcode];
    let decoded = Instruction::decode(&memory).expect("StoreIndirectHL should decode");

    assert_eq!(decoded, Instruction::StoreIndirectHL { src });
}

#[test]
fn it_decodes_store_indirect_hl_opcode() {
    for a0 in [B, C, D, E, H, L, A] {
        let a0: R8 = a0;
        it_decodes_store_indirect_hl_opcode_case(a0);
    }
}

#[test]
fn it_decodes_store_immediate_indirect_hl_opcode() {
    // 0b0011_0110
    let memory = [0b0011_0110, 0b0000_0001];
    let decoded = Instruction::decode(&memory).expect("StoreImmediateIndirectHL should decode");

    assert_eq!(decoded, Instruction::StoreImmIndirectHL { imm: 1 });
}

#[test]
fn it_decodes_load_acc_indirect_bc_opcode() {
    //0b0000_1010
    let memory = [0b0000_1010];
    let decoded = Instruction::decode(&memory).expect("LoadAccIndirectBC should decode");

    assert_eq!(decoded, Instruction::LoadAccIndirectBC {});
}

#[test]
fn it_decodes_load_acc_indirect_de_opcode() {
    //0b0001_1010
    let memory = [0b0001_1010];
    let decoded = Instruction::decode(&memory).expect("LoadAccIndirectDE should decode");

    assert_eq!(decoded, Instruction::LoadAccIndirectDE {});
}

#[test]
fn it_decodes_store_acc_indirect_bc_opcode() {
    //0b0000_0010
    let memory = [0b0000_0010];
    let decoded = Instruction::decode(&memory).expect("StoreAccIndirectBC should decode");

    assert_eq!(decoded, Instruction::StoreAccIndirectBC {});
}

#[test]
fn it_decodes_store_acc_indirect_de_opcode() {
    //0b0001_0010
    let memory = [0b0001_0010];
    let decoded = Instruction::decode(&memory).expect("StoreAccIndirectDE should decode");

    assert_eq!(decoded, Instruction::StoreAccIndirectDE {});
}

#[test]
fn it_decodes_load_acc() {
    //0b1111_1010
    let memory = [0b1111_1010, 0b0000_1111, 0b1111_0000];
    let decoded = Instruction::decode(&memory).expect("LoadAcc should decode");

    assert_eq!(decoded, Instruction::LoadAcc16 { addr: 0xF00F });
}

#[test]
fn it_decodes_store_acc() {
    //0b1110_1010
    let memory = [0b1110_1010, 0b0000_1111, 0b1111_0000];
    let decoded = Instruction::decode(&memory).expect("LoadAcc should decode");

    assert_eq!(decoded, Instruction::StoreAcc16 { addr: 0xF00F });
}

#[test]
fn it_decodes_load_acc_indirect_c() {
    //0b1111_00010
    let memory = [0b1111_0010];
    let decoded = Instruction::decode(&memory).expect("LoadAccIndirectC should decode");

    assert_eq!(decoded, Instruction::LoadAccIndirectC);
}

#[test]
fn it_decodes_store_acc_indirect_c() {
    //0b1110_0010
    let memory = [0b1110_0010];
    let decoded = Instruction::decode(&memory).expect("StoreAccIndirectC should decode");

    assert_eq!(decoded, Instruction::StoreAccIndirectC);
}

#[test]
fn it_decodes_load_acc_direct_8() {
    //0b1111_0000
    let memory = [0b1111_0000, 0b0000_0001];
    let decoded = Instruction::decode(&memory).expect("LoadAccDirect8 should decode");

    assert_eq!(decoded, Instruction::LoadAccDirect8 { offset: 1 });
}

#[test]
fn it_decodes_store_acc_direct_8() {
    //0b1110_0000
    let memory = [0b1110_0000, 0b0000_0001];
    let decoded = Instruction::decode(&memory).expect("StoreAccDirect8 should decode");

    assert_eq!(decoded, Instruction::StoreAccDirect8 { offset: 1 });
}

#[test]
fn it_decodes_load_acc_indirect_hl_dec() {
    //0b0011_1010
    let memory = [0b0011_1010];
    let decoded = Instruction::decode(&memory).expect("LoadAccIndirectHLDec should decode");

    assert_eq!(decoded, Instruction::LoadAccIndirectHLDec);
}

#[test]
fn it_decodes_store_acc_indirect_hl_dec() {
    //0b0011_0010
    let memory = [0b0011_0010];
    let decoded = Instruction::decode(&memory).expect("StoreAccIndirectHLDec should decode");

    assert_eq!(decoded, Instruction::StoreAccIndirectHLDec);
}

#[test]
fn it_decodes_load_acc_indirect_hl_inc() {
    // 0b0010_1010
    let memory = [0b0010_1010];
    let decoded = Instruction::decode(&memory).expect("LoadAccIndirectHLInc should decode");

    assert_eq!(decoded, Instruction::LoadAccIndirectHLInc);
}

#[test]
fn it_decodes_store_acc_indirect_hl_inc() {
    //0b0011_1010
    let memory = [0b0010_0010];
    let decoded = Instruction::decode(&memory).expect("LoadAccIndirectHLInc should decode");

    assert_eq!(decoded, Instruction::StoreAccIndirectHLInc);
}

fn it_decodes_load_imm_16_case(dest: R16) {
    // 0b00_xx_0001
    let opcode = 0b00_00_0001 + (<R16 as Into<u8>>::into(dest) << 4);
    let memory = [opcode, 0b1111_0000, 0b0000_1111];
    let decoded = Instruction::decode(&memory).expect("LoadImm16 should decode");

    assert_eq!(decoded, Instruction::LoadImm16 { dest, imm: 0x0FF0 });
}

#[test]
fn it_decodes_load_imm_16() {
    for a0 in [BC, DE, HL, SP] {
        let a0: R16 = a0;
        it_decodes_load_imm_16_case(a0);
    }
}

#[test]
fn it_decodes_store_sp_16() {
    // 0b0000_1000
    let memory = [0b0000_1000, 0b1111_0000, 0b0000_1111];
    let decoded = Instruction::decode(&memory).expect("StoreSP16");

    assert_eq!(decoded, Instruction::StoreSP16 { addr: 0x0FF0 });
}

#[test]
fn it_decodes_load_sp_hl() {
    // 0b1111_1001
    let memory = [0b1111_1001];
    let decoded = Instruction::decode(&memory).expect("LoadSPHL");

    assert_eq!(decoded, Instruction::LoadSPHL);
}

fn it_decodes_push_case(src: R16) {
    // 0b11_xx_0101
    let opcode = 0b11_00_0101 + (<R16 as Into<u8>>::into(src) << 4);
    let memory = [opcode];
    let decoded = Instruction::decode(&memory).expect("Push");

    assert_eq!(decoded, Instruction::Push { src });
}

#[test]
fn it_decodes_push() {
    for a0 in [BC, DE, HL, AF] {
        let a0: R16 = a0;
        it_decodes_push_case(a0);
    }
}

fn it_decodes_pop_case(dest: R16) {
    // 0b11_xx_0001
    let opcode = 0b11_00_0001 + (<R16 as Into<u8>>::into(dest) << 4);
    let memory = [opcode];
    let decoded = Instruction::decode(&memory).expect("Pop");

    assert_eq!(decoded, Instruction::Pop { dest });
}

#[test]
fn it_decodes_pop() {
    for a0 in [BC, DE, HL, AF] {
        let a0: R16 = a0;
        it_decodes_pop_case(a0);
    }
}

#[test]
fn it_decodes_load_hl_sp_offset() {
    // 0b1111_1000
    let memory = [0b1111_1000, 0b0000_0001];
    let decoded = Instruction::decode(&memory).expect("LoadHLSPOffset");

    assert_eq!(decoded, Instruction::LoadHLSPOffset { offset: 1 });
}

fn it_decodes_add_8_case(src: R8) {
    // 0b10000_xxx
    let opcode = 0b10000_000 + (<R8 as Into<u8>>::into(src) << 0);
    let memory = [opcode];
    let decoded = Instruction::decode(&memory).expect("Add8");

    assert_eq!(decoded, Instruction::Add8 { src });
}

#[test]
fn it_decodes_add_8() {
    for a0 in [B, C, D, E, H, L, A] {
        let a0: R8 = a0;
        it_decodes_add_8_case(a0);
    }
}

#[test]
fn it_decodes_add8_indirect_hl() {
    // 0b1000_0110
    let memory = [0b1000_0110];
    let decoded = Instruction::decode(&memory).expect("Add8IndirectHL");

    assert_eq!(decoded, Instruction::Add8IndirectHL);
}

#[test]
fn it_decodes_add_imm_8() {
    //0b1100_0110
    let memory = [0b1100_0110, 0b0000_0001];
    let decoded = Instruction::decode(&memory).expect("AddImm8");
    assert_eq!(decoded, Instruction::AddImm8 { imm: 1 });
}

fn it_decodes_addc_8_case(src: R8) {
    //0b10001_xxx
    let opcode = 0b10001_000 + <R8 as Into<u8>>::into(src);
    let memory = [opcode];
    let decoded = Instruction::decode(&memory).expect("AddC8");
    assert_eq!(decoded, Instruction::AddC8 { src });
}

#[test]
fn it_decodes_addc_8() {
    for a0 in [B, C, D, E, H, L, A] {
        let a0: R8 = a0;
        it_decodes_addc_8_case(a0);
    }
}

#[test]
fn it_decodes_addc8_indirect_hl() {
    // 0b1000_1110
    let memory = [0b1000_1110];
    let decoded = Instruction::decode(&memory).expect("AddC8IndirectHL");

    assert_eq!(decoded, Instruction::AddC8IndirectHL);
}

#[test]
fn it_decodes_addc_imm_8() {
    //0b1100_0110
    let memory = [0b1100_1110, 0b0000_0001];
    let decoded = Instruction::decode(&memory).expect("AddCImm8");
    assert_eq!(decoded, Instruction::AddCImm8 { imm: 1 });
}

fn it_decodes_sub_8_case(src: R8) {
    // 0b10010_xxx
    let opcode = 0b10010_000 + (<R8 as Into<u8>>::into(src) << 0);
    let memory = [opcode];
    let decoded = Instruction::decode(&memory).expect("Sub8");

    assert_eq!(decoded, Instruction::Sub8 { src });
}

#[test]
fn it_decodes_sub_8() {
    for a0 in [B, C, D, E, H, L, A] {
        let a0: R8 = a0;
        it_decodes_sub_8_case(a0);
    }
}

#[test]
fn it_decodes_sub8_indirect_hl() {
    // 0b1001_0110
    let memory = [0b1001_0110];
    let decoded = Instruction::decode(&memory).expect("Sub8IndirectHL");

    assert_eq!(decoded, Instruction::Sub8IndirectHL);
}

#[test]
fn it_decodes_sub_imm_8() {
    //0b1101_0110
    let memory = [0b1101_0110, 0b0000_0001];
    let decoded = Instruction::decode(&memory).expect("SubImm8");
    assert_eq!(decoded, Instruction::SubImm8 { imm: 1 });
}

fn it_decodes_subc_8_case(src: R8) {
    //0b10011_xxx
    let opcode = 0b10011_000 + <R8 as Into<u8>>::into(src);
    let memory = [opcode];
    let decoded = Instruction::decode(&memory).expect("SubC8");
    assert_eq!(decoded, Instruction::SubC8 { src });
}

#[test]
fn it_decodes_subc_8() {
    for a0 in [B, C, D, E, H, L, A] {
        let a0: R8 = a0;
        it_decodes_subc_8_case(a0);
    }
}

#[test]
fn it_decodes_subc8_indirect_hl() {
    // 0b1001_1110
    let memory = [0b1001_1110];
    let decoded = Instruction::decode(&memory).expect("SubC8IndirectHL");

    assert_eq!(decoded, Instruction::SubC8IndirectHL);
}

#[test]
fn it_decodes_subc_imm_8() {
    //0b1101_0110
    let memory = [0b1101_1110, 0b0000_0001];
    let decoded = Instruction::decode(&memory).expect("SubCImm8");
    assert_eq!(decoded, Instruction::SubCImm8 { imm: 1 });
}

fn it_decodes_cmp_8_case(src: R8) {
    // 0b10111_xxx
    let opcode = 0b10111_000 + (<R8 as Into<u8>>::into(src) << 0);
    let memory = [opcode];
    let decoded = Instruction::decode(&memory).expect("Cmp8");

    assert_eq!(decoded, Instruction::Cmp8 { src });
}

#[test]
fn it_decodes_cmp_8() {
    for a0 in [B, C, D, E, H, L, A] {
        let a0: R8 = a0;
        it_decodes_cmp_8_case(a0);
    }
}

#[test]
fn it_decodes_cmp8_indirect_hl() {
    // 0b1011_1110
    let memory = [0b1011_1110];
    let decoded = Instruction::decode(&memory).expect("Cmp8IndirectHL");

    assert_eq!(decoded, Instruction::Cmp8IndirectHL);
}

#[test]
fn it_decodes_cmp_imm_8() {
    //0b1111_1110
    let memory = [0b1111_1110, 0b0000_0001];
    let decoded = Instruction::decode(&memory).expect("CmpImm8");
    assert_eq!(decoded, Instruction::CmpImm8 { imm: 1 });
}

fn it_decodes_inc8_case(src: R8) {
    //0b00_xxx_100
    let opcode = 0b00_000_100 + (<R8 as Into<u8>>::into(src) << 3);
    let memory = [opcode];
    let decoded = Instruction::decode(&memory).expect("Inc8");
    assert_eq!(decoded, Instruction::Inc8 { src });
}

#[test]
fn it_decodes_inc8() {
    for a0 in [B, C, D, E, H, L, A] {
        let a0: R8 = a0;
        it_decodes_inc8_case(a0);
    }
}

#[test]
fn it_decodes_inc8_indirect_hl() {
    // 0b0011_0100
    let memory = [0b0011_0100];
    let decoded = Instruction::decode(&memory).expect("Inc8IndirectHL");

    assert_eq!(decoded, Instruction::Inc8IndirectHL);
}

fn it_decodes_dec8_case(src: R8) {
    //0b00_xxx_101
    let opcode = 0b00_000_101 + (<R8 as Into<u8>>::into(src) << 3);
    let memory = [opcode];
    let decoded = Instruction::decode(&memory).expect("Dec8");
    assert_eq!(decoded, Instruction::Dec8 { src });
}

#[test]
fn it_decodes_dec8() {
    for a0 in [B, C, D, E, H, L, A] {
        let a0: R8 = a0;
        it_decodes_dec8_case(a0);
    }
}

#[test]
fn it_decodes_dec8_indirect_hl() {
    // 0b0011_0101
    let memory = [0b0011_0101];
    let decoded = Instruction::decode(&memory).expect("Dec8IndirectHL");

    assert_eq!(decoded, Instruction::Dec8IndirectHL);
}

fn it_decodes_and_8_case(src: R8) {
    // 0b10100_xxx
    let opcode = 0b10100_000 + (<R8 as Into<u8>>::into(src) << 0);
    let memory = [opcode];
    let decoded = Instruction::decode(&memory).expect("And8");

    assert_eq!(decoded, Instruction::And8 { src });
}

#[test]
fn it_decodes_and_8() {
    for a0 in [B, C, D, E, H, L, A] {
        let a0: R8 = a0;
        it_decodes_and_8_case(a0);
    }
}

#[test]
fn it_decodes_and8_indirect_hl() {
    // 0b1010_0110
    let memory = [0b1010_0110];
    let decoded = Instruction::decode(&memory).expect("And8IndirectHL");

    assert_eq!(decoded, Instruction::And8IndirectHL);
}

#[test]
fn it_decodes_and_imm_8() {
    //0b1110_0110
    let memory = [0b1110_0110, 0b0000_0001];
    let decoded = Instruction::decode(&memory).expect("AndImm8");
    assert_eq!(decoded, Instruction::AndImm8 { imm: 1 });
}

fn it_decodes_or_8_case(src: R8) {
    // 0b10110_xxx
    let opcode = 0b10110_000 + (<R8 as Into<u8>>::into(src) << 0);
    let memory = [opcode];
    let decoded = Instruction::decode(&memory).expect("Or8");

    assert_eq!(decoded, Instruction::Or8 { src });
}

#[test]
fn it_decodes_or_8() {
    for a0 in [B, C, D, E, H, L, A] {
        let a0: R8 = a0;
        it_decodes_or_8_case(a0);
    }
}

#[test]
fn it_decodes_or8_indirect_hl() {
    // 0b1011_0110
    let memory = [0b1011_0110];
    let decoded = Instruction::decode(&memory).expect("Or8IndirectHL");

    assert_eq!(decoded, Instruction::Or8IndirectHL);
}

#[test]
fn it_decodes_or_imm_8() {
    //0b1111_0110
    let memory = [0b1111_0110, 0b0000_0001];
    let decoded = Instruction::decode(&memory).expect("OrImm8");
    assert_eq!(decoded, Instruction::OrImm8 { imm: 1 });
}

fn it_decodes_xor_8_case(src: R8) {
    // 0b10101_xxx
    let opcode = 0b10101_000 + (<R8 as Into<u8>>::into(src) << 0);
    let memory = [opcode];
    let decoded = Instruction::decode(&memory).expect("Xor8");

    assert_eq!(decoded, Instruction::Xor8 { src });
}

#[test]
fn it_decodes_xor_8() {
    for a0 in [B, C, D, E, H, L, A] {
        let a0: R8 = a0;
        it_decodes_xor_8_case(a0);
    }
}

#[test]
fn it_decodes_xor8_indirect_hl() {
    // 0b1010_1110
    let memory = [0b1010_1110];
    let decoded = Instruction::decode(&memory).expect("Xor8IndirectHL");

    assert_eq!(decoded, Instruction::Xor8IndirectHL);
}

#[test]
fn it_decodes_xor_imm_8() {
    //0b1110_1110
    let memory = [0b1110_1110, 0b0000_0001];
    let decoded = Instruction::decode(&memory).expect("XorImm8");
    assert_eq!(decoded, Instruction::XorImm8 { imm: 1 });
}

#[test]
fn it_decodes_ccf() {
    //0b0011_1111
    let memory = [0b0011_1111];
    let decoded = Instruction::decode(&memory).expect("CCF");
    assert_eq!(decoded, Instruction::CmplCarryFlag);
}

#[test]
fn it_decodes_scf() {
    //0b0011_0111
    let memory = [0b0011_0111];
    let decoded = Instruction::decode(&memory).expect("SCF");
    assert_eq!(decoded, Instruction::SetCarryFlag);
}

#[test]
fn it_decodes_daa() {
    //0b0010_0111
    let memory = [0b0010_0111];
    let decoded = Instruction::decode(&memory).expect("DAA");
    assert_eq!(decoded, Instruction::DecAdjAcc);
}

#[test]
fn it_decodes_cpl() {
    //0b0010_1111
    let memory = [0b0010_1111];
    let decoded = Instruction::decode(&memory).expect("CPL");
    assert_eq!(decoded, Instruction::CmplAcc);
}

fn it_decodes_inc16_case(reg_pair: R16) {
    //0b00_xx_0011
    let opcode = 0b00_00_0011 + (<R16 as Into<u8>>::into(reg_pair) << 4);
    let memory = [opcode];
    let decoded = Instruction::decode(&memory).expect("Inc16");
    assert_eq!(decoded, Instruction::Inc16 { src: reg_pair });
}

#[test]
fn it_decodes_inc16() {
    for a0 in [BC, DE, HL, SP] {
        let a0: R16 = a0;
        it_decodes_inc16_case(a0);
    }
}

fn it_decodes_dec16_case(reg_pair: R16) {
    //0b00_xx_1011
    let opcode = 0b00_00_1011 + (<R16 as Into<u8>>::into(reg_pair) << 4);
    let memory = [opcode];
    let decoded = Instruction::decode(&memory).expect("Dec16");
    assert_eq!(decoded, Instruction::Dec16 { src: reg_pair });
}

#[test]
fn it_decodes_dec16() {
    for a0 in [BC, DE, HL, SP] {
        let a0: R16 = a0;
        it_decodes_dec16_case(a0);
    }
}

fn it_decodes_add16_hl_case(reg_pair: R16) {
    //0b00_xx_1001
    let opcode: u8 = 0b00_00_1001 + (<R16 as Into<u8>>::into(reg_pair) << 4);
    let memory = [opcode];
    let decoded = Instruction::decode(&memory).expect("Add16HL");
    assert_eq!(decoded, Instruction::Add16HL { src: reg_pair });
}

#[test]
fn it_decodes_add16_hl() {
    for a0 in [BC, DE, HL, SP] {
        let a0: R16 = a0;
        it_decodes_add16_hl_case(a0);
    }
}

#[test]
fn it_decodes_add_sp_imm8() {
    //0b1110_1000
    let memory = [0b1110_1000, 0b0000_0001];
    let decoded = Instruction::decode(&memory).expect("AddSPImm8");
    assert_eq!(decoded, Instruction::AddSPImm8 { imm: 1 });
}

#[test]
fn it_decodes_rlca() {
    //0b0000_0111
    let memory = [0b0000_0111];
    let decoded = Instruction::decode(&memory).expect("RLCA");
    assert_eq!(decoded, Instruction::RLCA);
}

#[test]
fn it_decodes_rrca() {
    //0b0000_1111
    let memory = [0b0000_1111];
    let decoded = Instruction::decode(&memory).expect("RRCA");
    assert_eq!(decoded, Instruction::RRCA);
}

#[test]
fn it_decodes_rla() {
    //0b0001_0111
    let memory = [0b0001_0111];
    let decoded = Instruction::decode(&memory).expect("RLA");
    assert_eq!(decoded, Instruction::RLA);
}

#[test]
fn it_decodes_rra() {
    //0b0001_1111
    let memory = [0b0001_1111];
    let decoded = Instruction::decode(&memory).expect("RRA");
    assert_eq!(decoded, Instruction::RRA);
}

fn it_decodes_rlc_case(src: R8) {
    //0b0000_0xxx
    let opcode = 0b0000_0_000 + (<R8 as Into<u8>>::into(src) << 0);
    let memory = [0xCB, opcode];
    let decoded = Instruction::decode(&memory).expect("RLC");
    assert_eq!(decoded, Instruction::RLC { src });
}

#[test]
fn it_decodes_rlc() {
    for a0 in [B, C, D, E, H, L, A] {
        let a0: R8 = a0;
        it_decodes_rlc_case(a0);
    }
}

#[test]
fn it_decodes_rlc_indirect_hl() {
    //0b0000_0110
    let memory = [0xCB, 0b0000_0110];
    let decoded = Instruction::decode(&memory).expect("RLCIndirectHL");
    assert_eq!(decoded, Instruction::RLCIndirectHL);
}

fn it_decodes_rrc_case(src: R8) {
    //0b0000_1xxx
    let opcode = 0b0000_1_000 + (<R8 as Into<u8>>::into(src) << 0);
    let memory = [0xCB, opcode];
    let decoded = Instruction::decode(&memory).expect("RRC");
    assert_eq!(decoded, Instruction::RRC { src });
}

#[test]
fn it_decodes_rrc() {
    for a0 in [B, C, D, E, H, L, A] {
        let a0: R8 = a0;
        it_decodes_rrc_case(a0);
    }
}

#[test]
fn it_decodes_rrc_indirect_hl() {
    //0b0000_1110
    let memory = [0xCB, 0b0000_1_110];
    let decoded = Instruction::decode(&memory).expect("RRCIndirectHL");
    assert_eq!(decoded, Instruction::RRCIndirectHL);
}

fn it_decodes_rl_case(src: R8) {
    //0b0001_0xxx
    let opcode = 0b0001_0_000 + (<R8 as Into<u8>>::into(src) << 0);
    let memory = [0xCB, opcode];
    let decoded = Instruction::decode(&memory).expect("RL");
    assert_eq!(decoded, Instruction::RL { src });
}

#[test]
fn it_decodes_rl() {
    for a0 in [B, C, D, E, H, L, A] {
        let a0: R8 = a0;
        it_decodes_rl_case(a0);
    }
}

#[test]
fn it_decodes_rl_indirect_hl() {
    //0b0001_0110
    let memory = [0xCB, 0b0001_0110];
    let decoded = Instruction::decode(&memory).expect("RLIndirectHL");
    assert_eq!(decoded, Instruction::RLIndirectHL);
}

fn it_decodes_rr_case(src: R8) {
    //0b0001_1xxx
    let opcode = 0b0001_1_000 + (<R8 as Into<u8>>::into(src) << 0);
    let memory = [0xCB, opcode];
    let decoded = Instruction::decode(&memory).expect("RR");
    assert_eq!(decoded, Instruction::RR { src });
}

#[test]
fn it_decodes_rr() {
    for a0 in [B, C, D, E, H, L, A] {
        let a0: R8 = a0;
        it_decodes_rr_case(a0);
    }
}

#[test]
fn it_decodes_rr_indirect_hl() {
    //0b0001_1110
    let memory = [0xCB, 0b0001_1110];
    let decoded = Instruction::decode(&memory).expect("RRIndirectHL");
    assert_eq!(decoded, Instruction::RRIndirectHL);
}

fn it_decodes_sla_case(src: R8) {
    //0b0010_0xxx
    let opcode = 0b0010_0000 + (<R8 as Into<u8>>::into(src) << 0);
    let memory = [0xCB, opcode];
    let decoded = Instruction::decode(&memory).expect("SLA");
    assert_eq!(decoded, Instruction::SLA { src });
}

#[test]
fn it_decodes_sla() {
    for a0 in [B, C, D, E, H, L, A] {
        let a0: R8 = a0;
        it_decodes_sla_case(a0);
    }
}

#[test]
fn it_decodes_sla_indirect_hl() {
    //0b0010_0110
    let memory = [0xCB, 0b0010_0110];
    let decoded = Instruction::decode(&memory).expect("SLAIndirectHL");
    assert_eq!(decoded, Instruction::SLAIndirectHL);
}

fn it_decodes_sra_case(src: R8) {
    //0b0010_1xxx
    let opcode = 0b0010_1000 + (<R8 as Into<u8>>::into(src) << 0);
    let memory = [0xCB, opcode];
    let decoded = Instruction::decode(&memory).expect("SRA");
    assert_eq!(decoded, Instruction::SRA { src });
}

#[test]
fn it_decodes_sra() {
    for a0 in [B, C, D, E, H, L, A] {
        let a0: R8 = a0;
        it_decodes_sra_case(a0);
    }
}

#[test]
fn it_decodes_sra_indirect_hl() {
    //0b0010_1110
    let memory = [0xCB, 0b0010_1110];
    let decoded = Instruction::decode(&memory).expect("SRAIndirectHL");
    assert_eq!(decoded, Instruction::SRAIndirectHL);
}

fn it_decodes_swap_case(src: R8) {
    //0b0011_0xxx
    let opcode = 0b0011_0000 + (<R8 as Into<u8>>::into(src) << 0);
    let memory = [0xCB, opcode];
    let decoded = Instruction::decode(&memory).expect("SRA");
    assert_eq!(decoded, Instruction::Swap { src });
}

#[test]
fn it_decodes_swap() {
    for a0 in [B, C, D, E, H, L, A] {
        let a0: R8 = a0;
        it_decodes_swap_case(a0);
    }
}

#[test]
fn it_decodes_swap_indirect_hl() {
    //0b0011_0110
    let memory = [0xCB, 0b0011_0110];
    let decoded = Instruction::decode(&memory).expect("SwapIndirectHL");
    assert_eq!(decoded, Instruction::SwapIndirectHL);
}

fn it_decodes_srl_case(src: R8) {
    //0b0011_1xxx
    let opcode = 0b0011_1000 + (<R8 as Into<u8>>::into(src) << 0);
    let memory = [0xCB, opcode];
    let decoded = Instruction::decode(&memory).expect("SRL");
    assert_eq!(decoded, Instruction::SRL { src });
}

#[test]
fn it_decodes_srl() {
    for a0 in [B, C, D, E, H, L, A] {
        let a0: R8 = a0;
        it_decodes_srl_case(a0);
    }
}

#[test]
fn it_decodes_srl_indirect_hl() {
    //0b0011_1110
    let memory = [0xCB, 0b0011_1110];
    let decoded = Instruction::decode(&memory).expect("SRLIndirectHL");
    assert_eq!(decoded, Instruction::SRLIndirectHL);
}

fn it_decodes_bit_case(src: R8, bit: u8) {
    //0b01xxxyyy
    let opcode = 0b01_000_000 + (bit << 3) + (<R8 as Into<u8>>::into(src) << 0);
    let memory = [0xCB, opcode];
    let decoded = Instruction::decode(&memory).expect("BIT");
    assert_eq!(decoded, Instruction::BIT { src, bit });
}

#[test]
fn it_decodes_bit() {
    for a0 in [B, C, D, E, H, L, A] {
        let a0: R8 = a0;
        for a1 in [0, 1, 2, 3, 4, 5, 6, 7] {
            let a1: u8 = a1;
            it_decodes_bit_case(a0, a1);
        }
    }
}

fn it_decodes_bit_indirect_hl_case(bit: u8) {
    //0b01xxx110
    let opcode = 0b01_000_110 + (bit << 3);
    let memory = [0xCB, opcode];
    let decoded = Instruction::decode(&memory).expect("BITIndirectHL");
    assert_eq!(decoded, Instruction::BITIndirectHL { bit });
}

#[test]
fn it_decodes_bit_indirect_hl() {
    for a0 in [0, 1, 2, 3, 4, 5, 6, 7] {
        let a0: u8 = a0;
        it_decodes_bit_indirect_hl_case(a0);
    }
}

fn it_decodes_res_case(src: R8, bit: u8) {
    //0b10xxxyyy
    let opcode = 0b10_000_000 + (bit << 3) + (<R8 as Into<u8>>::into(src) << 0);
    let memory = [0xCB, opcode];
    let decoded = Instruction::decode(&memory).expect("RES");
    assert_eq!(decoded, Instruction::RES { src, bit });
}

#[test]
fn it_decodes_res() {
    for a0 in [B, C, D, E, H, L, A] {
        let a0: R8 = a0;
        for a1 in [0, 1, 2, 3, 4, 5, 6, 7] {
            let a1: u8 = a1;
            it_decodes_res_case(a0, a1);
        }
    }
}

fn it_decodes_res_indirect_hl_case(bit: u8) {
    //0b10xxx110
    let opcode = 0b10_000_110 + (bit << 3);
    let memory = [0xCB, opcode];
    let decoded = Instruction::decode(&memory).expect("RESIndirectHL");
    assert_eq!(decoded, Instruction::RESIndirectHL { bit });
}

#[test]
fn it_decodes_res_indirect_hl() {
    for a0 in [0, 1, 2, 3, 4, 5, 6, 7] {
        let a0: u8 = a0;
        it_decodes_res_indirect_hl_case(a0);
    }
}

fn it_decodes_set_case(src: R8, bit: u8) {
    //0b11xxxyyy
    let opcode = 0b11_000_000 + (bit << 3) + (<R8 as Into<u8>>::into(src) << 0);
    let memory = [0xCB, opcode];
    let decoded = Instruction::decode(&memory).expect("SET");
    assert_eq!(decoded, Instruction::SET { src, bit });
}

#[test]
fn it_decodes_set() {
    for a0 in [B, C, D, E, H, L, A] {
        let a0: R8 = a0;
        for a1 in [0, 1, 2, 3, 4, 5, 6, 7] {
            let a1: u8 = a1;
            it_decodes_set_case(a0, a1);
        }
    }
}

fn it_decodes_set_indirect_hl_case(bit: u8) {
    //0b11xxx110
    let opcode = 0b11_000_110 + (bit << 3);
    let memory = [0xCB, opcode];
    let decoded = Instruction::decode(&memory).expect("SETIndirectHL");
    assert_eq!(decoded, Instruction::SETIndirectHL { bit });
}

#[test]
fn it_decodes_set_indirect_hl() {
    for a0 in [0, 1, 2, 3, 4, 5, 6, 7] {
        let a0: u8 = a0;
        it_decodes_set_indirect_hl_case(a0);
    }
}

#[test]
fn it_decodes_jp() {
    //0b1100_0011
    let memory = [0b1100_0011, 0xF0, 0x0F];
    let decoded = Instruction::decode(&memory).expect("JP");
    assert_eq!(decoded, Instruction::JP { addr: 0x0FF0 });
}

#[test]
fn it_decodes_jp_hl() {
    //0b1110_1001
    let memory = [0b1110_1001];
    let decoded = Instruction::decode(&memory).expect("JPHL");
    assert_eq!(decoded, Instruction::JPHL);
}

fn it_decodes_jpcc_case(cond: Cond) {
    //0b110_xx_010
    let opcode = 0b110_00_010 + (<Cond as Into<u8>>::into(cond) << 3);
    let memory = [opcode, 0xF0, 0x0F];
    let decoded = Instruction::decode(&memory).expect("JPCC");
    assert_eq!(decoded, Instruction::JPCC { cond, addr: 0x0FF0 });
}

#[test]
fn it_decodes_jpcc() {
    for a0 in [NZ, NCARRY, Z, CARRY] {
        let a0: Cond = a0;
        it_decodes_jpcc_case(a0);
    }
}

#[test]
fn it_decodes_jr() {
    //0b0001_1000
    let memory = [0b0001_1000, 0xff];
    let decoded = Instruction::decode(&memory).expect("JR");
    // 0xff (u8) is reinterpreted as -1 (i8)
    assert_eq!(decoded, Instruction::JR { offset: -0x01 });
}

fn it_decodes_jrcc_case(cond: Cond) {
    //0b001_xx_000
    let opcode = 0b001_00_000 + (<Cond as Into<u8>>::into(cond) << 3);
    let memory = [opcode, 0xFF];
    let decoded = Instruction::decode(&memory).expect("JRCC");
    assert_eq!(decoded, Instruction::JRCC { cond, offset: -0x1 });
}

#[test]
fn it_decodes_jrcc() {
    for a0 in [NZ, NCARRY, Z, CARRY] {
        let a0: Cond = a0;
        it_decodes_jrcc_case(a0);
    }
}

#[test]
fn it_decodes_call() {
    //0b1100_1101
    let memory = [0b1100_1101, 0xF0, 0x0F];
    let decoded = Instruction::decode(&memory).expect("Call");
    assert_eq!(decoded, Instruction::Call { addr: 0x0FF0 });
}

fn it_decodes_callcc_case(cond: Cond) {
    //0b110_xx_100
    let opcode = 0b110_00_100 + (<Cond as Into<u8>>::into(cond) << 3);
    let memory = [opcode, 0xF0, 0x0F];
    let decoded = Instruction::decode(&memory).expect("CallCC");
    assert_eq!(decoded, Instruction::CallCC { cond, addr: 0x0FF0 });
}

#[test]
fn it_decodes_callcc() {
    for a0 in [NZ, NCARRY, Z, CARRY] {
        let a0: Cond = a0;
        it_decodes_callcc_case(a0);
    }
}

#[test]
fn it_decodes_ret() {
    //0b1100_1001
    let memory = [0b1100_1001];
    let decoded = Instruction::decode(&memory).expect("Ret");
    assert_eq!(decoded, Instruction::Ret);
}

fn it_decodes_retcc_case(cond: Cond) {
    //0b110_xx_000
    let opcode = 0b110_00_000 + (<Cond as Into<u8>>::into(cond) << 3);
    let memory = [opcode];
    let decoded = Instruction::decode(&memory).expect("RetCC");
    assert_eq!(decoded, Instruction::RetCC { cond });
}

#[test]
fn it_decodes_retcc() {
    for a0 in [NZ, NCARRY, Z, CARRY] {
        let a0: Cond = a0;
        it_decodes_retcc_case(a0);
    }
}

#[test]
fn it_decodes_reti() {
    //0b1101_1001
    let memory = [0b1101_1001];
    let decoded = Instruction::decode(&memory).expect("RetI");
    assert_eq!(decoded, Instruction::RetI);
}

fn it_decodes_rst_case(addr: u8) {
    //0b11_xxx_111
    let opcode = 0b11_000_111 + (addr << 3);
    let memory = [opcode];
    let decoded = Instruction::decode(&memory).expect("RST");
    // Bit shift address by 3
    assert_eq!(decoded, Instruction::RST { addr: addr << 3 });
}

#[test]
fn it_decodes_rst() {
    for a0 in [0, 1, 2, 3, 4, 5, 6, 7] {
        let a0: u8 = a0;
        it_decodes_rst_case(a0);
    }
}

#[test]
fn it_decodes_halt() {
    //0b0111_0110

    let opcode = 0b0111_0110;
    let memory = [opcode];
    let decoded = Instruction::decode(&memory).expect("Halt");
    assert_eq!(decoded, Instruction::Halt);
}

#[test]
fn it_decodes_stop() {
    //0b0001_0000
    let memory = [0b0001_0000, 0x01];
    let decoded = Instruction::decode(&memory).expect("Stop");
    assert_eq!(decoded, Instruction::Stop { ignore: 0x01 });
}

#[test]
fn it_decodes_di() {
    //0b1111_0011
    let memory = [0b1111_0011];
    let decoded = Instruction::decode(&memory).expect("DI");
    assert_eq!(decoded, Instruction::DI);
}

#[test]
fn it_decodes_ei() {
    //0b1111_1011
    let memory = [0b1111_1011];
    let decoded = Instruction::decode(&memory).expect("EI");
    assert_eq!(decoded, Instruction::EI);
}

#[test]
fn it_decodes_nop() {
    //0b0000_0000
    let memory = [0b0000_0000];
    let decoded = Instruction::decode(&memory).expect("NOP");
    assert_eq!(decoded, Instruction::NOP);
}

fn it_fails_to_decode_invalid_opcodes_case(input: u8) {
    let memory = [input];
    let decoded = Instruction::decode(&memory);

    assert!(decoded.is_err());

    assert_eq!(decoded.unwrap_err(), DecodeError::UnknownOpcode);
}

#[test]
fn it_fails_to_decode_invalid_opcodes() {
    let cases: [(u8,); 11] = [
        (0xD3,),
        (0xE3,),
        (0xE4,),
        (0xF4,),
        (0xDB,),
        (0xEB,),
        (0xEC,),
        (0xFC,),
        (0xDD,),
        (0xED,),
        (0xFD,),
    ];
    for case in cases {
        let a0 = case.0;
        it_fails_to_decode_invalid_opcodes_case(a0);
    }
}

#[test]
fn it_fails_to_decode_empty_memory() {
    let memory: [u8; 0] = [];

    let decoded = Instruction::decode(&memory);

    assert_eq!(decoded.unwrap_err(), DecodeError::MemoryOutOfBounds);
}

#[test]
fn it_fails_to_decode_operand_out_of_bounds() {
    let memory: [u8; 1] = [0b00_111_110];

    let decoded = Instruction::decode(&memory);

    assert_eq!(decoded.unwrap_err(), DecodeError::MemoryOutOfBounds);
}

#[test]
fn it_fails_to_decode_two_byte_operand_out_of_bounds() {
    let memory: [u8; 2] = [0b1111_1010, 0b0000_0000];

    let decoded = Instruction::decode(&memory);

    assert_eq!(decoded.unwrap_err(), DecodeError::MemoryOutOfBounds);
}

#[test]
fn it_covers_all_opcodes() {
    let invalid_opcodes = [
        0xD3, 0xE3, 0xE4, 0xF4, 0xDB, 0xEB, 0xEC, 0xFC, 0xDD, 0xED, 0xFD,
    ];
    for opcode in 0..=0xFF {
        if invalid_opcodes.contains(&opcode) {
            continue;
        }
        let memory = [opcode, 0xFF, 0xFF];
        let decoded = Instruction::decode(&memory);

        assert!(decoded.is_ok());
    }
    for opcode in 0..=0xFF {
        let memory = [0xCB, opcode, 0xFF, 0xFF];
        let decoded = Instruction::decode(&memory);

        assert!(decoded.is_ok());
    }
}
