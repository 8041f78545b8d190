use squaregb::Flag::{Carry, HalfCarryBCD, SubBCD, Zero};
use squaregb::R16::AF;
use squaregb::R8::F;
use squaregb::{Flag, Machine};

fn it_can_read_flags_case(value: u16, flag: Flag, state: bool) {
    let mut machine = Machine::new();

    machine.set_r16(AF, value);

    assert_eq!(state, machine.get_flag(flag));
}

#[test]
fn it_can_read_flags() {
    let cases: [(u16, Flag, bool,); 12] = [
        (0x00, Zero, false,),
        (0x00, SubBCD, false,),
        (0x00, HalfCarryBCD, false,),
        (0x00, Carry, false,),
        (0xFF, Zero, true,),
        (0xFF, SubBCD, true,),
        (0xFF, HalfCarryBCD, true,),
        (0xFF, Carry, true,),
        (0b1000_0000, Zero, true,),
        (0b0100_0000, SubBCD, true,),
        (0b0010_0000, HalfCarryBCD, true,),
        (0b0001_0000, Carry, true,),
    ];
    for case in cases {
        let a0 = case.0;
        let a1 = case.1;
        let a2 = case.2;
        it_can_read_flags_case(a0, a1, a2);
    }
}

fn it_can_set_flags_case(flag: Flag, flags: u8) {
    let mut machine = Machine::new();

    machine.set_r8(F, 0x00);
    machine.set_flag(flag);

    assert_eq!(flags, machine.get_r8(F));
}

#[test]
fn it_can_set_flags() {
    let cases: [(Flag, u8,); 4] = [
        (Zero, 0b1000_0000,),
        (SubBCD, 0b0100_0000,),
        (HalfCarryBCD, 0b0010_0000,),
        (Carry, 0b0001_0000,),
    ];
    for case in cases {
        let a0 = case.0;
        let a1 = case.1;
        it_can_set_flags_case(a0, a1);
    }
}

fn it_can_clear_flags_case(flag: Flag, flags: u8) {
    let mut machine = Machine::new();

    machine.set_r8(F, 0xF0);
    machine.clear_flag(flag);

    assert_eq!(flags, machine.get_r8(F));
}

#[test]
fn it_can_clear_flags() {
    let cases: [(Flag, u8,); 4] = [
        (Zero, 0b0111_0000,),
        (SubBCD, 0b1011_0000,),
        (HalfCarryBCD, 0b1101_0000,),
        (Carry, 0b1110_0000,),
    ];
    for case in cases {
        let a0 = case.0;
        let a1 = case.1;
        it_can_clear_flags_case(a0, a1);
    }
}
