use squaregb::R16::{AF, BC, DE, HL};
use squaregb::R8::{A, B, C, D, E, F, H, L};
use squaregb::{Machine, R16, R8};

fn it_sets_reg_pairs_case(pair: R16, h_reg: R8, l_reg: R8) {
    let mut machine = Machine::new();

    machine.set_r16(pair, 0xABCD);

    assert_eq!(machine.get_r8(h_reg), 0xAB);
    assert_eq!(machine.get_r8(l_reg), 0xCD);
}

#[test]
fn it_sets_reg_pairs() {
    let cases: [(R16, R8, R8,); 4] = [
        (BC, B, C,),
        (DE, D, E,),
        (HL, H, L,),
        (AF, A, F,),
    ];
    for case in cases {
        let a0 = case.0;
        let a1 = case.1;
        let a2 = case.2;
        it_sets_reg_pairs_case(a0, a1, a2);
    }
}

fn it_gets_reg_pairs_case(pair: R16, h_reg: R8, l_reg: R8) {
    let mut machine = Machine::new();
    machine.set_r8(h_reg, 0xAB);
    machine.set_r8(l_reg, 0xCD);

    assert_eq!(machine.get_r16(pair), 0xABCD);
}

#[test]
fn it_gets_reg_pairs() {
    let cases: [(R16, R8, R8,); 4] = [
        (BC, B, C,),
        (DE, D, E,),
        (HL, H, L,),
        (AF, A, F,),
    ];
    for case in cases {
        let a0 = case.0;
        let a1 = case.1;
        let a2 = case.2;
        it_gets_reg_pairs_case(a0, a1, a2);
    }
}
