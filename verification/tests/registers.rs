use gameboy::gb::cpu::register::{Condition, Flag, Register16, Register8, Registers};

const ALL8: [Register8; 8] = [
    Register8::A,
    Register8::B,
    Register8::C,
    Register8::D,
    Register8::E,
    Register8::F,
    Register8::H,
    Register8::L,
];

const ALL16: [Register16; 6] = [
    Register16::AF,
    Register16::BC,
    Register16::DE,
    Register16::HL,
    Register16::SP,
    Register16::PC,
];

#[test]
fn registers_start_at_zero() {
    let reg = Registers::new();
    for r in ALL8 {
        assert_eq!(reg.get8(r), 0);
    }
    for rr in ALL16 {
        assert_eq!(reg.get16(rr), 0);
    }
    assert!(!reg.flag(Flag::Z) && !reg.flag(Flag::N) && !reg.flag(Flag::H) && !reg.flag(Flag::C));
}

#[test]
fn set8_then_get8_gives_the_byte() {
    for r in ALL8 {
        for v in [0x00u8, 0x01, 0x0F, 0x10, 0x5A, 0x80, 0xA5, 0xFF] {
            let mut reg = Registers::new();
            reg.set8(r, v);
            let expected = if r == Register8::F { v & 0xF0 } else { v };
            assert_eq!(reg.get8(r), expected);
        }
    }
}

#[test]
fn set8_leaves_the_other_registers() {
    let mut reg = Registers::new();
    reg.set8(Register8::A, 1);
    reg.set8(Register8::B, 2);
    reg.set8(Register8::C, 3);
    reg.set8(Register8::D, 4);
    reg.set8(Register8::E, 5);
    reg.set8(Register8::H, 6);
    reg.set8(Register8::L, 7);
    reg.set8(Register8::F, 0x50);
    assert_eq!(reg.get8(Register8::A), 1);
    assert_eq!(reg.get8(Register8::B), 2);
    assert_eq!(reg.get8(Register8::C), 3);
    assert_eq!(reg.get8(Register8::D), 4);
    assert_eq!(reg.get8(Register8::E), 5);
    assert_eq!(reg.get8(Register8::H), 6);
    assert_eq!(reg.get8(Register8::L), 7);
    assert_eq!(reg.get8(Register8::F), 0x50);
    assert_eq!(reg.sp, 0);
    assert_eq!(reg.pc, 0);
}

#[test]
fn writing_f_keeps_the_high_nibble_only() {
    let mut reg = Registers::new();
    reg.set8(Register8::F, 0xFF);
    assert_eq!(reg.get8(Register8::F), 0xF0);
    reg.set8(Register8::F, 0x0F);
    assert_eq!(reg.get8(Register8::F), 0x00);
    reg.set8(Register8::F, 0xB7);
    assert_eq!(reg.get8(Register8::F), 0xB0);
}

#[test]
fn low_nibble_of_f_is_zero_for_every_byte_written() {
    for v in 0..=255u8 {
        let mut reg = Registers::new();
        reg.set8(Register8::F, v);
        assert_eq!(reg.get8(Register8::F) & 0x0F, 0);
        assert_eq!(reg.get8(Register8::F), v & 0xF0);
        let mut reg = Registers::new();
        reg.set16(Register16::AF, 0x1200 | v as u16);
        assert_eq!(reg.get8(Register8::F) & 0x0F, 0);
        assert_eq!(reg.get16(Register16::AF) & 0x000F, 0);
    }
}

#[test]
fn low_nibble_of_f_is_zero_for_every_flag_setting() {
    for bits in 0..16u8 {
        let mut reg = Registers::new();
        reg.set_flags(bits & 8 != 0, bits & 4 != 0, bits & 2 != 0, bits & 1 != 0);
        assert_eq!(reg.get8(Register8::F), bits << 4);
        assert_eq!(reg.get8(Register8::F) & 0x0F, 0);
    }
}

#[test]
fn set16_then_get16_gives_the_word() {
    for rr in ALL16 {
        for v in [0x0000u16, 0x0001, 0x00FF, 0x0100, 0x1234, 0x8000, 0xABCD, 0xFFFF] {
            let mut reg = Registers::new();
            reg.set16(rr, v);
            let expected = if rr == Register16::AF { v & 0xFFF0 } else { v };
            assert_eq!(reg.get16(rr), expected);
        }
    }
}

#[test]
fn af_round_trip_drops_the_low_nibble() {
    let mut reg = Registers::new();
    reg.set16(Register16::AF, 0x12FF);
    assert_eq!(reg.get16(Register16::AF), 0x12F0);
    assert_eq!(reg.get8(Register8::A), 0x12);
    assert_eq!(reg.get8(Register8::F), 0xF0);
}

#[test]
fn pairs_hold_the_high_byte_in_the_first_register() {
    let mut reg = Registers::new();
    reg.set16(Register16::BC, 0x1234);
    reg.set16(Register16::DE, 0x5678);
    reg.set16(Register16::HL, 0x9ABC);
    reg.set16(Register16::AF, 0xDEF0);
    assert_eq!(reg.get8(Register8::B), 0x12);
    assert_eq!(reg.get8(Register8::C), 0x34);
    assert_eq!(reg.get8(Register8::D), 0x56);
    assert_eq!(reg.get8(Register8::E), 0x78);
    assert_eq!(reg.get8(Register8::H), 0x9A);
    assert_eq!(reg.get8(Register8::L), 0xBC);
    assert_eq!(reg.get8(Register8::A), 0xDE);
    assert_eq!(reg.get8(Register8::F), 0xF0);
}

#[test]
fn pairs_are_read_from_their_two_registers() {
    let mut reg = Registers::new();
    reg.set8(Register8::A, 0x01);
    reg.set8(Register8::F, 0x80);
    reg.set8(Register8::B, 0x23);
    reg.set8(Register8::C, 0x45);
    reg.set8(Register8::D, 0x67);
    reg.set8(Register8::E, 0x89);
    reg.set8(Register8::H, 0xAB);
    reg.set8(Register8::L, 0xCD);
    assert_eq!(reg.get16(Register16::AF), 0x0180);
    assert_eq!(reg.get16(Register16::BC), 0x2345);
    assert_eq!(reg.get16(Register16::DE), 0x6789);
    assert_eq!(reg.get16(Register16::HL), 0xABCD);
}

#[test]
fn sp_and_pc_hold_any_word() {
    let mut reg = Registers::new();
    reg.set16(Register16::SP, 0xFFFF);
    reg.set16(Register16::PC, 0x0000);
    assert_eq!(reg.get16(Register16::SP), 0xFFFF);
    assert_eq!(reg.get16(Register16::PC), 0x0000);
    assert_eq!(reg.sp, 0xFFFF);
    assert_eq!(reg.pc, 0x0000);
}

#[test]
fn flags_sit_in_bits_seven_to_four() {
    let mut reg = Registers::new();
    reg.set_flag(Flag::Z, true);
    assert_eq!(reg.get8(Register8::F), 0x80);
    reg.set_flag(Flag::N, true);
    assert_eq!(reg.get8(Register8::F), 0xC0);
    reg.set_flag(Flag::H, true);
    assert_eq!(reg.get8(Register8::F), 0xE0);
    reg.set_flag(Flag::C, true);
    assert_eq!(reg.get8(Register8::F), 0xF0);
    reg.set_flag(Flag::Z, false);
    assert_eq!(reg.get8(Register8::F), 0x70);
    reg.set_flag(Flag::H, false);
    assert_eq!(reg.get8(Register8::F), 0x50);
}

#[test]
fn set_flag_leaves_the_other_flags() {
    for f in [Flag::Z, Flag::N, Flag::H, Flag::C] {
        let mut reg = Registers::new();
        reg.set_flag(f, true);
        for g in [Flag::Z, Flag::N, Flag::H, Flag::C] {
            assert_eq!(reg.flag(g), f == g);
        }
    }
}

#[test]
fn flags_are_read_from_a_byte_written_to_f() {
    let mut reg = Registers::new();
    reg.set8(Register8::F, 0xA0);
    assert!(reg.flag(Flag::Z));
    assert!(!reg.flag(Flag::N));
    assert!(reg.flag(Flag::H));
    assert!(!reg.flag(Flag::C));
}

#[test]
fn conditions_follow_the_flags() {
    let mut reg = Registers::new();
    assert!(reg.test(Condition::T));
    assert!(reg.test(Condition::NZ));
    assert!(reg.test(Condition::NC));
    assert!(!reg.test(Condition::Z));
    assert!(!reg.test(Condition::C));
    reg.set_flag(Flag::Z, true);
    assert!(reg.test(Condition::Z));
    assert!(!reg.test(Condition::NZ));
    assert!(reg.test(Condition::NC));
    reg.set_flag(Flag::C, true);
    assert!(reg.test(Condition::C));
    assert!(!reg.test(Condition::NC));
    assert!(reg.test(Condition::T));
}
