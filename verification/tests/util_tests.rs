use chip8exe::util::{shl_no, BCD};
use chip8exe::{Chip8State, Opcode, Reg};

#[test]
fn test_shl_no() {
    assert_eq!(shl_no(5, 6), 64);
    assert_eq!(shl_no(5, 8), 0)
}

#[test]
fn test_bcd_from_u8() {
    assert_eq!(BCD::from(0), BCD::new(0, 0, 0));
    assert_eq!(BCD::from(5), BCD::new(0, 0, 5));
    assert_eq!(BCD::from(50), BCD::new(0, 5, 0));
    assert_eq!(BCD::from(255), BCD::new(2, 5, 5));
    assert_eq!(BCD::from(202), BCD::new(2, 0, 2));
    assert_eq!(BCD::from(123), BCD::new(1, 2, 3))
}

#[test]
fn test_draw_aligned_is_direct_xor() {
    let mut state = Chip8State::default();

    assert!(!state.write_fb(0xFF, 0, 0));
    assert_eq!(state.framebuffer[0], 0xFF);

    assert!(state.write_fb(0xFF, 0, 0));
    assert_eq!(state.framebuffer[0], 0x00)
}

#[test]
fn test_addvv_carry_boundary() {
    let mut state = Chip8State::default();

    state.registers[Reg::V0 as usize] = 0xFF;
    state.registers[Reg::V1 as usize] = 0x01;
    Opcode::ADDVV(Reg::V0, Reg::V1).execute(&mut state);

    assert_eq!(state.registers[Reg::V0 as usize], 0x00);
    assert_eq!(state.registers[Reg::VF as usize], 0x01);

    state.registers[Reg::V2 as usize] = 0x00;
    state.registers[Reg::V3 as usize] = 0x00;
    Opcode::ADDVV(Reg::V2, Reg::V3).execute(&mut state);

    assert_eq!(state.registers[Reg::V2 as usize], 0x00);
    assert_eq!(state.registers[Reg::VF as usize], 0x00)
}

#[test]
fn test_sub_equal_operands_borrows() {
    let mut state = Chip8State::default();

    state.registers[Reg::V0 as usize] = 0x42;
    state.registers[Reg::V1 as usize] = 0x42;
    Opcode::SUB(Reg::V0, Reg::V1).execute(&mut state);

    assert_eq!(state.registers[Reg::V0 as usize], 0x00);
    assert_eq!(state.registers[Reg::VF as usize], 0x00)
}
