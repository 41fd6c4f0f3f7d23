use chip8exe::util;
use chip8exe::{Chip8State, Opcode, Reg, WaitStatus};

#[test]
fn test_chip8() {}

#[test]
fn test_fetch_instruction() {
    let mut state = Chip8State::default();

    state.memory[0x0] = 0x12;
    state.memory[0x1] = 0x34;

    state.memory[0xFFE] = 0x43;
    state.memory[0xFFF] = 0x21;

    assert_eq!(state.fetch_instruction(0x0), 0x1234);
    assert_eq!(state.fetch_instruction(0xFFE), 0x4321)
}

#[test]
fn test_decode_opcode() {
    let mut state = Chip8State::default();

    state.memory[0x0352] = 0x8A;
    state.memory[0x0353] = 0xB6;

    state.jump_to_address(0x0352);

    assert_eq!(state.decode_opcode(), Opcode::SHR(Reg::VA))
}

#[test]
fn test_jump_to_address() {
    let mut state = Chip8State::default();

    state.jump_to_address(0x0321);
    assert_eq!(state.pc, 0x0321);

    state.jump_to_address(0xF777);
    assert_eq!(state.pc, 0x0777)
}

#[test]
fn test_decrement_timers() {
    let mut state = Chip8State::default();

    state.dt = 1;
    state.st = 10;
    state.decrement_timers();

    assert_eq!((state.dt, state.st), (0, 9));

    for _ in 0..10 {
        state.decrement_timers();
    }

    assert_eq!((state.dt, state.st), (0, 0))
}

#[test]
fn test_push_stack() {
    let mut state = Chip8State::default();

    state.push_stack(0xABCD);
    state.push_stack(0x1234);

    assert_eq!(state.stack[0..4], [0xAB, 0xCD, 0x12, 0x34]);
    assert_eq!(state.sp, 4)
}

#[test]
fn test_pop_stack() {
    let mut state = Chip8State::default();

    state.push_stack(0x1234);
    state.push_stack(0xABCD);

    assert_eq!(state.pop_stack(), 0xABCD);
    assert_eq!(state.pop_stack(), 0x1234);
    assert_eq!(state.sp, 0)
}

#[test]
fn test_store_to_memory() {
    let mut state = Chip8State::default();

    state.store_to_memory(0xFF, 0x0000);
    state.store_to_memory(0x01, 0x0ABC);
    state.store_to_memory(0xAB, 0xFFFF);

    assert_eq!(state.memory[0x0000], 0xFF);
    assert_eq!(state.memory[0x0ABC], 0x01);
    assert_eq!(state.memory[0x0FFF], 0xAB)
}

#[test]
fn test_write_fb_byte_aligned() {
    let mut state = Chip8State::default();

    assert!(!state.write_fb(0xFF, 0, 0));
    assert!(!state.write_fb(0xAB, 8, 1));
    assert!(!state.write_fb(0x12, 56, 31));
    assert!(state.write_fb(0x2, 56, 31));

    assert_eq!(state.framebuffer[0], 0xFF);
    assert_eq!(state.framebuffer[9], 0xAB);
    assert_eq!(state.framebuffer[255], 0x10)
}

#[test]
fn test_write_fb_not_byte_aligned() {
    let mut state = Chip8State::default();

    assert!(!state.write_fb(0xFF, 1, 0));
    assert!(state.write_fb(0xEF, 5, 0));
    assert!(!state.write_fb(0xFF, 59, 10));

    assert_eq!(state.framebuffer[0], 0x78);
    assert_eq!(state.framebuffer[1], 0xF8);
    assert_eq!(state.framebuffer[87], 0x1F);
    assert_eq!(state.framebuffer[88], 0x00)
}

#[test]
fn test_store_bcd() {
    let mut state = Chip8State::default();

    state.store_bcd(util::BCD::new(1, 2, 3), 0x0FFC);
    state.store_bcd(util::BCD::new(2, 5, 5), 0x1234);
    state.store_bcd(util::BCD::new(0, 7, 8), 0x089F);
    state.store_bcd(util::BCD::new(1, 9, 9), 0xFFFF);

    assert_eq!(state.memory[0x0FFC], 1);
    assert_eq!(state.memory[0x0FFD], 2);
    assert_eq!(state.memory[0x0FFE], 3);

    assert_eq!(state.memory[0x0234], 2);
    assert_eq!(state.memory[0x0235], 5);
    assert_eq!(state.memory[0x0236], 5);

    assert_eq!(state.memory[0x089F], 0);
    assert_eq!(state.memory[0x08A0], 7);
    assert_eq!(state.memory[0x08A1], 8);

    assert_eq!(state.memory[0x0FFF], 1);
    assert_eq!(state.memory[0x0000], 9);
    assert_eq!(state.memory[0x0001], 9)
}

#[test]
fn test_fetch_wraps_at_top_of_memory() {
    let mut state = Chip8State::default();

    state.memory[0xFFF] = 0xAB;
    state.memory[0x000] = 0xCD;

    assert_eq!(state.fetch_instruction(0x0FFF), 0xABCD);
    assert_eq!(state.fetch_instruction(0xFFFF), 0xABCD)
}

#[test]
fn test_load_program_copies_bytes() {
    let mut state = Chip8State::default();

    let rom = vec![0x12, 0x34, 0x56];
    state.load_program(&rom);

    assert_eq!(state.memory[0x200], 0x12);
    assert_eq!(state.memory[0x201], 0x34);
    assert_eq!(state.memory[0x202], 0x56);
    assert_eq!(state.memory[0x203], 0x00)
}

#[test]
fn test_call_ret_roundtrip() {
    let mut state = Chip8State::default();

    // CALL 0x300 at the program start, RET at 0x300.
    let rom = vec![0x23, 0x00];
    state.load_program(&rom);
    state.memory[0x300] = 0x00;
    state.memory[0x301] = 0xEE;

    assert_eq!(state.tick(), WaitStatus::Running);
    assert_eq!(state.pc, 0x300);
    assert_eq!(state.sp, 2);

    assert_eq!(state.tick(), WaitStatus::Running);
    assert_eq!(state.pc, 0x202);
    assert_eq!(state.sp, 0)
}

#[test]
fn test_tick_advances_past_plain_instruction() {
    let mut state = Chip8State::default();

    // LD V1, 0x23 at the program start.
    let rom = vec![0x61, 0x23];
    state.load_program(&rom);

    assert_eq!(state.tick(), WaitStatus::Running);
    assert_eq!(state.registers[1], 0x23);
    assert_eq!(state.pc, 0x202)
}

#[test]
fn test_tick_skip_jumps_over_next_instruction() {
    let mut state = Chip8State::default();

    // SE V0, 0x00 skips when V0 holds 0.
    let rom = vec![0x30, 0x00];
    state.load_program(&rom);

    assert_eq!(state.tick(), WaitStatus::Running);
    assert_eq!(state.pc, 0x204)
}

#[test]
fn test_tick_waits_without_input() {
    let mut state = Chip8State::default();

    // LD V4, K at the program start.
    let rom = vec![0xF4, 0x0A];
    state.load_program(&rom);

    assert_eq!(state.tick(), WaitStatus::Waiting);
    assert_eq!(state.pc, 0x200);

    state.input = 0b0000_0000_0000_0100;

    assert_eq!(state.tick(), WaitStatus::Running);
    assert_eq!(state.registers[4], 2);
    assert_eq!(state.pc, 0x202)
}

#[test]
fn test_ret_on_empty_stack_faults() {
    let mut state = Chip8State::default();

    assert_eq!(Opcode::RET.execute(&mut state), WaitStatus::StackFault);
    assert_eq!(state.pc, 0x200);
    assert_eq!(state.sp, 0)
}

#[test]
fn test_call_on_full_stack_faults() {
    let mut state = Chip8State::default();

    for _ in 0..32 {
        assert_eq!(Opcode::CALL(0x0300).execute(&mut state), WaitStatus::Running);
    }
    assert_eq!(state.sp, 64);
    assert_eq!(Opcode::CALL(0x0300).execute(&mut state), WaitStatus::StackFault);
    assert_eq!(state.sp, 64)
}

#[test]
fn test_default_installs_font() {
    let state = Chip8State::default();
    let sprites = chip8exe::sprite::default_sprites();

    for d in 0..16 {
        for r in 0..5 {
            assert_eq!(state.memory[5 * d + r], sprites[d].rows[r]);
        }
    }
    assert_eq!(state.memory[0], 0xF0);
    assert_eq!(state.memory[79], 0x80);
    assert_eq!(state.pc, 0x200)
}

#[test]
fn test_timer_ticks_between_counts_periods() {
    assert_eq!(chip8exe::timer_ticks_between(0, 16_666_666), 1);
    assert_eq!(chip8exe::timer_ticks_between(0, 16_666_665), 0);
    assert_eq!(chip8exe::timer_ticks_between(16_666_666, 50_000_000), 2);
    assert_eq!(chip8exe::timer_ticks_between(50_000_000, 16_666_666), 0)
}

#[test]
fn test_read_input_ignores_keys_beyond_keypad() {
    let mut state = Chip8State::default();

    state.input = 0xFFFF;
    assert!(state.read_input(0));
    assert!(state.read_input(15));
    assert!(!state.read_input(16));
    assert!(!state.read_input(255))
}

#[test]
fn test_write_fb_wraps_around_edges() {
    let mut state = Chip8State::default();

    // Column 64 wraps to column 0; row 32 wraps to row 0.
    assert!(!state.write_fb(0xFF, 64, 32));
    assert_eq!(state.framebuffer[0], 0xFF)
}
