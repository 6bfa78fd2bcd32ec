use chip8::{Chip8, Chip8Error, Instruction, decode};

#[test]
fn new_machine_is_zeroed_with_counter_at_program_start() {
    let c = Chip8::new();
    assert_eq!(c.pc, 0x200);
    assert_eq!(c.i, 0);
    assert_eq!(c.sp, 0);
    assert_eq!(c.delay_timer, 0);
    assert_eq!(c.sound_timer, 0);
    assert!(c.memory.iter().all(|&b| b == 0));
    assert!(c.v.iter().all(|&b| b == 0));
    assert!(c.gfx.iter().all(|&b| b == 0));
    assert!(c.keypad.iter().all(|&b| b == 0));
}

#[test]
fn rom_loads_at_program_start() {
    let mut c = Chip8::new();
    c.load_rom(&[0xDE, 0xAD, 0xBE, 0xEF]);
    assert_eq!(c.memory[0x200], 0xDE);
    assert_eq!(c.memory[0x201], 0xAD);
    assert_eq!(c.memory[0x202], 0xBE);
    assert_eq!(c.memory[0x203], 0xEF);
    assert_eq!(c.memory[0x1FF], 0);
    assert_eq!(c.memory[0x204], 0);
}

#[test]
fn load_then_add_scenario() {
    let mut c = Chip8::new();
    c.load_rom(&[0x60, 0x05, 0x61, 0x03, 0x80, 0x14]);
    for _ in 0..3 {
        assert_eq!(c.emulate_cycle(), Ok(()));
    }
    assert_eq!(c.v[0], 8);
    assert_eq!(c.v[1], 3);
    assert_eq!(c.v[0xF], 0);
    assert_eq!(c.pc, 0x206);
}

#[test]
fn jump_to_self_never_drifts() {
    let mut c = Chip8::new();
    c.load_rom(&[0x12, 0x00]);
    for _ in 0..100 {
        assert_eq!(c.pc, 0x200);
        assert_eq!(c.emulate_cycle(), Ok(()));
    }
    assert_eq!(c.pc, 0x200);
    assert_eq!(c.sp, 0);
    assert!(c.v.iter().all(|&b| b == 0));
}

#[test]
fn skip_if_equal_takes_and_falls_through() {
    let mut c = Chip8::new();
    c.load_rom(&[0x30, 0x01, 0x30, 0x00]);
    assert_eq!(c.emulate_cycle(), Ok(()));
    assert_eq!(c.pc, 0x202);
    assert_eq!(c.emulate_cycle(), Ok(()));
    assert_eq!(c.pc, 0x206);
}

#[test]
fn call_and_return_through_the_cycle_driver() {
    let mut c = Chip8::new();
    c.load_rom(&[0x23, 0x00]);
    c.memory[0x300] = 0x00;
    c.memory[0x301] = 0xEE;
    assert_eq!(c.emulate_cycle(), Ok(()));
    assert_eq!(c.pc, 0x300);
    assert_eq!(c.sp, 1);
    assert_eq!(c.emulate_cycle(), Ok(()));
    assert_eq!(c.pc, 0x202);
    assert_eq!(c.sp, 0);
}

#[test]
fn invalid_opcode_is_reported_with_opcode_and_counter() {
    let mut c = Chip8::new();
    c.load_rom(&[0x80, 0x18]);
    let r = c.emulate_cycle();
    assert_eq!(r, Err(Chip8Error::InvalidOpcode { opcode: 0x8018, pc: 0x202 }));
}

#[test]
fn all_zero_memory_is_an_invalid_opcode() {
    let mut c = Chip8::new();
    let r = c.emulate_cycle();
    assert_eq!(r, Err(Chip8Error::InvalidOpcode { opcode: 0, pc: 0x202 }));
}

#[test]
fn return_without_call_fails_through_the_cycle_driver() {
    let mut c = Chip8::new();
    c.load_rom(&[0x00, 0xEE]);
    let r = c.emulate_cycle();
    assert_eq!(r, Err(Chip8Error::StackUnderflow { depth: 0 }));
}

#[test]
fn fetch_at_the_end_of_memory_fails() {
    let mut c = Chip8::new();
    c.pc = 4095;
    let r = c.emulate_cycle();
    assert_eq!(r, Err(Chip8Error::MemoryOutOfRange { address: 4095 }));
    assert_eq!(c.pc, 4095);
}

#[test]
fn wait_for_key_holds_the_machine_then_proceeds() {
    let mut c = Chip8::new();
    c.load_rom(&[0xF5, 0x0A]);
    for _ in 0..3 {
        assert_eq!(c.emulate_cycle(), Ok(()));
        assert_eq!(c.pc, 0x200);
    }
    c.set_key(7, true);
    assert_eq!(c.emulate_cycle(), Ok(()));
    assert_eq!(c.pc, 0x202);
    assert_eq!(c.v[5], 7);
}

#[test]
fn keypad_state_is_level_triggered() {
    let mut c = Chip8::new();
    c.set_key(3, true);
    assert_eq!(c.keypad[3], 1);
    c.set_key(3, true);
    assert_eq!(c.keypad[3], 1);
    c.set_key(3, false);
    assert_eq!(c.keypad[3], 0);
}

#[test]
fn skip_if_key_pressed_through_the_cycle_driver() {
    let mut c = Chip8::new();
    c.load_rom(&[0x60, 0x04, 0xE0, 0x9E, 0x00, 0x00, 0xE0, 0xA1]);
    c.set_key(4, true);
    assert_eq!(c.emulate_cycle(), Ok(()));
    assert_eq!(c.emulate_cycle(), Ok(()));
    assert_eq!(c.pc, 0x206);
    assert_eq!(c.emulate_cycle(), Ok(()));
    assert_eq!(c.pc, 0x208);
}

#[test]
fn graphics_view_matches_framebuffer() {
    let mut c = Chip8::new();
    c.memory[0x300] = 0x80;
    c.i = 0x300;
    assert_eq!(
        chip8::DrwVxVyNibble { x: 0, y: 0, n: 1 }.execute(&mut c),
        Ok(())
    );
    let g = c.get_graphics();
    assert_eq!(g.len(), 2048);
    assert_eq!(g[0], 1);
    assert_eq!(g[1], 0);
}

#[test]
fn delay_timer_counts_down_and_stops_at_zero() {
    let mut c = Chip8::new();
    c.delay_timer = 1;
    c.tick();
    assert_eq!(c.delay_timer, 0);
    c.tick();
    assert_eq!(c.delay_timer, 0);
}

#[test]
fn sound_timer_signals_exactly_once() {
    let mut c = Chip8::new();
    c.sound_timer = 2;
    assert!(!c.tick());
    assert_eq!(c.sound_timer, 1);
    assert!(c.tick());
    assert_eq!(c.sound_timer, 0);
    assert!(!c.tick());
    assert_eq!(c.sound_timer, 0);
}

#[test]
fn timer_instructions_move_values_both_ways() {
    let mut c = Chip8::new();
    c.load_rom(&[0x60, 0x30, 0xF0, 0x15, 0xF0, 0x18, 0xF1, 0x07]);
    for _ in 0..4 {
        assert_eq!(c.emulate_cycle(), Ok(()));
    }
    assert_eq!(c.delay_timer, 0x30);
    assert_eq!(c.sound_timer, 0x30);
    assert_eq!(c.v[1], 0x30);
}

#[test]
fn decoder_maps_each_pattern() {
    assert!(matches!(decode(0x00E0), Instruction::Cls(_)));
    assert!(matches!(decode(0x00EE), Instruction::Ret(_)));
    assert!(matches!(decode(0x0123), Instruction::Invalid(_)));
    match decode(0x1ABC) {
        Instruction::Jmp(i) => assert_eq!(i.address, 0xABC),
        _ => panic!("expected a jump"),
    }
    match decode(0x2ABC) {
        Instruction::Call(i) => assert_eq!(i.address, 0xABC),
        _ => panic!("expected a call"),
    }
    match decode(0x3A42) {
        Instruction::SeVxByte(i) => {
            assert_eq!(i.x, 0xA);
            assert_eq!(i.byte, 0x42);
        }
        _ => panic!("expected a skip-if-equal"),
    }
    match decode(0x4A42) {
        Instruction::SneVxByte(i) => assert_eq!(i.x, 0xA),
        _ => panic!("expected a skip-if-not-equal"),
    }
    assert!(matches!(decode(0x5120), Instruction::SeVxVy(_)));
    match decode(0x6C11) {
        Instruction::LdVxByte(i) => {
            assert_eq!(i.x, 0xC);
            assert_eq!(i.byte, 0x11);
        }
        _ => panic!("expected a load-immediate"),
    }
    assert!(matches!(decode(0x7C11), Instruction::AddVxByte(_)));
    match decode(0x8120) {
        Instruction::LdVxVy(i) => {
            assert_eq!(i.x, 1);
            assert_eq!(i.y, 2);
        }
        _ => panic!("expected a register copy"),
    }
    assert!(matches!(decode(0x8121), Instruction::OrVxVy(_)));
    assert!(matches!(decode(0x8122), Instruction::AndVxVy(_)));
    assert!(matches!(decode(0x8123), Instruction::XorVxVy(_)));
    assert!(matches!(decode(0x8124), Instruction::AddVxVy(_)));
    assert!(matches!(decode(0x8125), Instruction::SubVxVy(_)));
    assert!(matches!(decode(0x8126), Instruction::ShrVxVy(_)));
    assert!(matches!(decode(0x8127), Instruction::SubnVxVy(_)));
    assert!(matches!(decode(0x812E), Instruction::ShlVxVy(_)));
    assert!(matches!(decode(0x8128), Instruction::Invalid(_)));
    assert!(matches!(decode(0x9120), Instruction::SneVxVy(_)));
    match decode(0xA321) {
        Instruction::LdIAddr(i) => assert_eq!(i.address, 0x321),
        _ => panic!("expected a load-index"),
    }
    assert!(matches!(decode(0xB321), Instruction::JmpV0Addr(_)));
    assert!(matches!(decode(0xC3F0), Instruction::RndVxByte(_)));
    match decode(0xD125) {
        Instruction::DrwVxVyNibble(i) => {
            assert_eq!(i.x, 1);
            assert_eq!(i.y, 2);
            assert_eq!(i.n, 5);
        }
        _ => panic!("expected a draw"),
    }
    assert!(matches!(decode(0xE19E), Instruction::SkpVx(_)));
    assert!(matches!(decode(0xE1A1), Instruction::SknpVx(_)));
    assert!(matches!(decode(0xE1A2), Instruction::Invalid(_)));
    assert!(matches!(decode(0xF107), Instruction::LdVxDT(_)));
    assert!(matches!(decode(0xF10A), Instruction::LdVxK(_)));
    assert!(matches!(decode(0xF115), Instruction::LdDTVx(_)));
    assert!(matches!(decode(0xF118), Instruction::LdSTVx(_)));
    assert!(matches!(decode(0xF11E), Instruction::AddIVx(_)));
    assert!(matches!(decode(0xF129), Instruction::LdFVx(_)));
    assert!(matches!(decode(0xF133), Instruction::LdBVx(_)));
    assert!(matches!(decode(0xF155), Instruction::LdIVx(_)));
    assert!(matches!(decode(0xF165), Instruction::LdVxI(_)));
    match decode(0xF1FF) {
        Instruction::Invalid(i) => assert_eq!(i.opcode, 0xF1FF),
        _ => panic!("expected the invalid case"),
    }
}

#[test]
fn execute_instruction_dispatches_a_decoded_value() {
    let mut c = Chip8::new();
    let ins = decode(0x6A2B);
    assert_eq!(c.execute_instruction(&ins), Ok(()));
    assert_eq!(c.v[0xA], 0x2B);
}
