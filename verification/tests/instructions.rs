use chip8::{
    AddIVx, AddVxByte, AddVxVy, AndVxVy, Call, Chip8, Chip8Error, Cls, DrwVxVyNibble, Jmp,
    JmpV0Addr, LdBVx, LdFVx, LdIAddr, LdIVx, LdVxI, LdVxK, LdVxVy, OrVxVy, Ret, RndVxByte,
    SeVxVy, ShlVxVy, ShrVxVy, SkpVx, SneVxVy, SubVxVy, SubnVxVy, Sys, XorVxVy,
};

#[test]
fn bitwise_ops_into_x() {
    let mut c = Chip8::new();
    c.v[0] = 0b1100;
    c.v[1] = 0b1010;
    assert_eq!(OrVxVy { x: 0, y: 1 }.execute(&mut c), Ok(()));
    assert_eq!(c.v[0], 0b1110);
    c.v[0] = 0b1100;
    assert_eq!(AndVxVy { x: 0, y: 1 }.execute(&mut c), Ok(()));
    assert_eq!(c.v[0], 0b1000);
    c.v[0] = 0b1100;
    assert_eq!(XorVxVy { x: 0, y: 1 }.execute(&mut c), Ok(()));
    assert_eq!(c.v[0], 0b0110);
    assert_eq!(c.v[1], 0b1010);
}

#[test]
fn copy_register() {
    let mut c = Chip8::new();
    c.v[7] = 0x5A;
    assert_eq!(LdVxVy { x: 2, y: 7 }.execute(&mut c), Ok(()));
    assert_eq!(c.v[2], 0x5A);
    assert_eq!(c.v[7], 0x5A);
}

#[test]
fn add_immediate_wraps_without_touching_flag() {
    let mut c = Chip8::new();
    c.v[3] = 250;
    c.v[0xF] = 7;
    assert_eq!(AddVxByte { x: 3, byte: 10 }.execute(&mut c), Ok(()));
    assert_eq!(c.v[3], 4);
    assert_eq!(c.v[0xF], 7);
}

#[test]
fn register_compare_skips() {
    let mut c = Chip8::new();
    c.pc = 0x200;
    c.v[0] = 4;
    c.v[1] = 4;
    assert_eq!(SeVxVy { x: 0, y: 1 }.execute(&mut c), Ok(()));
    assert_eq!(c.pc, 0x202);
    assert_eq!(SneVxVy { x: 0, y: 1 }.execute(&mut c), Ok(()));
    assert_eq!(c.pc, 0x202);
    c.v[1] = 5;
    assert_eq!(SeVxVy { x: 0, y: 1 }.execute(&mut c), Ok(()));
    assert_eq!(c.pc, 0x202);
    assert_eq!(SneVxVy { x: 0, y: 1 }.execute(&mut c), Ok(()));
    assert_eq!(c.pc, 0x204);
}

#[test]
fn load_index_register() {
    let mut c = Chip8::new();
    assert_eq!(LdIAddr { address: 0x9AB }.execute(&mut c), Ok(()));
    assert_eq!(c.i, 0x9AB);
}

#[test]
fn sys_changes_nothing() {
    let mut c = Chip8::new();
    c.v[0] = 9;
    c.pc = 0x300;
    assert_eq!(Sys.execute(&mut c), Ok(()));
    assert_eq!(c.v[0], 9);
    assert_eq!(c.pc, 0x300);
    assert_eq!(c.sp, 0);
}

#[test]
fn add_with_carry() {
    let mut c = Chip8::new();
    c.v[0] = 200;
    c.v[1] = 100;
    let r = AddVxVy { x: 0, y: 1 }.execute(&mut c);
    assert_eq!(r, Ok(()));
    assert_eq!(c.v[0], 44);
    assert_eq!(c.v[0xF], 1);
}

#[test]
fn add_without_carry() {
    let mut c = Chip8::new();
    c.v[2] = 100;
    c.v[3] = 155;
    let r = AddVxVy { x: 2, y: 3 }.execute(&mut c);
    assert_eq!(r, Ok(()));
    assert_eq!(c.v[2], 255);
    assert_eq!(c.v[0xF], 0);
}

#[test]
fn sub_without_borrow() {
    let mut c = Chip8::new();
    c.v[0] = 9;
    c.v[1] = 5;
    let r = SubVxVy { x: 0, y: 1 }.execute(&mut c);
    assert_eq!(r, Ok(()));
    assert_eq!(c.v[0], 4);
    assert_eq!(c.v[0xF], 1);
}

#[test]
fn sub_with_borrow_wraps() {
    let mut c = Chip8::new();
    c.v[0] = 5;
    c.v[1] = 9;
    let r = SubVxVy { x: 0, y: 1 }.execute(&mut c);
    assert_eq!(r, Ok(()));
    assert_eq!(c.v[0], 252);
    assert_eq!(c.v[0xF], 0);
}

#[test]
fn sub_equal_registers_sets_flag() {
    let mut c = Chip8::new();
    c.v[0] = 7;
    c.v[1] = 7;
    let r = SubVxVy { x: 0, y: 1 }.execute(&mut c);
    assert_eq!(r, Ok(()));
    assert_eq!(c.v[0], 0);
    assert_eq!(c.v[0xF], 1);
}

#[test]
fn subn_reverse_subtract() {
    let mut c = Chip8::new();
    c.v[0] = 5;
    c.v[1] = 9;
    let r = SubnVxVy { x: 0, y: 1 }.execute(&mut c);
    assert_eq!(r, Ok(()));
    assert_eq!(c.v[0], 4);
    assert_eq!(c.v[0xF], 1);
}

#[test]
fn shr_keeps_low_bit_in_flag() {
    let mut c = Chip8::new();
    c.v[4] = 0b1001_0101;
    let r = ShrVxVy { x: 4, y: 0 }.execute(&mut c);
    assert_eq!(r, Ok(()));
    assert_eq!(c.v[4], 0b0100_1010);
    assert_eq!(c.v[0xF], 1);
}

#[test]
fn shl_keeps_high_bit_in_flag() {
    let mut c = Chip8::new();
    c.v[4] = 0b1001_0101;
    let r = ShlVxVy { x: 4, y: 0 }.execute(&mut c);
    assert_eq!(r, Ok(()));
    assert_eq!(c.v[4], 0b0010_1010);
    assert_eq!(c.v[0xF], 1);
}

#[test]
fn clear_screen_zeroes_every_cell() {
    let mut c = Chip8::new();
    for t in 0..2048 {
        c.gfx[t] = (t % 2) as u8;
    }
    let r = Cls.execute(&mut c);
    assert_eq!(r, Ok(()));
    assert!(c.gfx.iter().all(|&p| p == 0));
}

#[test]
fn draw_lights_pixels_without_collision() {
    let mut c = Chip8::new();
    c.memory[0x300] = 0b1010_0001;
    c.i = 0x300;
    c.v[0] = 4;
    c.v[1] = 2;
    let r = DrwVxVyNibble { x: 0, y: 1, n: 1 }.execute(&mut c);
    assert_eq!(r, Ok(()));
    assert_eq!(c.v[0xF], 0);
    assert_eq!(c.gfx[2 * 64 + 4], 1);
    assert_eq!(c.gfx[2 * 64 + 5], 0);
    assert_eq!(c.gfx[2 * 64 + 6], 1);
    assert_eq!(c.gfx[2 * 64 + 11], 1);
}

#[test]
fn draw_twice_restores_and_reports_collision() {
    let mut c = Chip8::new();
    c.memory[0x300] = 0xFF;
    c.memory[0x301] = 0x81;
    c.i = 0x300;
    c.v[0] = 10;
    c.v[1] = 5;
    let before: Vec<u8> = c.gfx.clone();
    let r1 = DrwVxVyNibble { x: 0, y: 1, n: 2 }.execute(&mut c);
    assert_eq!(r1, Ok(()));
    assert_eq!(c.v[0xF], 0);
    assert_ne!(c.gfx, before);
    let r2 = DrwVxVyNibble { x: 0, y: 1, n: 2 }.execute(&mut c);
    assert_eq!(r2, Ok(()));
    assert_eq!(c.v[0xF], 1);
    assert_eq!(c.gfx, before);
}

#[test]
fn draw_wraps_around_both_edges() {
    let mut c = Chip8::new();
    c.memory[0x300] = 0xFF;
    c.i = 0x300;
    c.v[0] = 62;
    c.v[1] = 31;
    let r = DrwVxVyNibble { x: 0, y: 1, n: 1 }.execute(&mut c);
    assert_eq!(r, Ok(()));
    assert_eq!(c.gfx[31 * 64 + 62], 1);
    assert_eq!(c.gfx[31 * 64 + 63], 1);
    assert_eq!(c.gfx[31 * 64 + 0], 1);
    assert_eq!(c.gfx[31 * 64 + 5], 1);
    assert_eq!(c.gfx[31 * 64 + 6], 0);
}

#[test]
fn draw_out_of_memory_reports_address() {
    let mut c = Chip8::new();
    c.i = 4090;
    let r = DrwVxVyNibble { x: 0, y: 1, n: 15 }.execute(&mut c);
    assert_eq!(r, Err(Chip8Error::MemoryOutOfRange { address: 4090 }));
    assert!(c.gfx.iter().all(|&p| p == 0));
}

#[test]
fn call_then_ret_restores_counter_and_stack() {
    let mut c = Chip8::new();
    c.pc = 0x234;
    let r1 = Call { address: 0x400 }.execute(&mut c);
    assert_eq!(r1, Ok(()));
    assert_eq!(c.pc, 0x400);
    assert_eq!(c.sp, 1);
    let r2 = Ret.execute(&mut c);
    assert_eq!(r2, Ok(()));
    assert_eq!(c.pc, 0x234);
    assert_eq!(c.sp, 0);
}

#[test]
fn ret_on_empty_stack_underflows() {
    let mut c = Chip8::new();
    let r = Ret.execute(&mut c);
    assert_eq!(r, Err(Chip8Error::StackUnderflow { depth: 0 }));
    assert_eq!(c.pc, 0x200);
}

#[test]
fn seventeenth_call_overflows() {
    let mut c = Chip8::new();
    for _ in 0..16 {
        assert_eq!(Call { address: 0x300 }.execute(&mut c), Ok(()));
    }
    assert_eq!(c.sp, 16);
    let r = Call { address: 0x300 }.execute(&mut c);
    assert_eq!(r, Err(Chip8Error::StackOverflow { depth: 16 }));
    assert_eq!(c.sp, 16);
}

#[test]
fn jump_ignores_registers() {
    let mut c = Chip8::new();
    c.v[0] = 0xAB;
    c.v[5] = 0xCD;
    let r = Jmp { address: 0x7C2 }.execute(&mut c);
    assert_eq!(r, Ok(()));
    assert_eq!(c.pc, 0x7C2);
}

#[test]
fn jump_with_offset_adds_register_zero() {
    let mut c = Chip8::new();
    c.v[0] = 0x10;
    let r = JmpV0Addr { address: 0x300 }.execute(&mut c);
    assert_eq!(r, Ok(()));
    assert_eq!(c.pc, 0x310);
}

#[test]
fn skip_rejects_key_out_of_range() {
    let mut c = Chip8::new();
    c.v[0] = 20;
    let r = SkpVx { x: 0 }.execute(&mut c);
    assert_eq!(r, Err(Chip8Error::KeyOutOfRange { key: 20 }));
    assert_eq!(c.pc, 0x200);
}

#[test]
fn random_masking_is_deterministic_given_the_byte() {
    let mut c = Chip8::new();
    let r = RndVxByte { x: 3, byte: 0x0F }.execute_with(&mut c, 0xAB);
    assert_eq!(r, Ok(()));
    assert_eq!(c.v[3], 0x0B);
    let r2 = RndVxByte { x: 3, byte: 0x00 }.execute_with(&mut c, 0xFF);
    assert_eq!(r2, Ok(()));
    assert_eq!(c.v[3], 0);
}

#[test]
fn random_respects_mask() {
    let mut c = Chip8::new();
    for _ in 0..32 {
        let r = RndVxByte { x: 1, byte: 0x1C }.execute(&mut c);
        assert_eq!(r, Ok(()));
        assert_eq!(c.v[1] & !0x1C, 0);
    }
    let r = RndVxByte { x: 1, byte: 0 }.execute(&mut c);
    assert_eq!(r, Ok(()));
    assert_eq!(c.v[1], 0);
}

#[test]
fn wait_for_key_rewinds_when_none_pressed() {
    let mut c = Chip8::new();
    c.pc = 0x202;
    let r = LdVxK { x: 2 }.execute(&mut c);
    assert_eq!(r, Ok(()));
    assert_eq!(c.pc, 0x200);
    assert_eq!(c.v[2], 0);
}

#[test]
fn wait_for_key_detects_key_zero() {
    let mut c = Chip8::new();
    c.pc = 0x202;
    c.set_key(0, true);
    c.v[2] = 9;
    let r = LdVxK { x: 2 }.execute(&mut c);
    assert_eq!(r, Ok(()));
    assert_eq!(c.pc, 0x202);
    assert_eq!(c.v[2], 0);
}

#[test]
fn wait_for_key_picks_lowest_pressed() {
    let mut c = Chip8::new();
    c.pc = 0x202;
    c.set_key(0xB, true);
    c.set_key(0x4, true);
    let r = LdVxK { x: 0 }.execute(&mut c);
    assert_eq!(r, Ok(()));
    assert_eq!(c.v[0], 4);
    assert_eq!(c.pc, 0x202);
}

#[test]
fn font_address_is_five_bytes_per_glyph() {
    let mut c = Chip8::new();
    c.v[6] = 0xA;
    let r = LdFVx { x: 6 }.execute(&mut c);
    assert_eq!(r, Ok(()));
    assert_eq!(c.i, 50);
}

#[test]
fn bcd_stores_three_digits() {
    let mut c = Chip8::new();
    c.v[7] = 234;
    c.i = 0x300;
    let r = LdBVx { x: 7 }.execute(&mut c);
    assert_eq!(r, Ok(()));
    assert_eq!(c.memory[0x300], 2);
    assert_eq!(c.memory[0x301], 3);
    assert_eq!(c.memory[0x302], 4);
    assert_eq!(c.i, 0x300);
}

#[test]
fn bcd_out_of_memory_reports_address() {
    let mut c = Chip8::new();
    c.i = 4094;
    let r = LdBVx { x: 0 }.execute(&mut c);
    assert_eq!(r, Err(Chip8Error::MemoryOutOfRange { address: 4094 }));
}

#[test]
fn store_then_load_registers_round_trips() {
    let mut c = Chip8::new();
    for j in 0..6 {
        c.v[j] = (10 + j) as u8;
    }
    c.i = 0x320;
    let r1 = LdIVx { x: 5 }.execute(&mut c);
    assert_eq!(r1, Ok(()));
    assert_eq!(c.i, 0x320);
    for j in 0..6 {
        assert_eq!(c.memory[0x320 + j], (10 + j) as u8);
        c.v[j] = 0;
    }
    let r2 = LdVxI { x: 5 }.execute(&mut c);
    assert_eq!(r2, Ok(()));
    for j in 0..6 {
        assert_eq!(c.v[j], (10 + j) as u8);
    }
    assert_eq!(c.v[6], 0);
}

#[test]
fn store_registers_out_of_memory_reports_address() {
    let mut c = Chip8::new();
    c.i = 4090;
    let r = LdIVx { x: 15 }.execute(&mut c);
    assert_eq!(r, Err(Chip8Error::MemoryOutOfRange { address: 4090 }));
}

#[test]
fn add_to_index_wraps_sixteen_bits() {
    let mut c = Chip8::new();
    c.i = 0xFFFF;
    c.v[0] = 5;
    let r = AddIVx { x: 0 }.execute(&mut c);
    assert_eq!(r, Ok(()));
    assert_eq!(c.i, 4);
}
