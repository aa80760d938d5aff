use chip8core::{decode_op, Emu, EmuError, Instr, H, W};

fn set_reg(emu: &mut Emu, x: u16, val: u8) {
    emu.execute_with(0x6000 | (x << 8) | val as u16, 0).unwrap();
}

#[test]
fn new_machine_state() {
    let emu = Emu::new();
    assert_eq!(emu.pc(), 0x200);
    assert_eq!(emu.index(), 0);
    assert_eq!(emu.stack_depth(), 0);
    assert_eq!(emu.delay_timer(), 0);
    assert_eq!(emu.sound_timer(), 0);
    assert!(emu.registers().iter().all(|&r| r == 0));
    assert_eq!(emu.memory().len(), 4096);
    assert_eq!(&emu.memory()[0..5], &[0xF0, 0x90, 0x90, 0x90, 0xF0]);
    assert_eq!(&emu.memory()[75..80], &[0xF0, 0x80, 0xF0, 0x80, 0x80]);
    assert!(emu.memory()[80..].iter().all(|&b| b == 0));
    assert_eq!(emu.getscreen().len(), W * H);
    assert!(emu.getscreen().iter().all(|&p| !p));
}

#[test]
fn reset_restores_power_on_state() {
    let mut emu = Emu::new();
    emu.load(&[0x60, 0x11, 0xA1, 0x23]).unwrap();
    emu.tick().unwrap();
    emu.tick().unwrap();
    emu.keypress(3, true).unwrap();
    emu.reset();
    let fresh = Emu::new();
    assert_eq!(emu.pc(), fresh.pc());
    assert_eq!(emu.index(), 0);
    assert_eq!(emu.registers(), fresh.registers());
    assert_eq!(emu.memory(), fresh.memory());
}

#[test]
fn load_copies_at_start_address() {
    let mut emu = Emu::new();
    emu.load(&[1, 2, 3]).unwrap();
    assert_eq!(&emu.memory()[0x200..0x204], &[1, 2, 3, 0]);
    assert_eq!(emu.pc(), 0x200);
}

#[test]
fn load_largest_program_fits() {
    let mut emu = Emu::new();
    let data = vec![0xAB; 4096 - 0x200];
    assert_eq!(emu.load(&data), Ok(()));
    assert_eq!(emu.memory()[4095], 0xAB);
}

#[test]
fn load_too_large_is_refused() {
    let mut emu = Emu::new();
    let data = vec![0xAB; 4096 - 0x200 + 1];
    assert_eq!(emu.load(&data), Err(EmuError::ProgramTooLarge));
    assert_eq!(emu.memory()[0x200], 0);
}

#[test]
fn add_sets_carry() {
    let mut emu = Emu::new();
    set_reg(&mut emu, 1, 200);
    set_reg(&mut emu, 2, 100);
    emu.execute(0x8124).unwrap();
    assert_eq!(emu.registers()[1], 44);
    assert_eq!(emu.registers()[0xF], 1);
}

#[test]
fn add_without_carry() {
    let mut emu = Emu::new();
    set_reg(&mut emu, 1, 200);
    set_reg(&mut emu, 2, 55);
    emu.execute(0x8124).unwrap();
    assert_eq!(emu.registers()[1], 255);
    assert_eq!(emu.registers()[0xF], 0);
}

#[test]
fn sub_with_borrow() {
    let mut emu = Emu::new();
    set_reg(&mut emu, 3, 5);
    set_reg(&mut emu, 4, 10);
    emu.execute(0x8345).unwrap();
    assert_eq!(emu.registers()[3], 251);
    assert_eq!(emu.registers()[0xF], 0);
}

#[test]
fn sub_without_borrow() {
    let mut emu = Emu::new();
    set_reg(&mut emu, 3, 10);
    set_reg(&mut emu, 4, 10);
    emu.execute(0x8345).unwrap();
    assert_eq!(emu.registers()[3], 0);
    assert_eq!(emu.registers()[0xF], 1);
}

#[test]
fn reverse_sub_and_shifts() {
    let mut emu = Emu::new();
    set_reg(&mut emu, 1, 10);
    set_reg(&mut emu, 2, 3);
    emu.execute(0x8127).unwrap();
    assert_eq!(emu.registers()[1], 249);
    assert_eq!(emu.registers()[0xF], 0);
    set_reg(&mut emu, 5, 0b1000_0011);
    emu.execute(0x8506).unwrap();
    assert_eq!(emu.registers()[5], 0b0100_0001);
    assert_eq!(emu.registers()[0xF], 1);
    set_reg(&mut emu, 6, 0b1000_0011);
    emu.execute(0x860E).unwrap();
    assert_eq!(emu.registers()[6], 0b0000_0110);
    assert_eq!(emu.registers()[0xF], 1);
}

#[test]
fn logic_and_immediate_ops() {
    let mut emu = Emu::new();
    set_reg(&mut emu, 1, 0b1100);
    set_reg(&mut emu, 2, 0b1010);
    emu.execute(0x8121).unwrap();
    assert_eq!(emu.registers()[1], 0b1110);
    emu.execute(0x8122).unwrap();
    assert_eq!(emu.registers()[1], 0b1010);
    emu.execute(0x8123).unwrap();
    assert_eq!(emu.registers()[1], 0);
    emu.execute(0x8120).unwrap();
    assert_eq!(emu.registers()[1], 0b1010);
    emu.execute(0x71FF).unwrap();
    assert_eq!(emu.registers()[1], 9);
    assert_eq!(emu.registers()[0xF], 0);
}

#[test]
fn clear_screen_blanks_framebuffer() {
    let mut emu = Emu::new();
    set_reg(&mut emu, 0, 10);
    emu.execute(0xA000).unwrap();
    emu.execute(0xD005).unwrap();
    assert!(emu.getscreen().iter().any(|&p| p));
    emu.execute(0x00E0).unwrap();
    assert_eq!(emu.getscreen().len(), 64 * 32);
    assert!(emu.getscreen().iter().all(|&p| !p));
}

#[test]
fn load_then_jump() {
    let mut emu = Emu::new();
    emu.load(&[0x1A, 0xBC]).unwrap();
    let regs = emu.registers().to_vec();
    emu.tick().unwrap();
    assert_eq!(emu.pc(), 0xABC);
    assert_eq!(emu.registers(), &regs[..]);
    assert_eq!(emu.index(), 0);
}

#[test]
fn call_then_return() {
    let mut emu = Emu::new();
    let mut prog = vec![0x23, 0x00];
    prog.resize(0x100, 0);
    prog.extend_from_slice(&[0x00, 0xEE]);
    emu.load(&prog).unwrap();
    emu.tick().unwrap();
    assert_eq!(emu.pc(), 0x300);
    assert_eq!(emu.stack_depth(), 1);
    emu.tick().unwrap();
    assert_eq!(emu.pc(), 0x202);
    assert_eq!(emu.stack_depth(), 0);
}

#[test]
fn sprite_draw_and_collision() {
    let mut emu = Emu::new();
    emu.load(&[0xF0]).unwrap();
    emu.execute(0xA200).unwrap();
    emu.execute(0xD011).unwrap();
    let screen = emu.getscreen();
    assert!(screen[0..4].iter().all(|&p| p));
    assert!(screen[4..8].iter().all(|&p| !p));
    assert_eq!(emu.registers()[0xF], 0);
    emu.execute(0xD011).unwrap();
    assert!(emu.getscreen()[0..8].iter().all(|&p| !p));
    assert_eq!(emu.registers()[0xF], 1);
}

#[test]
fn sprite_wraps_around_edges() {
    let mut emu = Emu::new();
    emu.load(&[0xFF, 0x81]).unwrap();
    emu.execute(0xA200).unwrap();
    set_reg(&mut emu, 1, 60);
    set_reg(&mut emu, 2, 31);
    emu.execute(0xD122).unwrap();
    let screen = emu.getscreen();
    for x in 60..64 {
        assert!(screen[x + 64 * 31]);
    }
    for x in 0..4 {
        assert!(screen[x + 64 * 31]);
    }
    assert!(screen[60]);
    assert!(!screen[61]);
    assert!(screen[3]);
    assert_eq!(emu.getscreen().iter().filter(|&&p| p).count(), 10);
}

#[test]
fn draw_past_memory_end_is_refused() {
    let mut emu = Emu::new();
    emu.execute(0xAFFF).unwrap();
    assert_eq!(emu.execute(0xD002), Err(EmuError::MemoryOutOfRange));
    assert!(emu.getscreen().iter().all(|&p| !p));
}

#[test]
fn bcd_of_234() {
    let mut emu = Emu::new();
    set_reg(&mut emu, 3, 234);
    emu.execute(0xA300).unwrap();
    emu.execute(0xF333).unwrap();
    assert_eq!(&emu.memory()[0x300..0x303], &[2, 3, 4]);
}

#[test]
fn bcd_past_memory_end_is_refused() {
    let mut emu = Emu::new();
    emu.execute(0xAFFE).unwrap();
    assert_eq!(emu.execute(0xF033), Err(EmuError::MemoryOutOfRange));
}

#[test]
fn timers_count_down_to_zero() {
    let mut emu = Emu::new();
    set_reg(&mut emu, 0, 2);
    set_reg(&mut emu, 1, 1);
    emu.execute(0xF015).unwrap();
    emu.execute(0xF118).unwrap();
    emu.tick_time();
    assert_eq!(emu.delay_timer(), 1);
    assert_eq!(emu.sound_timer(), 0);
    emu.tick_time();
    assert_eq!(emu.delay_timer(), 0);
    assert_eq!(emu.sound_timer(), 0);
    emu.tick_time();
    assert_eq!(emu.delay_timer(), 0);
    assert_eq!(emu.sound_timer(), 0);
    emu.execute(0xF207).unwrap();
    assert_eq!(emu.registers()[2], 0);
}

#[test]
fn store_then_load_registers() {
    let mut emu = Emu::new();
    for x in 0..5u16 {
        set_reg(&mut emu, x, (x as u8 + 1) * 17);
    }
    emu.execute(0xA400).unwrap();
    emu.execute(0xF455).unwrap();
    assert_eq!(&emu.memory()[0x400..0x406], &[17, 34, 51, 68, 85, 0]);
    for x in 0..5u16 {
        set_reg(&mut emu, x, 0);
    }
    emu.execute(0xF465).unwrap();
    assert_eq!(&emu.registers()[0..6], &[17, 34, 51, 68, 85, 0]);
}

#[test]
fn skips() {
    let mut emu = Emu::new();
    set_reg(&mut emu, 1, 7);
    set_reg(&mut emu, 2, 7);
    emu.execute(0x3107).unwrap();
    assert_eq!(emu.pc(), 0x202);
    emu.execute(0x4107).unwrap();
    assert_eq!(emu.pc(), 0x202);
    emu.execute(0x5120).unwrap();
    assert_eq!(emu.pc(), 0x204);
    emu.execute(0x9120).unwrap();
    assert_eq!(emu.pc(), 0x204);
    emu.execute(0x4108).unwrap();
    assert_eq!(emu.pc(), 0x206);
}

#[test]
fn key_skips_and_bad_key() {
    let mut emu = Emu::new();
    set_reg(&mut emu, 0, 5);
    emu.execute(0xE09E).unwrap();
    assert_eq!(emu.pc(), 0x200);
    emu.execute(0xE0A1).unwrap();
    assert_eq!(emu.pc(), 0x202);
    emu.keypress(5, true).unwrap();
    emu.execute(0xE09E).unwrap();
    assert_eq!(emu.pc(), 0x204);
    set_reg(&mut emu, 0, 16);
    assert_eq!(emu.execute(0xE09E), Err(EmuError::KeyOutOfRange));
    assert_eq!(emu.keypress(16, true), Err(EmuError::KeyOutOfRange));
}

#[test]
fn wait_key_repeats_until_pressed() {
    let mut emu = Emu::new();
    emu.load(&[0xF3, 0x0A]).unwrap();
    emu.tick().unwrap();
    assert_eq!(emu.pc(), 0x200);
    emu.tick().unwrap();
    assert_eq!(emu.pc(), 0x200);
    emu.keypress(0xB, true).unwrap();
    emu.keypress(0x9, true).unwrap();
    emu.tick().unwrap();
    assert_eq!(emu.pc(), 0x202);
    assert_eq!(emu.registers()[3], 9);
}

#[test]
fn index_and_font_ops() {
    let mut emu = Emu::new();
    set_reg(&mut emu, 2, 0xA);
    emu.execute(0xF229).unwrap();
    assert_eq!(emu.index(), 50);
    emu.execute(0xF21E).unwrap();
    assert_eq!(emu.index(), 60);
    emu.execute(0xAFFF).unwrap();
    set_reg(&mut emu, 2, 0xFF);
    emu.execute(0xF21E).unwrap();
    assert_eq!(emu.index(), 0x10FE);
}

#[test]
fn jump_with_offset() {
    let mut emu = Emu::new();
    set_reg(&mut emu, 0, 0x10);
    emu.execute(0xB300).unwrap();
    assert_eq!(emu.pc(), 0x310);
}

#[test]
fn random_is_masked() {
    let mut emu = Emu::new();
    set_reg(&mut emu, 4, 0xFF);
    emu.execute(0xC400).unwrap();
    assert_eq!(emu.registers()[4], 0);
    for _ in 0..32 {
        emu.execute(0xC40F).unwrap();
        assert_eq!(emu.registers()[4] & 0xF0, 0);
    }
    emu.execute_with(0xC43C, 0xFF).unwrap();
    assert_eq!(emu.registers()[4], 0x3C);
}

#[test]
fn stack_limits() {
    let mut emu = Emu::new();
    assert_eq!(emu.execute(0x00EE), Err(EmuError::StackUnderflow));
    for _ in 0..16 {
        emu.execute(0x2400).unwrap();
    }
    assert_eq!(emu.stack_depth(), 16);
    assert_eq!(emu.execute(0x2400), Err(EmuError::StackOverflow));
    assert_eq!(emu.stack_depth(), 16);
}

#[test]
fn unknown_opcode_is_reported() {
    let mut emu = Emu::new();
    assert_eq!(emu.execute(0x0123), Err(EmuError::UnknownOpcode(0x0123)));
    assert_eq!(emu.execute(0x5121), Err(EmuError::UnknownOpcode(0x5121)));
    assert_eq!(emu.execute(0xF0FF), Err(EmuError::UnknownOpcode(0xF0FF)));
    emu.load(&[0x80, 0x0F]).unwrap();
    assert_eq!(emu.tick(), Err(EmuError::UnknownOpcode(0x800F)));
    assert_eq!(emu.pc(), 0x200);
}

#[test]
fn fetch_past_memory_end_is_refused() {
    let mut emu = Emu::new();
    emu.execute(0x1FFF).unwrap();
    assert_eq!(emu.tick(), Err(EmuError::PcOutOfRange));
    assert_eq!(emu.pc(), 0xFFF);
}

#[test]
fn idle_opcode_does_nothing() {
    let mut emu = Emu::new();
    emu.tick().unwrap();
    assert_eq!(emu.pc(), 0x202);
    assert!(emu.registers().iter().all(|&r| r == 0));
}

#[test]
fn decode_names_instructions() {
    assert_eq!(decode_op(0x00E0), Some(Instr::ClearScreen));
    assert_eq!(decode_op(0xD123), Some(Instr::Draw { x: 1, y: 2, n: 3 }));
    assert_eq!(decode_op(0x8AB6), Some(Instr::ShiftRight { x: 0xA }));
    assert_eq!(decode_op(0xF765), Some(Instr::LoadRegs { x: 7 }));
    assert_eq!(decode_op(0xE1A2), None);
}
