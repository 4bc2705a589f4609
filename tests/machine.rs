use chip8_core::{
    cycle_sleep_nanos, decode, Chip8Core, Chip8Error, Display, Instruction, Key, Ram, Rom,
    FONT_START, MEMORY_SIZE, PROGRAM_START, STACK_EMPTY, TIMER_PERIOD_NANOS,
};

fn machine(program: &[u8]) -> Chip8Core {
    Chip8Core::new(program.to_vec()).expect("program fits")
}

fn blank(core: &Chip8Core) -> bool {
    core.get_display_data().iter().all(|row| row.iter().all(|p| !*p))
}

#[test]
fn fresh_machine_is_in_power_on_state() {
    let core = machine(&[0x12, 0x34]);
    let snap = core.debug_snapshot();
    assert_eq!(snap.pc, 0x200);
    assert_eq!(snap.v, [0u8; 16]);
    assert_eq!(snap.i, 0);
    assert_eq!(snap.delay_timer, 0);
    assert_eq!(snap.sound_timer, 0);
    assert_eq!(snap.sp, STACK_EMPTY);
    assert!(blank(&core));
    assert!(!core.sound_active());
    assert_eq!(core.ram.memory[PROGRAM_START], 0x12);
    assert_eq!(core.ram.memory[PROGRAM_START + 1], 0x34);
    assert_eq!(core.ram.memory[FONT_START], 0xF0);
    assert_eq!(core.ram.memory[FONT_START + 79], 0x80);
    assert_eq!(core.ram.memory[0], 0);
}

#[test]
fn program_that_does_not_fit_is_refused() {
    let too_long = vec![0u8; MEMORY_SIZE - PROGRAM_START + 1];
    assert!(matches!(Chip8Core::new(too_long), Err(Chip8Error::OutOfBounds)));
    let exact = vec![0xABu8; MEMORY_SIZE - PROGRAM_START];
    let core = Chip8Core::new(exact).expect("fits exactly");
    assert_eq!(core.ram.memory[MEMORY_SIZE - 1], 0xAB);
}

#[test]
fn ram_bounds_are_checked() {
    let mut ram = Ram::new();
    assert_eq!(ram.fetch_by_address(0xFFE), Ok(0));
    assert_eq!(ram.fetch_by_address(0xFFF), Err(Chip8Error::OutOfBounds));
    assert_eq!(ram.store_by_address(0x300, 7), Ok(()));
    assert_eq!(ram.fetch_by_address(0x300), Ok(7));
    assert_eq!(ram.store_by_address(0x1000, 7), Err(Chip8Error::OutOfBounds));
    let rom = Rom::new(vec![1, 2, 3]);
    assert_eq!(ram.load_rom(&rom), Ok(()));
    assert_eq!(ram.fetch_by_address(0x202), Ok(3));
    assert_eq!(ram.fetch_by_address(0x100), Ok(0xF0));
}

#[test]
fn clear_screen_advances_pc() {
    let mut core = machine(&[0x00, 0xE0]);
    core.display.write(3, 4, 0xFF);
    assert!(!blank(&core));
    assert_eq!(core.tick(None), Ok(()));
    assert!(blank(&core));
    assert_eq!(core.cpu.pc, 0x202);
}

#[test]
fn add_immediate_wraps_and_sets_carry() {
    let mut core = machine(&[0x60, 0x05, 0x70, 0xFF]);
    assert_eq!(core.tick(None), Ok(()));
    assert_eq!(core.tick(None), Ok(()));
    assert_eq!(core.cpu.v[0], 4);
    assert_eq!(core.cpu.v[0xF], 1);
}

#[test]
fn add_immediate_without_carry_clears_flag() {
    let mut core = machine(&[0x6F, 0x01, 0x63, 0x10, 0x73, 0x20]);
    for _ in 0..3 {
        assert_eq!(core.tick(None), Ok(()));
    }
    assert_eq!(core.cpu.v[3], 0x30);
    assert_eq!(core.cpu.v[0xF], 0);
}

#[test]
fn add_registers_with_carry() {
    let mut core = machine(&[0x61, 0xF0, 0x62, 0x20, 0x81, 0x24]);
    for _ in 0..3 {
        assert_eq!(core.tick(None), Ok(()));
    }
    assert_eq!(core.cpu.v[1], 0x10);
    assert_eq!(core.cpu.v[0xF], 1);
}

#[test]
fn subtract_borrow_convention() {
    let mut core = machine(&[0x61, 3, 0x62, 5, 0x81, 0x25]);
    for _ in 0..3 {
        assert_eq!(core.tick(None), Ok(()));
    }
    assert_eq!(core.cpu.v[1], 254);
    assert_eq!(core.cpu.v[0xF], 0);

    let mut core = machine(&[0x61, 5, 0x62, 3, 0x81, 0x25]);
    for _ in 0..3 {
        assert_eq!(core.tick(None), Ok(()));
    }
    assert_eq!(core.cpu.v[1], 2);
    assert_eq!(core.cpu.v[0xF], 1);
}

#[test]
fn subtract_reverse_borrow_convention() {
    let mut core = machine(&[0x61, 5, 0x62, 3, 0x81, 0x27]);
    for _ in 0..3 {
        assert_eq!(core.tick(None), Ok(()));
    }
    assert_eq!(core.cpu.v[1], 254);
    assert_eq!(core.cpu.v[0xF], 0);
}

#[test]
fn shifts_report_bit_shifted_out() {
    let mut core = machine(&[0x61, 0x81, 0x81, 0x06, 0x62, 0x81, 0x82, 0x0E]);
    assert_eq!(core.tick(None), Ok(()));
    assert_eq!(core.tick(None), Ok(()));
    assert_eq!(core.cpu.v[1], 0x40);
    assert_eq!(core.cpu.v[0xF], 1);
    assert_eq!(core.tick(None), Ok(()));
    assert_eq!(core.tick(None), Ok(()));
    assert_eq!(core.cpu.v[2], 0x02);
    assert_eq!(core.cpu.v[0xF], 1);

    let mut core = machine(&[0x61, 0x02, 0x81, 0x06, 0x81, 0x0E]);
    for _ in 0..2 {
        assert_eq!(core.tick(None), Ok(()));
    }
    assert_eq!(core.cpu.v[1], 0x01);
    assert_eq!(core.cpu.v[0xF], 0);
    assert_eq!(core.tick(None), Ok(()));
    assert_eq!(core.cpu.v[1], 0x02);
    assert_eq!(core.cpu.v[0xF], 0);
}

#[test]
fn logic_operations() {
    let mut core = machine(&[
        0x61, 0b1100, 0x62, 0b1010, 0x83, 0x10, 0x83, 0x21, 0x84, 0x10, 0x84, 0x22, 0x85, 0x10,
        0x85, 0x23,
    ]);
    for _ in 0..8 {
        assert_eq!(core.tick(None), Ok(()));
    }
    assert_eq!(core.cpu.v[3], 0b1110);
    assert_eq!(core.cpu.v[4], 0b1000);
    assert_eq!(core.cpu.v[5], 0b0110);
}

#[test]
fn call_then_return_resumes_after_call() {
    let mut core = machine(&[0x22, 0x06, 0, 0, 0, 0, 0x00, 0xEE]);
    assert_eq!(core.tick(None), Ok(()));
    assert_eq!(core.cpu.pc, 0x206);
    assert_eq!(core.tick(None), Ok(()));
    assert_eq!(core.cpu.pc, 0x202);
    assert_eq!(core.cpu.sp, STACK_EMPTY);
}

#[test]
fn seventeenth_nested_call_overflows() {
    let mut core = machine(&[0x22, 0x00]);
    for _ in 0..16 {
        assert_eq!(core.tick(None), Ok(()));
    }
    let before = core.debug_snapshot();
    assert_eq!(core.tick(None), Err(Chip8Error::StackOverflow));
    let after = core.debug_snapshot();
    assert_eq!(before.pc, after.pc);
    assert_eq!(before.sp, after.sp);
    assert_eq!(before.stack, after.stack);
}

#[test]
fn return_without_call_underflows() {
    let mut core = machine(&[0x00, 0xEE]);
    assert_eq!(core.tick(None), Err(Chip8Error::StackUnderflow));
    assert_eq!(core.cpu.pc, 0x200);
}

#[test]
fn undefined_pattern_is_illegal() {
    let mut core = machine(&[0x50, 0x01]);
    assert_eq!(core.tick(None), Err(Chip8Error::IllegalOpcode));
    assert_eq!(core.cpu.pc, 0x200);
    let mut core = machine(&[0x00, 0x00]);
    assert_eq!(core.tick(None), Err(Chip8Error::IllegalOpcode));
    let mut core = machine(&[0xF0, 0xFF]);
    assert_eq!(core.tick(None), Err(Chip8Error::IllegalOpcode));
}

#[test]
fn fetch_past_memory_is_out_of_bounds() {
    let mut core = machine(&[0x1F, 0xFE]);
    assert_eq!(core.tick(None), Ok(()));
    assert_eq!(core.cpu.pc, 0xFFE);
    assert_eq!(core.tick(None), Err(Chip8Error::OutOfBounds));
}

#[test]
fn jumps_and_skips() {
    // 200: V0 = 2; 202: skip if V0 == 2; 204: jump 0x300; 206: B208 -> 0x20A
    let mut core = machine(&[0x60, 0x02, 0x30, 0x02, 0x13, 0x00, 0xB2, 0x08, 0, 0, 0x40, 0x02]);
    assert_eq!(core.tick(None), Ok(()));
    assert_eq!(core.tick(None), Ok(()));
    assert_eq!(core.cpu.pc, 0x206);
    assert_eq!(core.tick(None), Ok(()));
    assert_eq!(core.cpu.pc, 0x20A);
    assert_eq!(core.tick(None), Ok(()));
    assert_eq!(core.cpu.pc, 0x20C);

    let mut core = machine(&[0x61, 0x07, 0x62, 0x07, 0x51, 0x20, 0, 0, 0x91, 0x20]);
    for _ in 0..3 {
        assert_eq!(core.tick(None), Ok(()));
    }
    assert_eq!(core.cpu.pc, 0x208);
    assert_eq!(core.tick(None), Ok(()));
    assert_eq!(core.cpu.pc, 0x20A);
}

#[test]
fn draw_twice_restores_and_collides() {
    // V0 = 0; I = glyph of V0; draw at (V0, V0) five rows, twice.
    let mut core = machine(&[0x60, 0x00, 0xF0, 0x29, 0xD0, 0x05, 0xD0, 0x05]);
    assert_eq!(core.tick(None), Ok(()));
    assert_eq!(core.tick(None), Ok(()));
    assert_eq!(core.cpu.i, 0x100);
    assert_eq!(core.tick(None), Ok(()));
    assert_eq!(core.cpu.v[0xF], 0);
    let frame = core.get_display_data();
    assert!(frame[0][0] && frame[0][3] && !frame[0][4]);
    assert!(frame[1][0] && !frame[1][1] && frame[1][3]);
    assert_eq!(core.tick(None), Ok(()));
    assert_eq!(core.cpu.v[0xF], 1);
    assert!(blank(&core));
}

#[test]
fn draw_wraps_around_edges() {
    let mut d = Display::new();
    assert!(!d.write(62, 33, 0b1010_0001));
    assert!(d.data[1][62]);
    assert!(!d.data[1][63]);
    assert!(d.data[1][0]);
    assert!(d.data[1][5]);
    assert!(!d.data[1][4]);
    assert!(d.write(62, 1, 0b0000_0001));
    assert!(!d.data[1][5]);

    let mut d = Display::new();
    assert!(!d.draw(60, 30, &vec![0xFF, 0xFF, 0xFF]));
    assert!(d.data[30][60] && d.data[31][63] && d.data[0][0] && d.data[0][3]);
    assert!(!d.data[0][4] && !d.data[1][0]);
}

#[test]
fn collision_counts_any_row_not_only_the_last() {
    let mut d = Display::new();
    d.write(0, 0, 0x80);
    assert!(d.draw(0, 0, &vec![0x80, 0x00]));
    d.clear();
    assert!(!d.draw(0, 0, &vec![0x80, 0x00]));
}

#[test]
fn delay_timer_counts_down_to_zero() {
    let mut core = machine(&[0x60, 0x03, 0xF0, 0x15, 0xF1, 0x07]);
    core.run();
    assert_eq!(core.tick(None), Ok(()));
    assert_eq!(core.tick(None), Ok(()));
    assert_eq!(core.cpu.delay_timer, 3);
    for _ in 0..3 {
        assert!(core.timer_cycle());
    }
    assert!(core.timer_cycle());
    assert_eq!(core.cpu.delay_timer, 0);
    assert_eq!(core.tick(None), Ok(()));
    assert_eq!(core.cpu.v[1], 0);
}

#[test]
fn stopped_clock_leaves_timers() {
    let mut core = machine(&[0x60, 0x02, 0xF0, 0x18]);
    assert_eq!(core.tick(None), Ok(()));
    assert_eq!(core.tick(None), Ok(()));
    assert!(core.sound_active());
    assert!(!core.timer_cycle());
    assert_eq!(core.cpu.sound_timer, 2);
    core.run();
    assert!(core.timer_cycle());
    assert!(core.timer_cycle());
    assert!(!core.sound_active());
    core.stop();
    assert!(!core.timer_cycle());
}

#[test]
fn bcd_of_234() {
    let mut core = machine(&[0x60, 234, 0xA3, 0x00, 0xF0, 0x33]);
    for _ in 0..3 {
        assert_eq!(core.tick(None), Ok(()));
    }
    assert_eq!(core.ram.memory[0x300], 2);
    assert_eq!(core.ram.memory[0x301], 3);
    assert_eq!(core.ram.memory[0x302], 4);
}

#[test]
fn block_store_and_load_copy_v0_to_v5() {
    let mut program = vec![];
    for r in 0..7u8 {
        program.push(0x60 + r);
        program.push(10 + r);
    }
    program.extend_from_slice(&[0xA3, 0x00, 0xF5, 0x55]);
    let mut core = machine(&program);
    for _ in 0..9 {
        assert_eq!(core.tick(None), Ok(()));
    }
    for r in 0..6 {
        assert_eq!(core.ram.memory[0x300 + r], 10 + r as u8);
    }
    assert_eq!(core.ram.memory[0x306], 0);

    let mut core = machine(&[0x66, 0x77, 0xA2, 0x10, 0xF5, 0x65, 0, 0, 0, 0, 0, 0, 0, 0, 0, 0, 1, 2, 3, 4, 5, 6, 7]);
    for _ in 0..3 {
        assert_eq!(core.tick(None), Ok(()));
    }
    assert_eq!(&core.cpu.v[0..6], &[1, 2, 3, 4, 5, 6]);
    assert_eq!(core.cpu.v[6], 0x77);
}

#[test]
fn block_copy_past_memory_is_out_of_bounds() {
    let mut core = machine(&[0xAF, 0xFD, 0xF5, 0x55]);
    assert_eq!(core.tick(None), Ok(()));
    assert_eq!(core.tick(None), Err(Chip8Error::OutOfBounds));
    assert_eq!(core.cpu.pc, 0x202);
}

#[test]
fn add_index_and_font_glyph() {
    let mut core = machine(&[0x60, 0x0A, 0xA1, 0x00, 0xF0, 0x1E, 0xF0, 0x29]);
    for _ in 0..3 {
        assert_eq!(core.tick(None), Ok(()));
    }
    assert_eq!(core.cpu.i, 0x10A);
    assert_eq!(core.tick(None), Ok(()));
    assert_eq!(core.cpu.i, 0x100 + 50);
}

#[test]
fn keys_skip_and_wait() {
    let mut core = machine(&[0x60, 0x05, 0xE0, 0x9E, 0, 0, 0xE0, 0xA1, 0, 0, 0xF1, 0x0A]);
    assert_eq!(core.tick(None), Ok(()));
    assert_eq!(core.tick(Some(Key::FIVE)), Ok(()));
    assert_eq!(core.cpu.pc, 0x206);
    assert_eq!(core.tick(None), Ok(()));
    assert_eq!(core.cpu.pc, 0x20A);
    assert_eq!(core.tick(None), Ok(()));
    assert_eq!(core.cpu.pc, 0x20A);
    assert_eq!(core.tick(Some(Key::C)), Ok(()));
    assert_eq!(core.cpu.pc, 0x20C);
    assert_eq!(core.cpu.v[1], 12);

    let mut core = machine(&[0x60, 0x05, 0xE0, 0x9E, 0xE0, 0xA1]);
    assert_eq!(core.tick(None), Ok(()));
    assert_eq!(core.tick(Some(Key::FOUR)), Ok(()));
    assert_eq!(core.cpu.pc, 0x204);
    assert_eq!(core.tick(Some(Key::FIVE)), Ok(()));
    assert_eq!(core.cpu.pc, 0x206);
}

#[test]
fn random_is_masked() {
    let mut core = machine(&[0xC3, 0x0F]);
    assert_eq!(core.step(None, 0xAB), Ok(()));
    assert_eq!(core.cpu.v[3], 0x0B);

    let mut core = machine(&[0xC3, 0x0F, 0xC4, 0x00]);
    core.cpu.v[4] = 0x55;
    assert_eq!(core.tick(None), Ok(()));
    assert!(core.cpu.v[3] <= 0x0F);
    assert_eq!(core.tick(None), Ok(()));
    assert_eq!(core.cpu.v[4], 0);
}

#[test]
fn decode_patterns() {
    assert_eq!(decode(0x00E0), Some(Instruction::ClearScreen));
    assert_eq!(decode(0x8AB4), Some(Instruction::AddReg { x: 0xA, y: 0xB }));
    assert_eq!(decode(0xD125), Some(Instruction::Draw { x: 1, y: 2, n: 5 }));
    assert_eq!(decode(0xF265), Some(Instruction::LoadRegs { x: 2 }));
    assert_eq!(decode(0x5121), None);
    assert_eq!(decode(0x8008), None);
    assert_eq!(decode(0xE09F), None);
}

#[test]
fn keys_map_to_digits() {
    assert_eq!(Key::ZERO.value(), 0);
    assert_eq!(Key::F.value(), 15);
    assert_eq!(Key::from_value(11), Some(Key::B));
    assert_eq!(Key::from_value(16), None);
}

#[test]
fn timer_sleep_never_negative() {
    assert_eq!(cycle_sleep_nanos(0), TIMER_PERIOD_NANOS);
    assert_eq!(cycle_sleep_nanos(666), 16_666_000);
    assert_eq!(cycle_sleep_nanos(TIMER_PERIOD_NANOS), 0);
    assert_eq!(cycle_sleep_nanos(u64::MAX), 0);
}
