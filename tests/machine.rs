use chip8::{decode, Chip8, Chip8Error, Instruction, FONT, FONT_START, MAX_IMAGE_SIZE, PROGRAM_START};

fn machine_with(program: &[u8]) -> Chip8 {
    let mut m = Chip8::new();
    m.load(program).unwrap();
    m
}

fn run(m: &mut Chip8, steps: usize) {
    for _ in 0..steps {
        m.step(0).unwrap();
    }
}

#[test]
fn new_machine_is_initialised() {
    let m = Chip8::new();
    assert_eq!(m.program_counter(), 0x200);
    assert_eq!(m.stack_pointer(), 0);
    assert_eq!(m.index(), 0);
    assert!(m.redraw());
    let start = FONT_START as usize;
    assert_eq!(&m.memory()[start..start + 80], &FONT[..]);
    assert_eq!(m.memory()[start - 1], 0);
    assert_eq!(m.memory()[start + 80], 0);
    assert_eq!(m.memory()[0x200], 0);
    assert!(m.video().iter().all(|&c| !c));
    for x in 0..16 {
        assert_eq!(m.register(x), 0);
    }
}

#[test]
fn load_places_image_at_program_start() {
    let m = machine_with(&[0x12, 0x34, 0x56]);
    assert_eq!(m.memory()[0x200], 0x12);
    assert_eq!(m.memory()[0x201], 0x34);
    assert_eq!(m.memory()[0x202], 0x56);
    assert_eq!(m.memory()[0x203], 0);
    assert_eq!(m.program_counter(), PROGRAM_START);
}

#[test]
fn load_of_largest_image_succeeds() {
    let mut m = Chip8::new();
    let image = vec![0xABu8; 4096 - 0x200];
    assert_eq!(image.len(), MAX_IMAGE_SIZE);
    assert_eq!(m.load(&image), Ok(()));
    assert_eq!(m.memory()[4095], 0xAB);
    assert_eq!(m.memory()[0x200], 0xAB);
}

#[test]
fn load_of_one_byte_more_fails() {
    let mut m = Chip8::new();
    let image = vec![0xABu8; 4096 - 0x200 + 1];
    assert_eq!(m.load(&image), Err(Chip8Error::ImageTooLarge));
    assert_eq!(m.memory()[0x200], 0);
}

#[test]
fn add_register_wraps_and_sets_carry() {
    // V1 = 200, V2 = 100, V1 += V2
    let mut m = machine_with(&[0x61, 200, 0x62, 100, 0x81, 0x24]);
    run(&mut m, 3);
    assert_eq!(m.register(1), 44);
    assert_eq!(m.register(0xF), 1);
    assert_eq!(m.program_counter(), 0x206);
}

#[test]
fn add_register_without_overflow_clears_carry() {
    let mut m = machine_with(&[0x6F, 1, 0x61, 200, 0x62, 55, 0x81, 0x24]);
    run(&mut m, 4);
    assert_eq!(m.register(1), 255);
    assert_eq!(m.register(0xF), 0);
}

#[test]
fn add_register_matches_native_wrapping_for_all_values() {
    for a in (0u16..256).step_by(7) {
        for b in (0u16..256).step_by(5) {
            let mut m = machine_with(&[0x63, a as u8, 0x64, b as u8, 0x83, 0x44]);
            run(&mut m, 3);
            assert_eq!(m.register(3), (a as u8).wrapping_add(b as u8));
            assert_eq!(m.register(0xF), if a + b > 255 { 1 } else { 0 });
        }
    }
}

#[test]
fn sub_sets_no_borrow_flag() {
    let mut m = machine_with(&[0x61, 10, 0x62, 3, 0x81, 0x25]);
    run(&mut m, 3);
    assert_eq!(m.register(1), 7);
    assert_eq!(m.register(0xF), 1);
}

#[test]
fn sub_with_borrow_wraps() {
    let mut m = machine_with(&[0x61, 3, 0x62, 10, 0x81, 0x25]);
    run(&mut m, 3);
    assert_eq!(m.register(1), 249);
    assert_eq!(m.register(0xF), 0);
}

#[test]
fn sub_of_equal_values_has_no_borrow() {
    let mut m = machine_with(&[0x61, 9, 0x62, 9, 0x81, 0x25]);
    run(&mut m, 3);
    assert_eq!(m.register(1), 0);
    assert_eq!(m.register(0xF), 1);
}

#[test]
fn sub_reversed_wraps_and_flags() {
    let mut m = machine_with(&[0x61, 10, 0x62, 3, 0x81, 0x27]);
    run(&mut m, 3);
    assert_eq!(m.register(1), 249);
    assert_eq!(m.register(0xF), 0);
    let mut m = machine_with(&[0x61, 3, 0x62, 10, 0x81, 0x27]);
    run(&mut m, 3);
    assert_eq!(m.register(1), 7);
    assert_eq!(m.register(0xF), 1);
}

#[test]
fn shifts_put_the_lost_bit_in_vf() {
    let mut m = machine_with(&[0x61, 0x81, 0x81, 0x06]);
    run(&mut m, 2);
    assert_eq!(m.register(1), 0x40);
    assert_eq!(m.register(0xF), 1);
    let mut m = machine_with(&[0x61, 0x81, 0x81, 0x0E]);
    run(&mut m, 2);
    assert_eq!(m.register(1), 0x02);
    assert_eq!(m.register(0xF), 1);
    let mut m = machine_with(&[0x61, 0x42, 0x81, 0x0E]);
    run(&mut m, 2);
    assert_eq!(m.register(1), 0x84);
    assert_eq!(m.register(0xF), 0);
}

#[test]
fn bitwise_and_move_instructions() {
    let mut m = machine_with(&[
        0x61, 0b1100, 0x62, 0b1010, 0x63, 0b1100, 0x64, 0b1100, 0x81, 0x21, 0x83, 0x22, 0x84,
        0x23, 0x85, 0x20,
    ]);
    run(&mut m, 8);
    assert_eq!(m.register(1), 0b1110);
    assert_eq!(m.register(3), 0b1000);
    assert_eq!(m.register(4), 0b0110);
    assert_eq!(m.register(5), 0b1010);
}

#[test]
fn add_byte_wraps_without_flag() {
    let mut m = machine_with(&[0x6F, 7, 0x60, 250, 0x70, 10]);
    run(&mut m, 3);
    assert_eq!(m.register(0), 4);
    assert_eq!(m.register(0xF), 7);
}

#[test]
fn clear_screen_turns_every_cell_off() {
    // Draw the glyph of 0, clear the redraw flag, then clear the screen.
    let mut m = machine_with(&[0xA0, 0x50, 0xD0, 0x05, 0x00, 0xE0]);
    run(&mut m, 2);
    assert!(m.video().iter().any(|&c| c));
    m.clear_redraw();
    assert!(!m.redraw());
    run(&mut m, 1);
    assert!(m.video().iter().all(|&c| !c));
    assert!(m.redraw());
}

#[test]
fn call_then_return_comes_back_after_the_call() {
    // 0x200: call 0x206; 0x202: jump 0x202; 0x206: return
    let mut m = machine_with(&[0x22, 0x06, 0x12, 0x02, 0x00, 0x00, 0x00, 0xEE]);
    run(&mut m, 1);
    assert_eq!(m.program_counter(), 0x206);
    assert_eq!(m.stack_pointer(), 1);
    run(&mut m, 1);
    assert_eq!(m.program_counter(), 0x202);
    assert_eq!(m.stack_pointer(), 0);
}

#[test]
fn return_on_empty_stack_underflows() {
    let mut m = machine_with(&[0x00, 0xEE]);
    assert_eq!(m.step(0), Err(Chip8Error::StackUnderflow));
    assert_eq!(m.stack_pointer(), 0);
}

#[test]
fn seventeenth_nested_call_overflows() {
    // 0x200: call 0x200, over and over.
    let mut m = machine_with(&[0x22, 0x00]);
    run(&mut m, 16);
    assert_eq!(m.stack_pointer(), 16);
    assert_eq!(m.step(0), Err(Chip8Error::StackOverflow));
    assert_eq!(m.stack_pointer(), 16);
}

#[test]
fn sprite_wraps_around_right_edge() {
    // V0 = 63, V1 = 0, I = 0x20A (the byte 0xC0), draw one row.
    let mut m = machine_with(&[0x60, 63, 0x61, 0, 0xA2, 0x0A, 0xD0, 0x11, 0x00, 0x00, 0xC0]);
    run(&mut m, 4);
    assert!(m.pixel(63, 0));
    assert!(m.pixel(0, 0));
    assert!(!m.pixel(1, 0));
    assert!(!m.pixel(62, 0));
    assert_eq!(m.video().iter().filter(|&&c| c).count(), 2);
    assert_eq!(m.register(0xF), 0);
    assert!(m.redraw());
}

#[test]
fn sprite_wraps_around_bottom_edge() {
    // V0 = 0, V1 = 31, I = glyph of 0 (five rows), drawn from the last row.
    let mut m = machine_with(&[0x60, 0, 0x61, 31, 0xA0, 0x50, 0xD0, 0x15]);
    run(&mut m, 4);
    // Row 0 of the glyph (0xF0) on y = 31, row 1 (0x90) on y = 0.
    assert!(m.pixel(0, 31) && m.pixel(3, 31) && !m.pixel(4, 31));
    assert!(m.pixel(0, 0) && !m.pixel(1, 0) && m.pixel(3, 0));
    assert!(m.pixel(0, 3));
    assert!(!m.pixel(0, 4));
}

#[test]
fn anchor_is_taken_modulo_screen_size() {
    // V0 = 65 draws at x = 1; V1 = 33 at y = 1.
    let mut m = machine_with(&[0x60, 65, 0x61, 33, 0xA2, 0x0A, 0xD0, 0x11, 0x00, 0x00, 0x80]);
    run(&mut m, 4);
    assert!(m.pixel(1, 1));
    assert_eq!(m.video().iter().filter(|&&c| c).count(), 1);
}

#[test]
fn drawing_twice_erases_and_reports_collision() {
    let mut m = machine_with(&[0xA0, 0x50, 0xD0, 0x05, 0xD0, 0x05]);
    run(&mut m, 2);
    assert_eq!(m.register(0xF), 0);
    run(&mut m, 1);
    assert_eq!(m.register(0xF), 1);
    assert!(m.video().iter().all(|&c| !c));
}

#[test]
fn sprite_past_end_of_memory_fails() {
    let mut m = machine_with(&[0xAF, 0xFE, 0xD0, 0x03]);
    run(&mut m, 1);
    assert_eq!(m.step(0), Err(Chip8Error::MemoryOutOfRange(0xFFE)));
}

#[test]
fn wait_key_spins_until_a_key_is_pressed() {
    let mut m = machine_with(&[0xF3, 0x0A]);
    for _ in 0..5 {
        m.step(0).unwrap();
        assert_eq!(m.program_counter(), 0x200);
    }
    m.set_key(5, true);
    m.step(0).unwrap();
    assert_eq!(m.register(3), 5);
    assert_eq!(m.program_counter(), 0x202);
}

#[test]
fn wait_key_takes_lowest_pressed_key() {
    let mut m = machine_with(&[0xF3, 0x0A]);
    m.set_key(9, true);
    m.set_key(4, true);
    m.step(0).unwrap();
    assert_eq!(m.register(3), 4);
}

#[test]
fn set_key_sets_and_clears() {
    let mut m = Chip8::new();
    m.set_key(15, true);
    assert!(m.key_pressed(15));
    m.set_key(15, false);
    assert!(!m.key_pressed(15));
}

#[test]
fn key_skips() {
    // V0 = 7; skip if key 7 pressed; V1 = 1; skip if key 7 not pressed; V2 = 2
    let program = [0x60, 7, 0xE0, 0x9E, 0x61, 1, 0xE0, 0xA1, 0x62, 2];
    let mut m = machine_with(&program);
    m.set_key(7, true);
    run(&mut m, 4);
    assert_eq!(m.register(1), 0);
    assert_eq!(m.register(2), 2);
    let mut m = machine_with(&program);
    run(&mut m, 4);
    assert_eq!(m.register(1), 1);
    assert_eq!(m.register(2), 0);
}

#[test]
fn key_out_of_range_fails() {
    let mut m = machine_with(&[0x60, 16, 0xE0, 0x9E]);
    run(&mut m, 1);
    assert_eq!(m.step(0), Err(Chip8Error::KeyOutOfRange(16)));
}

#[test]
fn bcd_of_255() {
    let mut m = machine_with(&[0x60, 255, 0xA3, 0x00, 0xF0, 0x33]);
    run(&mut m, 3);
    assert_eq!(&m.memory()[0x300..0x303], &[2, 5, 5]);
}

#[test]
fn bcd_of_7() {
    let mut m = machine_with(&[0x60, 7, 0xA3, 0x00, 0xF0, 0x33]);
    run(&mut m, 3);
    assert_eq!(&m.memory()[0x300..0x303], &[0, 0, 7]);
}

#[test]
fn bcd_past_end_of_memory_fails() {
    let mut m = machine_with(&[0xAF, 0xFE, 0xF0, 0x33]);
    run(&mut m, 1);
    assert_eq!(m.step(0), Err(Chip8Error::MemoryOutOfRange(0xFFE)));
}

#[test]
fn unknown_alu_opcode_fails_with_its_value() {
    let mut m = machine_with(&[0x81, 0x2F]);
    assert_eq!(m.step(0), Err(Chip8Error::UnknownOpcode(0x812F)));
}

#[test]
fn decode_rejects_unlisted_patterns() {
    assert_eq!(decode(0x0123), Err(Chip8Error::UnknownOpcode(0x0123)));
    assert_eq!(decode(0x5121), Err(Chip8Error::UnknownOpcode(0x5121)));
    assert_eq!(decode(0x9121), Err(Chip8Error::UnknownOpcode(0x9121)));
    assert_eq!(decode(0xE19F), Err(Chip8Error::UnknownOpcode(0xE19F)));
    assert_eq!(decode(0xF166), Err(Chip8Error::UnknownOpcode(0xF166)));
    assert_eq!(decode(0x8128), Err(Chip8Error::UnknownOpcode(0x8128)));
}

#[test]
fn decode_splits_fields() {
    assert_eq!(decode(0x00E0), Ok(Instruction::ClearScreen));
    assert_eq!(decode(0x00EE), Ok(Instruction::Return));
    assert_eq!(decode(0x1ABC), Ok(Instruction::Jump { addr: 0xABC }));
    assert_eq!(decode(0x3A42), Ok(Instruction::SkipIfEqualByte { x: 0xA, byte: 0x42 }));
    assert_eq!(decode(0x8AB4), Ok(Instruction::AddRegister { x: 0xA, y: 0xB }));
    assert_eq!(decode(0x8ABE), Ok(Instruction::ShiftLeft { x: 0xA, y: 0xB }));
    assert_eq!(decode(0xD12F), Ok(Instruction::Draw { x: 1, y: 2, rows: 0xF }));
    assert_eq!(decode(0xC7F0), Ok(Instruction::Random { x: 7, mask: 0xF0 }));
    assert_eq!(decode(0xF265), Ok(Instruction::LoadRegisters { x: 2 }));
}

#[test]
fn fetch_past_end_of_memory_fails() {
    let mut m = machine_with(&[0x1F, 0xFF]);
    run(&mut m, 1);
    assert_eq!(m.program_counter(), 0xFFF);
    assert_eq!(m.step(0), Err(Chip8Error::MemoryOutOfRange(0xFFF)));
    assert_eq!(m.program_counter(), 0xFFF);
}

#[test]
fn random_byte_is_masked() {
    let mut m = machine_with(&[0xC0, 0xF0, 0xC1, 0x0F]);
    m.step(0xAB).unwrap();
    m.step(0xAB).unwrap();
    assert_eq!(m.register(0), 0xA0);
    assert_eq!(m.register(1), 0x0B);
}

#[test]
fn cycle_executes_one_instruction() {
    let mut m = machine_with(&[0x60, 0x2A, 0xC1, 0x00]);
    m.cycle().unwrap();
    assert_eq!(m.register(0), 0x2A);
    m.cycle().unwrap();
    assert_eq!(m.register(1), 0);
    assert_eq!(m.program_counter(), 0x204);
}

#[test]
fn timers_count_down_and_stop_at_zero() {
    // V0 = 2, delay = V0, sound = V0, V1 = delay
    let mut m = machine_with(&[0x60, 2, 0xF0, 0x15, 0xF0, 0x18, 0xF1, 0x07]);
    run(&mut m, 4);
    assert_eq!(m.register(1), 2);
    assert_eq!(m.sound_timer(), 2);
    m.decrement_timers();
    assert_eq!(m.delay_timer(), 1);
    assert_eq!(m.sound_timer(), 1);
    m.decrement_timers();
    m.decrement_timers();
    assert_eq!(m.delay_timer(), 0);
    assert_eq!(m.sound_timer(), 0);
}

#[test]
fn index_instructions() {
    // I = 0x123; V0 = 0x10; I += V0; V1 = 0xA; I = glyph of V1
    let mut m = machine_with(&[0xA1, 0x23, 0x60, 0x10, 0xF0, 0x1E]);
    run(&mut m, 3);
    assert_eq!(m.index(), 0x133);
    let mut m = machine_with(&[0x61, 0x1A, 0xF1, 0x29]);
    run(&mut m, 2);
    assert_eq!(m.index(), 0x50 + 5 * 0xA);
}

#[test]
fn jump_with_offset() {
    let mut m = machine_with(&[0x60, 4, 0xB3, 0x00]);
    run(&mut m, 2);
    assert_eq!(m.program_counter(), 0x304);
}

#[test]
fn register_skips() {
    // V0 = 5; skip if V0 == 5; V1 = 1; skip if V0 != 5; V2 = 2
    let mut m = machine_with(&[0x60, 5, 0x30, 5, 0x61, 1, 0x40, 5, 0x62, 2]);
    run(&mut m, 4);
    assert_eq!(m.register(1), 0);
    assert_eq!(m.register(2), 2);
    // V0 = 5, V1 = 5; skip if V0 == V1; V2 = 2; skip if V0 != V1; V3 = 3
    let mut m = machine_with(&[0x60, 5, 0x61, 5, 0x50, 0x10, 0x62, 2, 0x90, 0x10, 0x63, 3]);
    run(&mut m, 5);
    assert_eq!(m.register(2), 0);
    assert_eq!(m.register(3), 3);
}

#[test]
fn store_and_load_registers_round_trip() {
    // V0..V2 = 1, 2, 3; I = 0x300; store V0..V2; clear V0..V2; load V0..V1
    let mut m = machine_with(&[
        0x60, 1, 0x61, 2, 0x62, 3, 0xA3, 0x00, 0xF2, 0x55, 0x60, 0, 0x61, 0, 0x62, 0, 0xF1, 0x65,
    ]);
    run(&mut m, 9);
    assert_eq!(&m.memory()[0x300..0x304], &[1, 2, 3, 0]);
    assert_eq!(m.register(0), 1);
    assert_eq!(m.register(1), 2);
    assert_eq!(m.register(2), 0);
    assert_eq!(m.index(), 0x300);
}
