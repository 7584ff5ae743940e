use chip8_core::{key_to_button, Emulator, SCREEN_HEIGHT, SCREEN_WIDTH};

const FONT_ZERO: [u8; 5] = [0xF0, 0x90, 0x90, 0x90, 0xF0];

/// A fresh machine with `program` loaded, after `ticks` cycles.
fn run(program: &[u8], ticks: usize) -> Emulator {
    let mut chip8 = Emulator::new();
    chip8.load(program);
    for _ in 0..ticks {
        assert!(chip8.can_tick());
        chip8.tick();
    }
    chip8
}

#[test]
fn new_is_power_on_state() {
    let chip8 = Emulator::new();
    assert_eq!(chip8.program_counter(), 0x200);
    assert_eq!(chip8.index_register(), 0);
    assert_eq!(chip8.stack_pointer(), 0);
    assert_eq!(chip8.delay_timer(), 0);
    assert_eq!(chip8.sound_timer(), 0);
    assert!(chip8.registers().iter().all(|&v| v == 0));
    assert_eq!(chip8.memory().len(), 4096);
    assert_eq!(&chip8.memory()[0..5], &FONT_ZERO);
    assert_eq!(&chip8.memory()[75..80], &[0xF0, 0x80, 0xF0, 0x80, 0x80]);
    assert!(chip8.memory()[80..].iter().all(|&b| b == 0));
    assert_eq!(chip8.get_display().len(), SCREEN_WIDTH * SCREEN_HEIGHT);
    assert!(chip8.get_display().iter().all(|&p| !p));
}

#[test]
fn reset_restores_power_on_state() {
    let mut chip8 = run(&[0x60, 0x11, 0xA1, 0x23, 0x00, 0xE0, 0xD0, 0x05], 4);
    chip8.keypress(3, true);
    chip8.reset();
    let fresh = Emulator::new();
    assert_eq!(chip8.program_counter(), fresh.program_counter());
    assert_eq!(chip8.registers(), fresh.registers());
    assert_eq!(chip8.memory(), fresh.memory());
    assert_eq!(chip8.get_display(), fresh.get_display());
    assert_eq!(chip8.index_register(), 0);
}

#[test]
fn load_copies_to_program_start() {
    let mut chip8 = Emulator::new();
    let data = [1u8, 2, 3, 4, 5];
    chip8.load(&data);
    assert_eq!(&chip8.memory()[0x200..0x205], &data);
    assert_eq!(chip8.memory()[0x205], 0);
    assert_eq!(&chip8.memory()[0..5], &FONT_ZERO);
}

#[test]
fn load_fills_all_program_memory() {
    let mut chip8 = Emulator::new();
    let data = vec![0xAAu8; 4096 - 0x200];
    chip8.load(&data);
    assert_eq!(chip8.memory()[4095], 0xAA);
    assert_eq!(chip8.memory()[0x1FF], 0);
}

#[test]
fn set_and_add_immediate() {
    // V0 = 0x2A; V0 += 0xE0 wraps to 0x0A; VF untouched
    let chip8 = run(&[0x60, 0x2A, 0x70, 0xE0], 2);
    assert_eq!(chip8.registers()[0], 0x0A);
    assert_eq!(chip8.registers()[0xF], 0);
    assert_eq!(chip8.program_counter(), 0x204);
}

#[test]
fn add_registers_sets_carry() {
    // V1 = 0xF0, V2 = 0x20, V1 += V2
    let chip8 = run(&[0x61, 0xF0, 0x62, 0x20, 0x81, 0x24], 3);
    assert_eq!(chip8.registers()[1], 0x10);
    assert_eq!(chip8.registers()[0xF], 1);
    let chip8 = run(&[0x61, 0x10, 0x62, 0x20, 0x81, 0x24], 3);
    assert_eq!(chip8.registers()[1], 0x30);
    assert_eq!(chip8.registers()[0xF], 0);
}

#[test]
fn subtract_registers_sets_not_borrow() {
    // V1 = 0x10, V2 = 0x20, V1 -= V2 borrows
    let chip8 = run(&[0x61, 0x10, 0x62, 0x20, 0x81, 0x25], 3);
    assert_eq!(chip8.registers()[1], 0xF0);
    assert_eq!(chip8.registers()[0xF], 0);
    let chip8 = run(&[0x61, 0x30, 0x62, 0x20, 0x81, 0x25], 3);
    assert_eq!(chip8.registers()[1], 0x10);
    assert_eq!(chip8.registers()[0xF], 1);
    // V1 = V2 - V1
    let chip8 = run(&[0x61, 0x30, 0x62, 0x20, 0x81, 0x27], 3);
    assert_eq!(chip8.registers()[1], 0xF0);
    assert_eq!(chip8.registers()[0xF], 0);
}

#[test]
fn logic_operations() {
    let chip8 = run(&[0x61, 0b1100, 0x62, 0b1010, 0x83, 0x10, 0x83, 0x21], 4);
    assert_eq!(chip8.registers()[3], 0b1110);
    let chip8 = run(&[0x61, 0b1100, 0x62, 0b1010, 0x81, 0x22], 3);
    assert_eq!(chip8.registers()[1], 0b1000);
    let chip8 = run(&[0x61, 0b1100, 0x62, 0b1010, 0x81, 0x23], 3);
    assert_eq!(chip8.registers()[1], 0b0110);
}

#[test]
fn shifts_report_dropped_bit() {
    let chip8 = run(&[0x61, 0x05, 0x81, 0x06], 2);
    assert_eq!(chip8.registers()[1], 0x02);
    assert_eq!(chip8.registers()[0xF], 1);
    // the left shift stores the dropped leftmost bit
    let chip8 = run(&[0x61, 0x81, 0x81, 0x0E], 2);
    assert_eq!(chip8.registers()[1], 0x02);
    assert_eq!(chip8.registers()[0xF], 1);
    let chip8 = run(&[0x61, 0x41, 0x81, 0x0E], 2);
    assert_eq!(chip8.registers()[1], 0x82);
    assert_eq!(chip8.registers()[0xF], 0);
}

#[test]
fn flag_register_as_destination_keeps_flag() {
    // VF = 0xFF; VF += 1 overflows: the flag is written last
    let chip8 = run(&[0x6F, 0xFF, 0x61, 0x01, 0x8F, 0x14], 3);
    assert_eq!(chip8.registers()[0xF], 1);
}

#[test]
fn jumps() {
    let chip8 = run(&[0x13, 0x45], 1);
    assert_eq!(chip8.program_counter(), 0x345);
    // V0 = 4; jump to V0 + 0x300
    let chip8 = run(&[0x60, 0x04, 0xB3, 0x00], 2);
    assert_eq!(chip8.program_counter(), 0x304);
}

#[test]
fn call_then_return() {
    // 0x200: CALL 0x206; 0x202: ...; 0x206: RET
    let chip8 = run(&[0x22, 0x06, 0x00, 0x00, 0x00, 0x00, 0x00, 0xEE], 1);
    assert_eq!(chip8.program_counter(), 0x206);
    assert_eq!(chip8.stack_pointer(), 1);
    let chip8 = run(&[0x22, 0x06, 0x00, 0x00, 0x00, 0x00, 0x00, 0xEE], 2);
    assert_eq!(chip8.program_counter(), 0x202);
    assert_eq!(chip8.stack_pointer(), 0);
}

#[test]
fn skips() {
    // SE V0, 0 skips
    let chip8 = run(&[0x30, 0x00], 1);
    assert_eq!(chip8.program_counter(), 0x204);
    // SNE V0, 0 does not skip
    let chip8 = run(&[0x40, 0x00], 1);
    assert_eq!(chip8.program_counter(), 0x202);
    // SE V0, V1 skips; SNE V0, V1 does not
    let chip8 = run(&[0x50, 0x10], 1);
    assert_eq!(chip8.program_counter(), 0x204);
    let chip8 = run(&[0x90, 0x10], 1);
    assert_eq!(chip8.program_counter(), 0x202);
}

#[test]
fn skip_on_keys() {
    let mut chip8 = Emulator::new();
    chip8.load(&[0x60, 0x07, 0xE0, 0x9E, 0x00, 0x00, 0xE0, 0xA1]);
    chip8.keypress(7, true);
    chip8.tick();
    chip8.tick();
    assert_eq!(chip8.program_counter(), 0x206);
    chip8.keypress(7, false);
    chip8.tick();
    assert_eq!(chip8.program_counter(), 0x20A);
}

#[test]
fn index_register_instructions() {
    let chip8 = run(&[0xA1, 0x23], 1);
    assert_eq!(chip8.index_register(), 0x123);
    // I = 0xFFF; V0 = 2; I += V0
    let chip8 = run(&[0xAF, 0xFF, 0x60, 0x02, 0xF0, 0x1E], 3);
    assert_eq!(chip8.index_register(), 0x1001);
    // font glyph of 0xA
    let chip8 = run(&[0x60, 0x0A, 0xF0, 0x29], 2);
    assert_eq!(chip8.index_register(), 50);
}

#[test]
fn timers() {
    let mut chip8 = run(&[0x60, 0x02, 0xF0, 0x15, 0xF0, 0x18, 0xF1, 0x07], 4);
    assert_eq!(chip8.delay_timer(), 2);
    assert_eq!(chip8.sound_timer(), 2);
    assert_eq!(chip8.registers()[1], 2);
    chip8.tick_timers();
    assert_eq!(chip8.delay_timer(), 1);
    assert_eq!(chip8.sound_timer(), 1);
    chip8.tick_timers();
    chip8.tick_timers();
    assert_eq!(chip8.delay_timer(), 0);
    assert_eq!(chip8.sound_timer(), 0);
}

#[test]
fn bcd_stores_decimal_digits() {
    let chip8 = run(&[0x63, 254, 0xA3, 0x00, 0xF3, 0x33], 3);
    assert_eq!(&chip8.memory()[0x300..0x303], &[2, 5, 4]);
    let chip8 = run(&[0x63, 7, 0xA3, 0x00, 0xF3, 0x33], 3);
    assert_eq!(&chip8.memory()[0x300..0x303], &[0, 0, 7]);
}

#[test]
fn store_and_load_registers() {
    let chip8 = run(&[0x60, 0x11, 0x61, 0x22, 0x62, 0x33, 0xA3, 0x00, 0xF1, 0x55], 5);
    assert_eq!(&chip8.memory()[0x300..0x303], &[0x11, 0x22, 0x00]);
    // load V0..=V2 back from the font: 0xF0 0x90 0x90
    let chip8 = run(&[0xA0, 0x00, 0xF2, 0x65], 2);
    assert_eq!(&chip8.registers()[0..4], &[0xF0, 0x90, 0x90, 0x00]);
}

#[test]
fn store_then_load_round_trip() {
    let chip8 = run(
        &[0x60, 0x11, 0x61, 0x22, 0xA3, 0x00, 0xF1, 0x55, 0x60, 0x00, 0x61, 0x00, 0xF1, 0x65],
        7,
    );
    assert_eq!(&chip8.registers()[0..2], &[0x11, 0x22]);
}

#[test]
fn draw_font_glyph() {
    // I = glyph 0, draw 5 rows at (0, 0)
    let chip8 = run(&[0xD0, 0x05], 1);
    let screen = chip8.get_display();
    for (row, bits) in FONT_ZERO.iter().enumerate() {
        for col in 0..8 {
            let lit = bits & (0x80 >> col) != 0;
            assert_eq!(screen[row * SCREEN_WIDTH + col], lit);
        }
    }
    assert!(!screen[5 * SCREEN_WIDTH]);
    assert_eq!(chip8.registers()[0xF], 0);
    assert_eq!(chip8.lit_pixels().len(), 14);
    assert_eq!(chip8.lit_pixels()[0], (0, 0));
    assert_eq!(chip8.lit_pixels()[4], (0, 1));
}

#[test]
fn draw_twice_erases_and_reports_collision() {
    let chip8 = run(&[0x60, 0x03, 0x61, 0x04, 0xD0, 0x15, 0xD0, 0x15], 4);
    assert!(chip8.get_display().iter().all(|&p| !p));
    assert_eq!(chip8.registers()[0xF], 1);
    assert!(chip8.lit_pixels().is_empty());
}

#[test]
fn draw_wraps_around_edges() {
    // V0 = 62, V1 = 31: the glyph's top row straddles the right edge,
    // the others wrap to the top
    let chip8 = run(&[0x60, 62, 0x61, 31, 0xD0, 0x12], 3);
    let screen = chip8.get_display();
    assert!(screen[31 * SCREEN_WIDTH + 62]);
    assert!(screen[31 * SCREEN_WIDTH + 63]);
    assert!(screen[31 * SCREEN_WIDTH]);
    assert!(screen[31 * SCREEN_WIDTH + 1]);
    // second row 0x90 at y = 0
    assert!(screen[62]);
    assert!(!screen[63]);
    assert!(screen[1]);
    assert_eq!(chip8.lit_pixels().len(), 6);
}

#[test]
fn clear_screen() {
    let chip8 = run(&[0xD0, 0x05, 0x00, 0xE0], 2);
    assert!(chip8.get_display().iter().all(|&p| !p));
}

#[test]
fn wait_key_repeats_until_pressed() {
    let mut chip8 = run(&[0xF3, 0x0A], 1);
    assert_eq!(chip8.program_counter(), 0x200);
    chip8.tick();
    assert_eq!(chip8.program_counter(), 0x200);
    chip8.keypress(9, true);
    chip8.keypress(5, true);
    chip8.tick();
    assert_eq!(chip8.program_counter(), 0x202);
    assert_eq!(chip8.registers()[3], 5);
}

#[test]
fn random_is_masked() {
    let mut chip8 = Emulator::new();
    chip8.execute_with_random(0xC2F0, 0xAB);
    assert_eq!(chip8.registers()[2], 0xA0);
    for _ in 0..20 {
        let mut chip8 = run(&[0xC4, 0x0F], 1);
        assert_eq!(chip8.registers()[4] & 0xF0, 0);
        chip8.reset();
    }
}

#[test]
fn execute_with_random_ignores_byte_elsewhere() {
    let mut a = Emulator::new();
    let mut b = Emulator::new();
    a.execute_with_random(0x6512, 0);
    b.execute_with_random(0x6512, 0xFF);
    assert_eq!(a.registers(), b.registers());
    assert_eq!(a.registers()[5], 0x12);
}

#[test]
fn can_tick_rejects_faulting_instructions() {
    // unknown opcode
    let mut chip8 = Emulator::new();
    chip8.load(&[0x50, 0x01]);
    assert!(!chip8.can_tick());
    // return with an empty stack
    chip8.load(&[0x00, 0xEE]);
    assert!(!chip8.can_tick());
    // key index out of range
    chip8.load(&[0x60, 0x10, 0xE0, 0x9E]);
    chip8.tick();
    assert!(!chip8.can_tick());
    // BCD past the end of memory
    let mut chip8 = Emulator::new();
    chip8.load(&[0xAF, 0xFE, 0xF0, 0x33]);
    chip8.tick();
    assert!(!chip8.can_tick());
    // program counter at the last byte
    let mut chip8 = Emulator::new();
    chip8.load(&[0x1F, 0xFF]);
    chip8.tick();
    assert!(!chip8.can_tick());
    // sprite reaching past memory
    let mut chip8 = Emulator::new();
    chip8.load(&[0xAF, 0xFE, 0xD0, 0x03]);
    chip8.tick();
    assert!(!chip8.can_tick());
    // the known opcodes are fine
    let chip8 = Emulator::new();
    assert!(chip8.can_tick());
}

#[test]
fn stack_overflow_is_rejected() {
    // CALL 0x200 forever: sixteen calls fit
    let mut chip8 = Emulator::new();
    chip8.load(&[0x22, 0x00]);
    for _ in 0..16 {
        assert!(chip8.can_tick());
        chip8.tick();
    }
    assert_eq!(chip8.stack_pointer(), 16);
    assert!(!chip8.can_tick());
}

#[test]
fn keypress_records_key() {
    let mut chip8 = Emulator::new();
    chip8.keypress(0xF, true);
    chip8.load(&[0x60, 0x0F, 0xE0, 0x9E]);
    chip8.tick();
    chip8.tick();
    assert_eq!(chip8.program_counter(), 0x206);
}

#[test]
fn key_labels_map_to_keypad() {
    let expected = [
        ("1", 0x1), ("2", 0x2), ("3", 0x3), ("4", 0xC),
        ("q", 0x4), ("w", 0x5), ("e", 0x6), ("r", 0xD),
        ("a", 0x7), ("s", 0x8), ("d", 0x9), ("f", 0xE),
        ("z", 0xA), ("x", 0x0), ("c", 0xB), ("v", 0xF),
    ];
    for (key, button) in expected {
        assert_eq!(key_to_button(key), Some(button));
    }
    assert_eq!(key_to_button("Q"), None);
    assert_eq!(key_to_button("qq"), None);
    assert_eq!(key_to_button(""), None);
    assert_eq!(key_to_button("Escape"), None);
    assert_eq!(key_to_button("5"), None);
}

#[test]
fn timers_run_down_to_zero() {
    // V0 = 255; DT = V0; V1 = 3; ST = V1
    let mut chip8 = run(&[0x60, 0xFF, 0xF0, 0x15, 0x61, 0x03, 0xF1, 0x18], 4);
    assert_eq!(chip8.delay_timer(), 255);
    assert_eq!(chip8.sound_timer(), 3);
    for n in 1..=255u32 {
        let (dt, st) = (chip8.delay_timer(), chip8.sound_timer());
        chip8.tick_timers();
        assert!(chip8.delay_timer() <= dt && chip8.sound_timer() <= st);
        assert_eq!(chip8.delay_timer() as u32, 255 - n);
        assert_eq!(chip8.sound_timer() as u32, 3u32.saturating_sub(n));
    }
    assert_eq!(chip8.delay_timer(), 0);
    assert_eq!(chip8.sound_timer(), 0);
}

#[test]
fn shift_left_reports_top_bit() {
    // V0 = 0x81; V0 <<= 1
    let chip8 = run(&[0x60, 0x81, 0x80, 0x0E], 2);
    assert_eq!(chip8.registers()[0], 0x02);
    assert_eq!(chip8.registers()[0xF], 1);
    assert_eq!(256 * chip8.registers()[0xF] as u32 + chip8.registers()[0] as u32, 2 * 0x81);
}
