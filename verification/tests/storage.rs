use chipate::machine::gfx::Display;
use chipate::machine::memory::RAM;
use chipate::machine::Font;
use chipate::machine::Program;
use chipate::DisplayState;
use chipate::Key;
use chipate::KeyState;

#[test]
fn fresh_memory_is_zero() {
    let memory = RAM::new();
    assert_eq!(memory.read(0), 0);
    assert_eq!(memory.read(0x200), 0);
    assert_eq!(memory.read(4095), 0);
}

#[test]
fn memory_write_changes_one_byte() {
    let mut memory = RAM::new();
    memory.write(0x123, 0xAB);
    assert_eq!(memory.read(0x122), 0);
    assert_eq!(memory.read(0x123), 0xAB);
    assert_eq!(memory.read(0x124), 0);
    memory.write(4095, 0x01);
    assert_eq!(memory.read(4095), 0x01);
}

#[test]
fn write_block_lays_bytes_in_order() {
    let mut memory = RAM::new();
    memory.write(0x0FF, 0x77);
    memory.write(0x103, 0x88);
    memory.write_block(0x100, &[1, 2, 3]);
    assert_eq!(memory.read(0x0FF), 0x77);
    assert_eq!(memory.read(0x100), 1);
    assert_eq!(memory.read(0x101), 2);
    assert_eq!(memory.read(0x102), 3);
    assert_eq!(memory.read(0x103), 0x88);
}

#[test]
fn write_block_reaches_the_last_byte_and_takes_an_empty_block() {
    let mut memory = RAM::new();
    memory.write_block(4094, &[9, 8]);
    assert_eq!(memory.read(4094), 9);
    assert_eq!(memory.read(4095), 8);
    memory.write_block(4095, &[]);
    assert_eq!(memory.read(4095), 8);
}

#[test]
fn default_font_lands_at_its_base_address() {
    let mut memory = RAM::new();
    let font = Font::default();
    assert_eq!(font.name, "Default");
    font.load(&mut memory);
    assert_eq!(memory.read(0x04F), 0);
    // glyph 0
    assert_eq!(memory.read(0x050), 0xF0);
    assert_eq!(memory.read(0x051), 0x90);
    assert_eq!(memory.read(0x054), 0xF0);
    // glyph 1
    assert_eq!(memory.read(0x055), 0x20);
    // glyph F
    assert_eq!(memory.read(0x09B), 0xF0);
    assert_eq!(memory.read(0x09F), 0x80);
    assert_eq!(memory.read(0x0A0), 0);
}

#[test]
fn glyph_address_is_base_plus_five_per_character() {
    let font = Font::default();
    assert_eq!(font.char_addr(0x0), 0x050);
    assert_eq!(font.char_addr(0x1), 0x055);
    assert_eq!(font.char_addr(0xA), 0x050 + 50);
    assert_eq!(font.char_addr(0xF), 0x09B);
    assert_eq!(font.char_addr(0xFF), 0x050 + 5 * 255);
}

#[test]
fn custom_font_keeps_name_and_data() {
    let mut data = [0u8; 80];
    data[0] = 0x11;
    data[79] = 0x99;
    let font = Font::new(String::from("Mine"), data);
    assert_eq!(font.name, "Mine");
    let mut memory = RAM::new();
    font.load(&mut memory);
    assert_eq!(memory.read(0x050), 0x11);
    assert_eq!(memory.read(0x09F), 0x99);
}

#[test]
fn gfx_font_lands_at_its_base_address() {
    let mut memory = RAM::new();
    let font = chipate::machine::gfx::Font::default();
    assert_eq!(font.name, "Default");
    font.load(&mut memory);
    assert_eq!(memory.read(0x050), 0xF0);
    assert_eq!(memory.read(0x09F), 0x80);
    let mut data = [0u8; 80];
    data[3] = 0x42;
    let other = chipate::machine::gfx::Font::new(String::from("Other"), data);
    other.load(&mut memory);
    assert_eq!(memory.read(0x050), 0);
    assert_eq!(memory.read(0x053), 0x42);
}

#[test]
fn program_lands_at_the_start_address() {
    let mut memory = RAM::new();
    let program = Program::new(String::from("demo"), vec![0x12, 0x00, 0xAA]);
    assert_eq!(program.name, "demo");
    assert_eq!(program.len(), 3);
    program.load(&mut memory);
    assert_eq!(memory.read(0x1FF), 0);
    assert_eq!(memory.read(0x200), 0x12);
    assert_eq!(memory.read(0x201), 0x00);
    assert_eq!(memory.read(0x202), 0xAA);
    assert_eq!(memory.read(0x203), 0);
}

#[test]
fn largest_program_fills_memory_to_the_end() {
    let mut memory = RAM::new();
    let program = Program::new(String::from("big"), vec![0x5A; chipate::machine::MAX_PROGRAM_SIZE]);
    assert_eq!(program.len(), 3584);
    program.load(&mut memory);
    assert_eq!(memory.read(0x200), 0x5A);
    assert_eq!(memory.read(4095), 0x5A);
    assert_eq!(memory.read(0x1FF), 0);
}

#[test]
fn font_and_program_do_not_overlap() {
    let mut memory = RAM::new();
    let font = Font::default();
    font.load(&mut memory);
    let program = Program::new(String::from("big"), vec![0xFF; chipate::machine::MAX_PROGRAM_SIZE]);
    program.load(&mut memory);
    for k in 0..80u16 {
        assert_eq!(memory.read(0x050 + k), chipate::machine::DEFAULT_FONT_DATA[k as usize]);
    }
}

#[test]
fn display_state_starts_blank_and_writes_one_pixel() {
    let mut display = DisplayState::new();
    assert!(!display.read_pixel(0));
    assert!(!display.read_pixel(2047));
    display.write_pixel(65, true);
    assert!(display.read_pixel(65));
    assert!(!display.read_pixel(64));
    assert!(!display.read_pixel(66));
}

#[test]
fn display_state_writes_by_exclusive_or() {
    let mut display = DisplayState::new();
    // unset with unset stays unset
    display.write_pixel(7, false);
    assert!(!display.read_pixel(7));
    // unset with set becomes set
    display.write_pixel(7, true);
    assert!(display.read_pixel(7));
    // set with unset stays set
    display.write_pixel(7, false);
    assert!(display.read_pixel(7));
    // set with set becomes unset
    display.write_pixel(7, true);
    assert!(!display.read_pixel(7));
    display.write_pixel(2047, true);
    assert!(display.read_pixel(2047));
}

#[test]
fn display_state_clear_unsets_every_pixel() {
    let mut display = DisplayState::new();
    display.write_pixel(0, true);
    display.write_pixel(1000, true);
    display.write_pixel(2047, true);
    display.clear();
    for idx in 0..2048u16 {
        assert!(!display.read_pixel(idx));
    }
}

#[test]
fn gfx_display_reads_writes_and_clears() {
    let mut display = Display::new();
    assert!(!display.read_pixel(0));
    display.write_pixel(2047, true);
    display.write_pixel(3, true);
    assert!(display.read_pixel(2047));
    assert!(display.read_pixel(3));
    assert!(!display.read_pixel(4));
    display.clear();
    assert!(!display.read_pixel(2047));
    assert!(!display.read_pixel(3));
}

#[test]
fn gfx_display_writes_by_exclusive_or() {
    let mut display = Display::new();
    display.write_pixel(100, false);
    assert!(!display.read_pixel(100));
    display.write_pixel(100, true);
    assert!(display.read_pixel(100));
    display.write_pixel(100, false);
    assert!(display.read_pixel(100));
    display.write_pixel(100, true);
    assert!(!display.read_pixel(100));
}

#[test]
fn key_digits_round_trip() {
    let keys = [
        Key::Num0,
        Key::Num1,
        Key::Num2,
        Key::Num3,
        Key::Num4,
        Key::Num5,
        Key::Num6,
        Key::Num7,
        Key::Num8,
        Key::Num9,
        Key::A,
        Key::B,
        Key::C,
        Key::D,
        Key::E,
        Key::F,
    ];
    for (digit, key) in keys.iter().enumerate() {
        assert_eq!(key.idx(), digit);
        assert_eq!(Key::from_idx(digit), *key);
        assert_eq!(usize::from(*key), digit);
    }
}

#[test]
fn key_state_marks_and_resets() {
    let mut keys = KeyState::new();
    assert!(!keys.is_key_pressed(Key::A));
    keys.mark_key_pressed(Key::A);
    assert!(keys.is_key_pressed(Key::A));
    assert!(!keys.is_key_pressed(Key::B));
    assert!(!keys.is_key_pressed(Key::Num9));
    keys.mark_key_pressed(Key::A);
    assert!(keys.is_key_pressed(Key::A));
    keys.reset();
    assert!(!keys.is_key_pressed(Key::A));
}

#[test]
fn pressed_key_is_the_lowest_one() {
    let mut keys = KeyState::new();
    assert_eq!(keys.get_pressed_key(), None);
    keys.mark_key_pressed(Key::F);
    assert_eq!(keys.get_pressed_key(), Some(0xF));
    keys.mark_key_pressed(Key::Num7);
    assert_eq!(keys.get_pressed_key(), Some(0x7));
    keys.mark_key_pressed(Key::C);
    assert_eq!(keys.get_pressed_key(), Some(0x7));
    keys.mark_key_pressed(Key::Num0);
    assert_eq!(keys.get_pressed_key(), Some(0x0));
    keys.reset();
    assert_eq!(keys.get_pressed_key(), None);
}
