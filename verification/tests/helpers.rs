use chip8::bits::{high_nibble, join_bytes, join_nibbles, low_nibble, split_word};
use chip8::hex::{push_hex_byte, push_hex_word};
use chip8::{SCREEN_HEIGHT, SCREEN_WIDTH, STACK_SIZE, WINDOW_HEIGHT, WINDOW_WIDTH};

#[test]
fn nibbles_split_and_join() {
    assert_eq!(high_nibble(0xA7), 0xA);
    assert_eq!(low_nibble(0xA7), 0x7);
    assert_eq!(join_nibbles(0xA, 0x7), 0xA7);
    assert_eq!(join_nibbles(0x1A, 0xF7), 0xA7);
    for byte in 0..=u8::MAX {
        assert_eq!(join_nibbles(high_nibble(byte), low_nibble(byte)), byte);
    }
}

#[test]
fn words_split_and_join_big_endian() {
    assert_eq!(join_bytes(0x12, 0x34), 0x1234);
    assert_eq!(split_word(0x1234), (0x12, 0x34));
    assert_eq!(join_bytes(0xFF, 0x00), 0xFF00);
    assert_eq!(split_word(0x00FF), (0x00, 0xFF));
    for word in 0..=u16::MAX {
        let (high, low) = split_word(word);
        assert_eq!(join_bytes(high, low), word);
    }
}

#[test]
fn hex_digits_are_upper_case_and_padded() {
    let mut text = String::from("x");
    push_hex_byte(&mut text, 0x0A);
    assert_eq!(text, "x0A");
    push_hex_byte(&mut text, 0xF0);
    assert_eq!(text, "x0AF0");
    push_hex_word(&mut text, 0x0BCD);
    assert_eq!(text, "x0AF00BCD");
    push_hex_word(&mut text, 0);
    assert_eq!(text, "x0AF00BCD0000");
}

#[test]
fn hex_agrees_with_the_standard_formatter() {
    for byte in 0..=u8::MAX {
        let mut text = String::new();
        push_hex_byte(&mut text, byte);
        assert_eq!(text, format!("{byte:02X}"));
    }
    for word in [0u16, 1, 0x00E0, 0x1234, 0xABCD, 0xFFFF] {
        let mut text = String::new();
        push_hex_word(&mut text, word);
        assert_eq!(text, format!("{word:04X}"));
    }
}

#[test]
fn dimensions_of_the_machine() {
    assert_eq!(STACK_SIZE, 16);
    assert_eq!(SCREEN_WIDTH, 64);
    assert_eq!(SCREEN_HEIGHT, 32);
    assert_eq!(WINDOW_WIDTH, 1024);
    assert_eq!(WINDOW_HEIGHT, 512);
}
