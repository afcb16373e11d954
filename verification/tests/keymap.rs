use chip8::keymap::{
    SCANCODE_1, SCANCODE_2, SCANCODE_3, SCANCODE_4, SCANCODE_A, SCANCODE_C, SCANCODE_D, SCANCODE_E,
    SCANCODE_F, SCANCODE_Q, SCANCODE_R, SCANCODE_S, SCANCODE_V, SCANCODE_W, SCANCODE_X, SCANCODE_Z,
};
use chip8::Chip8;

#[test]
fn keyboard_block_is_laid_out_like_the_keypad() {
    assert_eq!(Chip8::map_scancode_to_chip8_key(SCANCODE_1), Some(0x1));
    assert_eq!(Chip8::map_scancode_to_chip8_key(SCANCODE_2), Some(0x2));
    assert_eq!(Chip8::map_scancode_to_chip8_key(SCANCODE_3), Some(0x3));
    assert_eq!(Chip8::map_scancode_to_chip8_key(SCANCODE_4), Some(0xC));
    assert_eq!(Chip8::map_scancode_to_chip8_key(SCANCODE_Q), Some(0x4));
    assert_eq!(Chip8::map_scancode_to_chip8_key(SCANCODE_W), Some(0x5));
    assert_eq!(Chip8::map_scancode_to_chip8_key(SCANCODE_E), Some(0x6));
    assert_eq!(Chip8::map_scancode_to_chip8_key(SCANCODE_R), Some(0xD));
    assert_eq!(Chip8::map_scancode_to_chip8_key(SCANCODE_A), Some(0x7));
    assert_eq!(Chip8::map_scancode_to_chip8_key(SCANCODE_S), Some(0x8));
    assert_eq!(Chip8::map_scancode_to_chip8_key(SCANCODE_D), Some(0x9));
    assert_eq!(Chip8::map_scancode_to_chip8_key(SCANCODE_F), Some(0xE));
    assert_eq!(Chip8::map_scancode_to_chip8_key(SCANCODE_Z), Some(0xA));
    assert_eq!(Chip8::map_scancode_to_chip8_key(SCANCODE_X), Some(0x0));
    assert_eq!(Chip8::map_scancode_to_chip8_key(SCANCODE_C), Some(0xB));
    assert_eq!(Chip8::map_scancode_to_chip8_key(SCANCODE_V), Some(0xF));
}

#[test]
fn scancodes_are_the_positions_of_the_keys() {
    assert_eq!(
        [SCANCODE_A, SCANCODE_C, SCANCODE_D, SCANCODE_E, SCANCODE_F],
        [4, 6, 7, 8, 9]
    );
    assert_eq!(
        [SCANCODE_Q, SCANCODE_R, SCANCODE_S, SCANCODE_V, SCANCODE_W, SCANCODE_X, SCANCODE_Z],
        [20, 21, 22, 25, 26, 27, 29]
    );
    assert_eq!([SCANCODE_1, SCANCODE_2, SCANCODE_3, SCANCODE_4], [30, 31, 32, 33]);
    assert_eq!(Chip8::map_scancode_to_chip8_key(5), None);
    assert_eq!(Chip8::map_scancode_to_chip8_key(34), None);
    assert_eq!(Chip8::map_scancode_to_chip8_key(41), None);
}

#[test]
fn every_key_has_exactly_one_scancode() {
    let mut count = [0usize; 16];
    for scancode in -600..600i32 {
        if let Some(key) = Chip8::map_scancode_to_chip8_key(scancode) {
            assert!(key < 16);
            count[key as usize] += 1;
        }
    }
    assert_eq!(count, [1usize; 16]);
    assert_eq!(Chip8::map_scancode_to_chip8_key(i32::MIN), None);
    assert_eq!(Chip8::map_scancode_to_chip8_key(i32::MAX), None);
    assert_eq!(Chip8::map_scancode_to_chip8_key(0), None);
}
