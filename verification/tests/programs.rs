use chip8::font::FONT;
use chip8::{Chip8, Chip8Error};

const MAZE: [u8; 38] = [
    0x60, 0x00, 0x61, 0x00, 0xA2, 0x22, 0xC2, 0x01, 0x32, 0x01, 0xA2, 0x1E, 0xD0, 0x14, 0x70, 0x04,
    0x30, 0x40, 0x12, 0x04, 0x60, 0x00, 0x71, 0x04, 0x31, 0x20, 0x12, 0x04, 0x12, 0x1C, 0x80, 0x40,
    0x20, 0x10, 0x20, 0x40, 0x80, 0x10,
];

fn rom(file_path: &str) -> &'static [u8] {
    match file_path {
        "maze.ch8" => &MAZE,
        _ => panic!("no such program: {file_path}"),
    }
}

#[test]
fn load_maze_rom_test() {
    let fp = "maze.ch8".to_string();
    let mut chip8 = Chip8::new();
    chip8.load_rom(rom(&fp)).expect("should load the rom");
    println!("{}", chip8.memory_hexdump(0x200, 0x238));
    assert_eq!(chip8.memory()[0x200], 0x60);
    assert_eq!(chip8.memory()[0x200], 0x60);
    assert_eq!(chip8.memory()[0x201], 0x00);
    assert_eq!(chip8.memory()[0x202], 0x61);
    assert_eq!(chip8.memory()[0x203], 0x00);
    assert_eq!(chip8.memory()[0x204], 0xA2);
    assert_eq!(chip8.memory()[0x205], 0x22);
    assert_eq!(chip8.memory()[0x210], 0x30);
    assert_eq!(chip8.memory()[0x220], 0x20);
    assert_eq!(chip8.memory()[0x221], 0x10);
    assert_eq!(chip8.memory()[0x230], 0x00);
}

#[test]
fn load_font_test() {
    let mut chip8 = Chip8::new();
    chip8.load_font();
    assert_eq!(FONT, chip8.memory()[0x050..0x09f + 1]);
}

#[test]
fn new_machine_is_zeroed_with_font_in_place() {
    let chip8 = Chip8::new();
    assert_eq!(chip8.pc(), 0x200);
    assert_eq!(chip8.index(), 0);
    assert_eq!(chip8.sp(), 0);
    assert!(chip8.stack().is_empty());
    assert_eq!(chip8.delay_timer(), 0);
    assert_eq!(chip8.sound_timer(), 0);
    assert_eq!(chip8.registers(), &[0u8; 16]);
    assert!(chip8.keypad().iter().all(|pressed| !pressed));
    assert!(chip8.display().iter().all(|lit| !lit));
    for (address, byte) in chip8.memory().iter().enumerate() {
        if (0x050..0x0A0).contains(&address) {
            assert_eq!(*byte, FONT[address - 0x050]);
        } else {
            assert_eq!(*byte, 0);
        }
    }
}

#[test]
fn font_glyphs_are_five_rows_each() {
    let chip8 = Chip8::new();
    assert_eq!(chip8.memory()[0x050..0x055], [0xF0, 0x90, 0x90, 0x90, 0xF0]);
    assert_eq!(chip8.memory()[0x055..0x05A], [0x20, 0x60, 0x20, 0x20, 0x70]);
    assert_eq!(chip8.memory()[0x09B..0x0A0], [0xF0, 0x80, 0xF0, 0x80, 0x80]);
}

#[test]
fn program_bytes_land_at_start_address_and_first_step_runs_them() {
    let mut chip8 = Chip8::new();
    assert_eq!(chip8.load_rom(&[0x60, 0x00, 0x61, 0x00, 0xA2, 0x22]), Ok(()));
    assert_eq!(chip8.memory()[0x200..0x206], [0x60, 0x00, 0x61, 0x00, 0xA2, 0x22]);
    assert_eq!(chip8.cycle(), Ok(()));
    assert_eq!(chip8.pc(), 0x202);
    assert_eq!(chip8.registers()[0], 0x00);
}

#[test]
fn loading_keeps_the_rest_of_memory() {
    let mut chip8 = Chip8::new();
    let before: Vec<u8> = chip8.memory().to_vec();
    assert_eq!(chip8.load_rom(&[1, 2, 3]), Ok(()));
    assert_eq!(chip8.memory()[..0x200], before[..0x200]);
    assert_eq!(chip8.memory()[0x200..0x203], [1, 2, 3]);
    assert_eq!(chip8.memory()[0x203..], before[0x203..]);
}

#[test]
fn largest_program_fills_memory_to_the_end() {
    let mut chip8 = Chip8::new();
    let program: Vec<u8> = (0..3584u32).map(|i| (i % 251) as u8 + 1).collect();
    assert_eq!(chip8.load_rom(&program), Ok(()));
    assert_eq!(chip8.memory()[0x200], 1);
    assert_eq!(chip8.memory()[0xFFF], (3583u32 % 251) as u8 + 1);
    assert_eq!(chip8.memory()[0x200..], program[..]);
}

#[test]
fn program_one_byte_too_large_is_refused_and_nothing_is_copied() {
    let mut chip8 = Chip8::new();
    let before: Vec<u8> = chip8.memory().to_vec();
    let program: Vec<u8> = vec![0xAA; 3585];
    assert_eq!(chip8.load_rom(&program), Err(Chip8Error::ProgramTooLarge));
    assert_eq!(chip8.memory()[..], before[..]);
}

#[test]
fn empty_program_changes_nothing() {
    let mut chip8 = Chip8::new();
    let before: Vec<u8> = chip8.memory().to_vec();
    assert_eq!(chip8.load_rom(&[]), Ok(()));
    assert_eq!(chip8.memory()[..], before[..]);
}

#[test]
fn second_program_overwrites_the_first_where_they_overlap() {
    let mut chip8 = Chip8::new();
    assert_eq!(chip8.load_rom(&[1, 2, 3, 4]), Ok(()));
    assert_eq!(chip8.load_rom(&[9, 8]), Ok(()));
    assert_eq!(chip8.memory()[0x200..0x204], [9, 8, 3, 4]);
}

#[test]
fn maze_runs_its_first_instructions() {
    let mut chip8 = Chip8::new();
    assert_eq!(chip8.load_rom(&MAZE), Ok(()));
    assert_eq!(chip8.cycle_with(0), Ok(()));
    assert_eq!(chip8.cycle_with(0), Ok(()));
    assert_eq!(chip8.cycle_with(0), Ok(()));
    assert_eq!(chip8.index(), 0x222);
    assert_eq!(chip8.cycle_with(0xFF), Ok(()));
    assert_eq!(chip8.registers()[2], 1);
    assert_eq!(chip8.cycle_with(0), Ok(()));
    assert_eq!(chip8.pc(), 0x20C);
    assert_eq!(chip8.cycle_with(0), Ok(()));
    assert_eq!(chip8.registers()[0xF], 0);
    let lit: usize = chip8.display().iter().filter(|cell| **cell).count();
    assert_eq!(lit, 4);
    assert!(chip8.display()[2]);
    assert!(chip8.display()[64 + 1]);
    assert!(chip8.display()[128]);
    assert!(chip8.display()[192 + 3]);
}
