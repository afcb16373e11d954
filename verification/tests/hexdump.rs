use chip8::Chip8;

const MAZE: [u8; 38] = [
    0x60, 0x00, 0x61, 0x00, 0xA2, 0x22, 0xC2, 0x01, 0x32, 0x01, 0xA2, 0x1E, 0xD0, 0x14, 0x70, 0x04,
    0x30, 0x40, 0x12, 0x04, 0x60, 0x00, 0x71, 0x04, 0x31, 0x20, 0x12, 0x04, 0x12, 0x1C, 0x80, 0x40,
    0x20, 0x10, 0x20, 0x40, 0x80, 0x10,
];

fn expected_dump(memory: &[u8], start: usize, end: usize) -> String {
    let mut text = String::new();
    for (i, chunk) in memory[start..end].chunks(16).enumerate() {
        text.push_str(&format!("0x{:03X}: ", start + i * 16));
        for byte in chunk {
            text.push_str(&format!("{:02X} ", byte));
        }
        text.push('\n');
    }
    text
}

#[test]
fn hexdump_of_the_maze() {
    let mut chip8 = Chip8::new();
    assert_eq!(chip8.load_rom(&MAZE), Ok(()));
    let expected = "0x200: 60 00 61 00 A2 22 C2 01 32 01 A2 1E D0 14 70 04 \n\
                    0x210: 30 40 12 04 60 00 71 04 31 20 12 04 12 1C 80 40 \n\
                    0x220: 20 10 20 40 80 10 00 00 00 00 00 00 00 00 00 00 \n\
                    0x230: 00 00 00 00 00 00 00 00 \n";
    assert_eq!(chip8.memory_hexdump(0x200, 0x238), expected);
}

#[test]
fn hexdump_of_an_empty_range_is_empty() {
    let chip8 = Chip8::new();
    assert_eq!(chip8.memory_hexdump(0, 0), "");
    assert_eq!(chip8.memory_hexdump(0x200, 0x200), "");
    assert_eq!(chip8.memory_hexdump(4096, 4096), "");
}

#[test]
fn hexdump_lines_start_where_the_range_starts() {
    let chip8 = Chip8::new();
    assert_eq!(chip8.memory_hexdump(0x04F, 0x051), "0x04F: 00 F0 \n");
    assert_eq!(
        chip8.memory_hexdump(0x09B, 0x0AC),
        "0x09B: F0 80 F0 80 80 00 00 00 00 00 00 00 00 00 00 00 \n0x0AB: 00 \n"
    );
    assert_eq!(chip8.memory_hexdump(0xFFF, 0x1000), "0xFFF: 00 \n");
}

#[test]
fn hexdump_agrees_with_the_standard_formatter() {
    let mut chip8 = Chip8::new();
    let program: Vec<u8> = (0..3584u32).map(|i| (i * 7 + 3) as u8).collect();
    assert_eq!(chip8.load_rom(&program), Ok(()));
    for (start, end) in [(0usize, 4096usize), (0x1FF, 0x211), (0x200, 0x2FF), (0x3A7, 0xFFF), (0xABC, 0xABD), (17, 17)] {
        assert_eq!(
            chip8.memory_hexdump(start as u16, end as u16),
            expected_dump(chip8.memory(), start, end)
        );
    }
}
