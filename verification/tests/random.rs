use chip8::Chip8;

fn load(program: &[u8]) -> Chip8 {
    let mut chip8 = Chip8::new();
    assert_eq!(chip8.load_rom(program), Ok(()));
    chip8
}

#[test]
fn random_byte_is_masked() {
    for (random, mask, expected) in
        [(0xFFu8, 0x0Fu8, 0x0Fu8), (0xA5, 0xF0, 0xA0), (0xA5, 0xFF, 0xA5), (0xFF, 0x00, 0x00), (0x00, 0xFF, 0x00), (0x3C, 0x5A, 0x18)]
    {
        let mut chip8 = load(&[0xC7, mask]);
        assert_eq!(chip8.cycle_with(random), Ok(()));
        assert_eq!(chip8.registers()[7], expected);
        assert_eq!(chip8.pc(), 0x202);
        assert_eq!(chip8.registers()[0xF], 0);
    }
}

#[test]
fn other_instructions_do_not_look_at_the_random_byte() {
    let program: [u8; 8] = [0x61, 0x07, 0x71, 0xFF, 0x81, 0x14, 0xF1, 0x1E];
    let mut a = load(&program);
    let mut b = load(&program);
    for step in 0..4u8 {
        assert_eq!(a.cycle_with(step), Ok(()));
        assert_eq!(b.cycle_with(255 - step), Ok(()));
        assert_eq!(a.registers(), b.registers());
        assert_eq!(a.pc(), b.pc());
        assert_eq!(a.index(), b.index());
    }
}

#[test]
fn cycle_draws_a_byte_within_the_mask() {
    let mut chip8 = load(&[0xC1, 0x00, 0xC2, 0x0F, 0xC3, 0xFF, 0x12, 0x00]);
    let mut seen = [false; 256];
    for _ in 0..4000 {
        assert_eq!(chip8.cycle(), Ok(()));
        assert_eq!(chip8.cycle(), Ok(()));
        assert_eq!(chip8.cycle(), Ok(()));
        assert_eq!(chip8.cycle(), Ok(()));
        assert_eq!(chip8.registers()[1], 0);
        assert!(chip8.registers()[2] <= 0x0F);
        seen[chip8.registers()[3] as usize] = true;
        assert_eq!(chip8.pc(), 0x200);
    }
    assert!(seen.iter().filter(|hit| **hit).count() > 128);
    assert!(seen[255] || seen[254] || seen[253] || seen[252]);
}

#[test]
fn cycle_without_random_instruction_is_the_plain_step() {
    let program: [u8; 6] = [0x61, 0x07, 0x71, 0xFF, 0x81, 0x14];
    let mut a = load(&program);
    let mut b = load(&program);
    for _ in 0..3 {
        assert_eq!(a.cycle(), Ok(()));
        assert_eq!(b.cycle_with(0), Ok(()));
        assert_eq!(a.registers(), b.registers());
        assert_eq!(a.pc(), b.pc());
    }
    assert_eq!(a.registers()[1], 0x0C);
    assert_eq!(a.registers()[0xF], 0);
}
