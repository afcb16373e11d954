use chip8::{Chip8, Chip8Error};

fn load(program: &[u8]) -> Chip8 {
    let mut chip8 = Chip8::new();
    assert_eq!(chip8.load_rom(program), Ok(()));
    chip8
}

fn run(program: &[u8], cycles: usize) -> Chip8 {
    let mut chip8 = load(program);
    for _ in 0..cycles {
        assert_eq!(chip8.cycle_with(0), Ok(()));
    }
    chip8
}

#[test]
fn jump_sets_the_program_counter() {
    assert_eq!(run(&[0x1A, 0xBC], 1).pc(), 0xABC);
    assert_eq!(run(&[0x10, 0x00], 1).pc(), 0x000);
    assert_eq!(run(&[0x1F, 0xFF], 1).pc(), 0xFFF);
}

#[test]
fn jump_with_offset_adds_v0() {
    assert_eq!(run(&[0x60, 0x10, 0xB3, 0x00], 2).pc(), 0x310);
    assert_eq!(run(&[0x60, 0xFF, 0xBF, 0xFF], 2).pc(), 0x10FE);
    assert_eq!(run(&[0xB2, 0x34], 1).pc(), 0x234);
}

#[test]
fn skip_if_byte_equal_advances_by_four_or_two() {
    assert_eq!(run(&[0x65, 0x2A, 0x35, 0x2A], 2).pc(), 0x206);
    assert_eq!(run(&[0x65, 0x2A, 0x35, 0x2B], 2).pc(), 0x204);
}

#[test]
fn skip_if_byte_differs_advances_by_four_or_two() {
    assert_eq!(run(&[0x65, 0x2A, 0x45, 0x2B], 2).pc(), 0x206);
    assert_eq!(run(&[0x65, 0x2A, 0x45, 0x2A], 2).pc(), 0x204);
}

#[test]
fn skip_if_registers_equal_advances_by_four_or_two() {
    assert_eq!(run(&[0x65, 0x2A, 0x66, 0x2A, 0x55, 0x60], 3).pc(), 0x208);
    assert_eq!(run(&[0x65, 0x2A, 0x66, 0x2B, 0x55, 0x60], 3).pc(), 0x206);
    assert_eq!(run(&[0x55, 0x50], 1).pc(), 0x204);
}

#[test]
fn skip_if_registers_equal_ignores_the_low_nibble() {
    assert_eq!(run(&[0x65, 0x2A, 0x66, 0x2A, 0x55, 0x67], 3).pc(), 0x208);
    assert_eq!(run(&[0x65, 0x2A, 0x66, 0x2B, 0x55, 0x67], 3).pc(), 0x206);
}

#[test]
fn skip_if_registers_differ_advances_by_four_or_two() {
    assert_eq!(run(&[0x65, 0x2A, 0x66, 0x2B, 0x95, 0x60], 3).pc(), 0x208);
    assert_eq!(run(&[0x65, 0x2A, 0x66, 0x2A, 0x95, 0x60], 3).pc(), 0x206);
}

#[test]
fn skips_take_every_register() {
    for x in 0..16u8 {
        assert_eq!(run(&[0x60 | x, 0x33, 0x30 | x, 0x33], 2).pc(), 0x206);
        assert_eq!(run(&[0x60 | x, 0x33, 0x40 | x, 0x33], 2).pc(), 0x204);
    }
}

#[test]
fn call_pushes_the_return_address() {
    let chip8 = run(&[0x23, 0x00], 1);
    assert_eq!(chip8.pc(), 0x300);
    assert_eq!(chip8.sp(), 1);
    assert_eq!(chip8.stack(), vec![0x202]);
}

#[test]
fn call_then_return_comes_back_behind_the_call() {
    let mut chip8 = load(&[0x60, 0x01, 0x22, 0x08, 0x61, 0x02, 0x00, 0x00, 0x00, 0xEE]);
    assert_eq!(chip8.cycle_with(0), Ok(()));
    let sp_before: usize = chip8.sp();
    let stack_before: Vec<u16> = chip8.stack();
    assert_eq!(chip8.pc(), 0x202);
    assert_eq!(chip8.cycle_with(0), Ok(()));
    assert_eq!(chip8.pc(), 0x208);
    assert_eq!(chip8.sp(), sp_before + 1);
    assert_eq!(chip8.cycle_with(0), Ok(()));
    assert_eq!(chip8.pc(), 0x204);
    assert_eq!(chip8.sp(), sp_before);
    assert_eq!(chip8.stack(), stack_before);
    assert_eq!(chip8.cycle_with(0), Ok(()));
    assert_eq!(chip8.registers()[1], 2);
}

#[test]
fn nested_calls_return_in_reverse_order() {
    let mut chip8 = load(&[0x22, 0x04, 0x00, 0x00, 0x22, 0x08, 0x00, 0xEE, 0x00, 0xEE]);
    assert_eq!(chip8.cycle_with(0), Ok(()));
    assert_eq!(chip8.cycle_with(0), Ok(()));
    assert_eq!(chip8.stack(), vec![0x202, 0x206]);
    assert_eq!(chip8.cycle_with(0), Ok(()));
    assert_eq!(chip8.pc(), 0x206);
    assert_eq!(chip8.stack(), vec![0x202]);
    assert_eq!(chip8.cycle_with(0), Ok(()));
    assert_eq!(chip8.pc(), 0x202);
    assert_eq!(chip8.sp(), 0);
}

#[test]
fn return_with_empty_stack_underflows() {
    let mut chip8 = load(&[0x00, 0xEE]);
    assert_eq!(chip8.cycle_with(0), Err(Chip8Error::StackUnderflow));
    assert_eq!(chip8.pc(), 0x200);
    assert_eq!(chip8.sp(), 0);
}

#[test]
fn seventeenth_call_overflows() {
    let mut chip8 = load(&[0x22, 0x00]);
    for depth in 0..16usize {
        assert_eq!(chip8.sp(), depth);
        assert_eq!(chip8.cycle_with(0), Ok(()));
    }
    assert_eq!(chip8.sp(), 16);
    assert_eq!(chip8.stack(), vec![0x202; 16]);
    assert_eq!(chip8.cycle_with(0), Err(Chip8Error::StackOverflow));
    assert_eq!(chip8.sp(), 16);
    assert_eq!(chip8.pc(), 0x200);
    assert_eq!(chip8.stack(), vec![0x202; 16]);
}

#[test]
fn skip_if_key_pressed() {
    let mut chip8 = load(&[0x63, 0x0B, 0xE3, 0x9E]);
    chip8.set_key(0xB, true);
    assert_eq!(chip8.cycle_with(0), Ok(()));
    assert_eq!(chip8.cycle_with(0), Ok(()));
    assert_eq!(chip8.pc(), 0x206);
    let chip8 = run(&[0x63, 0x0B, 0xE3, 0x9E], 2);
    assert_eq!(chip8.pc(), 0x204);
}

#[test]
fn skip_if_key_not_pressed() {
    let mut chip8 = load(&[0x63, 0x0B, 0xE3, 0xA1]);
    chip8.set_key(0xB, true);
    assert_eq!(chip8.cycle_with(0), Ok(()));
    assert_eq!(chip8.cycle_with(0), Ok(()));
    assert_eq!(chip8.pc(), 0x204);
    let chip8 = run(&[0x63, 0x0B, 0xE3, 0xA1], 2);
    assert_eq!(chip8.pc(), 0x206);
}

#[test]
fn key_test_with_a_number_that_names_no_key_fails() {
    let mut chip8 = load(&[0x63, 0x10, 0xE3, 0x9E]);
    assert_eq!(chip8.cycle_with(0), Ok(()));
    assert_eq!(chip8.cycle_with(0), Err(Chip8Error::OutOfBoundsAccess));
    assert_eq!(chip8.pc(), 0x202);
    let mut chip8 = load(&[0x63, 0xFF, 0xE3, 0xA1]);
    assert_eq!(chip8.cycle_with(0), Ok(()));
    assert_eq!(chip8.cycle_with(0), Err(Chip8Error::OutOfBoundsAccess));
    assert_eq!(chip8.pc(), 0x202);
}

#[test]
fn key_released_is_no_longer_pressed() {
    let mut chip8 = load(&[0xE0, 0x9E]);
    chip8.set_key(0, true);
    assert!(chip8.keypad()[0]);
    chip8.set_key(0, false);
    assert!(!chip8.keypad()[0]);
    assert_eq!(chip8.cycle_with(0), Ok(()));
    assert_eq!(chip8.pc(), 0x202);
}

#[test]
fn key_number_above_fifteen_is_ignored() {
    let mut chip8 = Chip8::new();
    chip8.set_key(16, true);
    chip8.set_key(255, true);
    assert!(chip8.keypad().iter().all(|pressed| !pressed));
    chip8.set_key(15, true);
    assert!(chip8.keypad()[15]);
    assert_eq!(chip8.keypad().iter().filter(|pressed| **pressed).count(), 1);
}

#[test]
fn wait_for_key_stays_until_a_key_goes_down() {
    let mut chip8 = load(&[0xF4, 0x0A, 0x61, 0x01]);
    for _ in 0..10 {
        assert_eq!(chip8.cycle_with(0), Ok(()));
        assert_eq!(chip8.pc(), 0x200);
        assert_eq!(chip8.registers(), &[0u8; 16]);
    }
    chip8.set_key(9, true);
    chip8.set_key(5, true);
    chip8.set_key(12, true);
    assert_eq!(chip8.cycle_with(0), Ok(()));
    assert_eq!(chip8.pc(), 0x202);
    assert_eq!(chip8.registers()[4], 5);
    assert_eq!(chip8.cycle_with(0), Ok(()));
    assert_eq!(chip8.registers()[1], 1);
}

#[test]
fn wait_for_key_takes_key_zero_and_key_fifteen() {
    let mut chip8 = load(&[0xF4, 0x0A]);
    chip8.set_key(15, true);
    assert_eq!(chip8.cycle_with(0), Ok(()));
    assert_eq!(chip8.registers()[4], 15);
    let mut chip8 = load(&[0x64, 0x33, 0xF4, 0x0A]);
    chip8.set_key(0, true);
    chip8.set_key(15, true);
    assert_eq!(chip8.cycle_with(0), Ok(()));
    assert_eq!(chip8.cycle_with(0), Ok(()));
    assert_eq!(chip8.registers()[4], 0);
    assert_eq!(chip8.pc(), 0x204);
}

#[test]
fn timers_run_while_waiting_for_a_key() {
    let mut chip8 = load(&[0x61, 0x05, 0xF1, 0x15, 0xF1, 0x18, 0xF2, 0x0A]);
    for _ in 0..3 {
        assert_eq!(chip8.cycle_with(0), Ok(()));
    }
    assert_eq!(chip8.delay_timer(), 3);
    assert_eq!(chip8.sound_timer(), 4);
    assert_eq!(chip8.cycle_with(0), Ok(()));
    assert_eq!(chip8.pc(), 0x206);
    assert_eq!(chip8.delay_timer(), 2);
    assert_eq!(chip8.sound_timer(), 3);
    for _ in 0..5 {
        assert_eq!(chip8.cycle_with(0), Ok(()));
    }
    assert_eq!(chip8.pc(), 0x206);
    assert_eq!(chip8.delay_timer(), 0);
    assert_eq!(chip8.sound_timer(), 0);
}

#[test]
fn timers_count_down_to_zero_and_stay() {
    let mut chip8 = load(&[0x61, 0x03, 0xF1, 0x15, 0x62, 0x02, 0xF2, 0x18, 0x12, 0x08]);
    assert_eq!(chip8.cycle_with(0), Ok(()));
    assert_eq!(chip8.cycle_with(0), Ok(()));
    assert_eq!(chip8.delay_timer(), 2);
    assert_eq!(chip8.cycle_with(0), Ok(()));
    assert_eq!(chip8.delay_timer(), 1);
    assert_eq!(chip8.cycle_with(0), Ok(()));
    assert_eq!(chip8.delay_timer(), 0);
    assert_eq!(chip8.sound_timer(), 1);
    assert_eq!(chip8.cycle_with(0), Ok(()));
    assert_eq!(chip8.delay_timer(), 0);
    assert_eq!(chip8.sound_timer(), 0);
    assert_eq!(chip8.cycle_with(0), Ok(()));
    assert_eq!(chip8.delay_timer(), 0);
    assert_eq!(chip8.sound_timer(), 0);
}

#[test]
fn fetch_reads_the_word_and_moves_on() {
    let mut chip8 = load(&[0x12, 0x34, 0xAB, 0xCD]);
    assert_eq!(chip8.fetch(), Ok(0x1234));
    assert_eq!(chip8.pc(), 0x202);
    assert_eq!(chip8.fetch(), Ok(0xABCD));
    assert_eq!(chip8.pc(), 0x204);
    assert_eq!(chip8.fetch(), Ok(0x0000));
}

#[test]
fn fetch_beyond_memory_fails_and_stays() {
    let mut chip8 = load(&[0x1F, 0xFF]);
    assert_eq!(chip8.cycle_with(0), Ok(()));
    assert_eq!(chip8.pc(), 0xFFF);
    assert_eq!(chip8.fetch(), Err(Chip8Error::OutOfBoundsAccess));
    assert_eq!(chip8.pc(), 0xFFF);
    assert_eq!(chip8.peek(), Err(Chip8Error::OutOfBoundsAccess));
    assert_eq!(chip8.cycle_with(0), Err(Chip8Error::OutOfBoundsAccess));
    assert_eq!(chip8.cycle(), Err(Chip8Error::OutOfBoundsAccess));
    assert_eq!(chip8.pc(), 0xFFF);
}

#[test]
fn fetch_of_the_last_word_of_memory_succeeds() {
    let mut program: Vec<u8> = vec![0; 3584];
    program[0] = 0x1F;
    program[1] = 0xFE;
    program[3582] = 0x6A;
    program[3583] = 0x77;
    let mut chip8 = load(&program);
    assert_eq!(chip8.cycle_with(0), Ok(()));
    assert_eq!(chip8.pc(), 0xFFE);
    assert_eq!(chip8.cycle_with(0), Ok(()));
    assert_eq!(chip8.registers()[0xA], 0x77);
    assert_eq!(chip8.pc(), 0x1000);
    assert_eq!(chip8.cycle_with(0), Err(Chip8Error::OutOfBoundsAccess));
    assert_eq!(chip8.pc(), 0x1000);
}

#[test]
fn jump_with_offset_beyond_memory_fails_at_the_next_fetch() {
    let mut chip8 = load(&[0x60, 0xFF, 0xBF, 0xFF]);
    assert_eq!(chip8.cycle_with(0), Ok(()));
    assert_eq!(chip8.cycle_with(0), Ok(()));
    assert_eq!(chip8.pc(), 0x10FE);
    assert_eq!(chip8.cycle_with(0), Err(Chip8Error::OutOfBoundsAccess));
}
