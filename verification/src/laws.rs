use vstd::prelude::*;
use crate::display::{lemma_draw_twice, lights};
use crate::error::Chip8Error;
use crate::font::font_table;
use crate::instruction::{lemma_decode_encode, lemma_decoded_well_formed, Instruction};
use crate::model::{is_lowest_pressed, lowest_pressed, MachineState};

verus! {

/// The machine after construction is well formed and holds the font table
/// at `0x050..0x0A0`.
pub proof fn law_font_resident()
    ensures
        MachineState::initial().wf(),
        MachineState::initial().memory.subrange(0x050, 0x0A0) == font_table(),
{
    assert(MachineState::initial().memory.subrange(0x050, 0x0A0) =~= font_table());
}

/// Loading a program that fits puts its bytes, in order, at the start
/// address and leaves every other byte of memory as it was.
pub proof fn law_program_resident(s: MachineState, program: Seq<u8>)
    requires
        s.wf(),
        MachineState::fits(program.len() as int),
    ensures
        s.loaded(program).wf(),
        s.loaded(program).memory.subrange(0x200, 0x200 + program.len() as int) == program,
        forall|a: int|
            0 <= a < 0x200 || 0x200 + program.len() <= a < 4096 ==> s.loaded(program).memory[a]
                == s.memory[a],
{
    assert(s.loaded(program).memory.subrange(0x200, 0x200 + program.len() as int) =~= program);
}

/// A cycle that succeeds keeps the machine well formed.
pub proof fn law_step_keeps_well_formed(s: MachineState, random: u8)
    requires
        s.wf(),
        s.step(random) is Ok,
    ensures
        s.step(random)->Ok_0.wf(),
{
}

/// No instruction writes the keypad or chooses the register that the
/// shifts read.
pub proof fn law_step_keeps_keypad(s: MachineState, random: u8)
    requires
        s.step(random) is Ok,
    ensures
        s.step(random)->Ok_0.keypad == s.keypad,
        s.step(random)->Ok_0.shift_source == s.shift_source,
{
}

/// Only `00E0` and `Dxyn` change the display.
pub proof fn law_step_keeps_display(s: MachineState, ins: Instruction, random: u8)
    requires
        s.next_instruction() == Ok::<Instruction, Chip8Error>(ins),
        !(ins is Cls),
        !(ins is Drw),
        s.step(random) is Ok,
    ensures
        s.step(random)->Ok_0.display == s.display,
{
}

/// The addresses that an instruction may write to: the three bytes at the
/// index register for `Fx33`, the `x + 1` bytes there for `Fx55`, and none
/// for any other instruction.
pub open spec fn writes_to(s: MachineState, ins: Instruction, address: int) -> bool {
    match ins {
        Instruction::LdB { .. } => s.index <= address < s.index + 3,
        Instruction::StoreRegs { x } => s.index <= address <= s.index + x,
        _ => false,
    }
}

/// A cycle changes no byte of memory but those that its instruction
/// writes to. So the font table stays as long as no `Fx33` or `Fx55`
/// points into it.
pub proof fn law_step_keeps_memory(s: MachineState, ins: Instruction, random: u8, address: int)
    requires
        s.wf(),
        s.next_instruction() == Ok::<Instruction, Chip8Error>(ins),
        s.step(random) is Ok,
        0 <= address < 4096,
        !writes_to(s, ins, address),
    ensures
        s.step(random)->Ok_0.memory[address] == s.memory[address],
{
}

/// Only `2nnn` and `00EE` change the stack.
pub proof fn law_step_keeps_stack(s: MachineState, ins: Instruction, random: u8)
    requires
        s.next_instruction() == Ok::<Instruction, Chip8Error>(ins),
        !(ins is Call),
        !(ins is Ret),
        s.step(random) is Ok,
    ensures
        s.step(random)->Ok_0.stack == s.stack,
{
}

/// The bytes of an instruction's word at the program counter make it the
/// next instruction.
pub proof fn law_next_instruction(s: MachineState, ins: Instruction)
    requires
        s.wf(),
        ins.wf(),
        !(ins is Ignored),
        s.pc + 1 < 4096,
        s.memory[s.pc as int] == ins.encode() / 256,
        s.memory[s.pc + 1] == ins.encode() % 256,
    ensures
        s.next_instruction() == Ok::<Instruction, Chip8Error>(ins),
{
    lemma_decode_encode(ins);
}

/// The next instruction, where there is one, is well formed.
pub proof fn lemma_next_instruction_well_formed(s: MachineState)
    ensures
        s.next_instruction() matches Ok(ins) ==> ins.wf(),
{
    if s.fetch() is Ok {
        lemma_decoded_well_formed(s.fetch()->Ok_0);
    }
}

/// Only `Cxnn` looks at the random byte.
pub proof fn law_random_only_for_rnd(s: MachineState, a: u8, b: u8)
    requires
        !s.draws_random(),
    ensures
        s.step(a) == s.step(b),
{
}

/// `6xNN` sets `Vx` to `NN`, moves the program counter by 2 and changes no
/// other register.
pub proof fn law_load_byte(s: MachineState, x: u8, byte: u8, random: u8)
    requires
        s.wf(),
        s.next_instruction() == Ok::<Instruction, Chip8Error>(Instruction::LdByte { x, byte }),
    ensures
        s.step(random) matches Ok(t) && t.v(x) == byte && t.pc == s.pc + 2 && t.registers
            == s.registers.update(x as int, byte),
{
}

/// `8xy4` sets `VF` to 1 if the sum of `Vx` and `Vy` exceeds 255 and to 0
/// if not, whatever `x` and `y` are.
pub proof fn law_add_sets_carry(s: MachineState, x: u8, y: u8, random: u8)
    requires
        s.wf(),
        s.next_instruction() == Ok::<Instruction, Chip8Error>(Instruction::AddReg { x, y }),
    ensures
        s.step(random) matches Ok(t) && t.pc == s.pc + 2 && t.v(0xF) == (if s.v(x) + s.v(y) > 255 {
            1u8
        } else {
            0u8
        }),
{
}

/// `8xy4` leaves the sum modulo 256 in `Vx`, unless `x` is the flag
/// register, which then holds the carry.
pub proof fn law_add_wraps(s: MachineState, x: u8, y: u8, random: u8)
    requires
        s.wf(),
        x != 0xF,
        s.next_instruction() == Ok::<Instruction, Chip8Error>(Instruction::AddReg { x, y }),
    ensures
        s.step(random) matches Ok(t) && t.v(x) == (s.v(x) + s.v(y)) % 256,
{
}

/// `8xy5` sets `VF` to 1 if `Vx` is strictly greater than `Vy` and to 0 if
/// not, unless `x` is the flag register, which then holds the difference.
pub proof fn law_sub_sets_no_borrow(s: MachineState, x: u8, y: u8, random: u8)
    requires
        s.wf(),
        x != 0xF,
        s.next_instruction() == Ok::<Instruction, Chip8Error>(Instruction::Sub { x, y }),
    ensures
        s.step(random) matches Ok(t) && t.pc == s.pc + 2 && t.v(0xF) == (if s.v(x) > s.v(y) {
            1u8
        } else {
            0u8
        }),
{
}

/// `8xy5` leaves the difference modulo 256 in `Vx`, whatever `x` and `y`
/// are.
pub proof fn law_sub_wraps(s: MachineState, x: u8, y: u8, random: u8)
    requires
        s.wf(),
        s.next_instruction() == Ok::<Instruction, Chip8Error>(Instruction::Sub { x, y }),
    ensures
        s.step(random) matches Ok(t) && t.v(x) == (s.v(x) - s.v(y)) % 256,
{
}

/// `3xNN` moves the program counter by 4 if `Vx == NN` and by 2 if not.
pub proof fn law_skip_if_byte_equal(s: MachineState, x: u8, byte: u8, random: u8)
    requires
        s.wf(),
        s.next_instruction() == Ok::<Instruction, Chip8Error>(Instruction::SeByte { x, byte }),
    ensures
        s.step(random) matches Ok(t) && t.pc == (if s.v(x) == byte {
            s.pc + 4
        } else {
            s.pc + 2
        }),
{
}

/// `4xNN` moves the program counter by 4 if `Vx != NN` and by 2 if not.
pub proof fn law_skip_if_byte_differs(s: MachineState, x: u8, byte: u8, random: u8)
    requires
        s.wf(),
        s.next_instruction() == Ok::<Instruction, Chip8Error>(Instruction::SneByte { x, byte }),
    ensures
        s.step(random) matches Ok(t) && t.pc == (if s.v(x) != byte {
            s.pc + 4
        } else {
            s.pc + 2
        }),
{
}

/// `5xy0` moves the program counter by 4 if `Vx == Vy` and by 2 if not.
pub proof fn law_skip_if_registers_equal(s: MachineState, x: u8, y: u8, random: u8)
    requires
        s.wf(),
        s.next_instruction() == Ok::<Instruction, Chip8Error>(Instruction::SeReg { x, y }),
    ensures
        s.step(random) matches Ok(t) && t.pc == (if s.v(x) == s.v(y) {
            s.pc + 4
        } else {
            s.pc + 2
        }),
{
}

/// `9xy0` moves the program counter by 4 if `Vx != Vy` and by 2 if not.
pub proof fn law_skip_if_registers_differ(s: MachineState, x: u8, y: u8, random: u8)
    requires
        s.wf(),
        s.next_instruction() == Ok::<Instruction, Chip8Error>(Instruction::SneReg { x, y }),
    ensures
        s.step(random) matches Ok(t) && t.pc == (if s.v(x) != s.v(y) {
            s.pc + 4
        } else {
            s.pc + 2
        }),
{
}

/// A call followed by a return at the called address comes back to the
/// instruction behind the call with the stack as it was.
pub proof fn law_call_then_return(
    s: MachineState,
    t: MachineState,
    addr: u16,
    random: u8,
    later: u8,
)
    requires
        s.wf(),
        s.next_instruction() == Ok::<Instruction, Chip8Error>(Instruction::Call { addr }),
        s.step(random) == Ok::<MachineState, Chip8Error>(t),
        t.next_instruction() == Ok::<Instruction, Chip8Error>(Instruction::Ret),
    ensures
        t.pc == addr,
        t.stack.len() == s.stack.len() + 1,
        t.step(later) matches Ok(u) && u.pc == s.pc + 2 && u.stack == s.stack,
{
    let u = t.step(later)->Ok_0;
    assert(u.stack =~= s.stack);
}

/// Two `Dxyn` in a row with the same operands, neither of them the flag
/// register, leave the display as it was, and the second one sets `VF`
/// exactly if the first one lit a cell.
pub proof fn law_draw_twice_erases(
    s: MachineState,
    t: MachineState,
    x: u8,
    y: u8,
    rows: u8,
    random: u8,
    later: u8,
)
    requires
        s.wf(),
        x != 0xF,
        y != 0xF,
        s.next_instruction() == Ok::<Instruction, Chip8Error>(Instruction::Drw { x, y, rows }),
        s.step(random) == Ok::<MachineState, Chip8Error>(t),
        t.next_instruction() == Ok::<Instruction, Chip8Error>(Instruction::Drw { x, y, rows }),
    ensures
        t.step(later) matches Ok(u) && u.display == s.display && u.v(0xF) == (if lights(
            s.display,
            s.sprite(x, y, rows),
        ) {
            1u8
        } else {
            0u8
        }),
{
    let moved = s.with_pc(s.pc + 2);
    assert(t.with_pc(t.pc + 2).sprite(x, y, rows) == moved.sprite(x, y, rows));
    lemma_draw_twice(s.display, moved.sprite(x, y, rows));
}

/// A key that is held down while no lower one is, is the lowest pressed
/// key.
pub proof fn lemma_lowest_pressed(keypad: Seq<bool>, key: u8)
    requires
        is_lowest_pressed(keypad, key),
    ensures
        lowest_pressed(keypad) == Some(key),
{
    let chosen = choose|k: u8| is_lowest_pressed(keypad, k);
    assert(chosen == key);
}

/// `Fx0A` with no key held down changes nothing but the timers: the
/// program counter stays on the instruction.
pub proof fn law_wait_for_key_blocks(s: MachineState, x: u8, random: u8)
    requires
        s.wf(),
        s.next_instruction() == Ok::<Instruction, Chip8Error>(Instruction::LdVxK { x }),
        forall|k: int| 0 <= k < 16 ==> !s.keypad[k],
    ensures
        s.step(random) == Ok::<MachineState, Chip8Error>(s.tick()),
        s.tick().pc == s.pc,
        s.tick().next_instruction() == s.next_instruction(),
{
    assert(lowest_pressed(s.keypad) is None);
}

/// `Fx0A` with a key held down stores the lowest such key in `Vx` and
/// moves the program counter by 2.
pub proof fn law_wait_for_key_takes_lowest(s: MachineState, x: u8, key: u8, random: u8)
    requires
        s.wf(),
        s.next_instruction() == Ok::<Instruction, Chip8Error>(Instruction::LdVxK { x }),
        is_lowest_pressed(s.keypad, key),
    ensures
        s.step(random) matches Ok(t) && t.pc == s.pc + 2 && t.v(x) == key,
{
    lemma_lowest_pressed(s.keypad, key);
}

/// However many cycles run on `Fx0A` with no key held down, only the
/// timers move: the program counter stays on the instruction.
pub proof fn law_wait_for_key_repeats(s: MachineState, x: u8, randoms: Seq<u8>)
    requires
        s.wf(),
        s.next_instruction() == Ok::<Instruction, Chip8Error>(Instruction::LdVxK { x }),
        forall|k: int| 0 <= k < 16 ==> !s.keypad[k],
    ensures
        s.run(randoms) == Ok::<MachineState, Chip8Error>(s.ticks(randoms.len())),
        s.ticks(randoms.len()).pc == s.pc,
        s.ticks(randoms.len()).next_instruction() == s.next_instruction(),
    decreases randoms.len(),
{
    if randoms.len() > 0 {
        law_wait_for_key_blocks(s, x, randoms[0]);
        law_wait_for_key_repeats(s.tick(), x, randoms.drop_first());
    }
}

} // verus!
