use vstd::prelude::*;
use crate::error::Chip8Error;
use crate::font::{font_table, FONT, FONT_SIZE, FONT_START};
use crate::model::{MachineState, ShiftSource, MEMORY_SIZE, START_ADDRESS};

mod arithmetic;
mod cycle;
mod draw;
mod registers;
mod storage;

verus! {

/// The virtual machine.
#[derive(Debug)]
pub struct Chip8 {
    registers: [u8; 16],
    memory: [u8; 4096],
    index: u16,
    pc: u16,
    stack: [u16; 16],
    sp: usize,
    delay_timer: u8,
    sound_timer: u8,
    keypad: [bool; 16],
    video: [bool; 2048],
    shift_source: ShiftSource,
}

impl View for Chip8 {
    type V = MachineState;

    closed spec fn view(&self) -> MachineState {
        MachineState {
            registers: self.registers@,
            memory: self.memory@,
            index: self.index,
            pc: self.pc,
            stack: self.stack@.take(self.sp as int),
            delay_timer: self.delay_timer,
            sound_timer: self.sound_timer,
            keypad: self.keypad@,
            display: self.video@,
            shift_source: self.shift_source,
        }
    }
}

impl Chip8 {
    /// Whether the two machines agree on everything that is no array of
    /// cells, bytes or registers.
    spec fn same_controls(self, other: Chip8) -> bool {
        &&& self.index == other.index
        &&& self.pc == other.pc
        &&& self.stack == other.stack
        &&& self.sp == other.sp
        &&& self.delay_timer == other.delay_timer
        &&& self.sound_timer == other.sound_timer
        &&& self.keypad == other.keypad
        &&& self.shift_source == other.shift_source
    }

    /// Whether the two machines differ in nothing but their displays.
    spec fn same_but_display(self, other: Chip8) -> bool {
        &&& self.same_controls(other)
        &&& self.registers == other.registers
        &&& self.memory == other.memory
    }

    /// Whether the two machines differ in nothing but their memories.
    spec fn same_but_memory(self, other: Chip8) -> bool {
        &&& self.same_controls(other)
        &&& self.registers == other.registers
        &&& self.video == other.video
    }

    /// Whether the two machines differ in nothing but their registers.
    spec fn same_but_registers(self, other: Chip8) -> bool {
        &&& self.same_controls(other)
        &&& self.memory == other.memory
        &&& self.video == other.video
    }

    #[verifier::type_invariant]
    spec fn inv(self) -> bool {
        self.sp <= 16
    }

    /// A machine with the font in place and everything else at zero.
    pub fn new() -> (chip8: Chip8)
        ensures
            chip8@ == MachineState::initial(),
            chip8@.wf(),
            chip8@.memory.subrange(0x050, 0x0A0) == font_table(),
    {
        let mut chip8 = Chip8 {
            registers: [0u8; 16],
            memory: [0u8; 4096],
            index: 0,
            pc: 0x200,
            stack: [0u16; 16],
            sp: 0,
            delay_timer: 0,
            sound_timer: 0,
            keypad: [false; 16],
            video: [false; 2048],
            shift_source: ShiftSource::Vx,
        };
        chip8.load_font();
        assert(chip8@.registers =~= MachineState::initial().registers);
        assert(chip8@.memory =~= MachineState::initial().memory);
        assert(chip8@.stack =~= MachineState::initial().stack);
        assert(chip8@.keypad =~= MachineState::initial().keypad);
        assert(chip8@.display =~= MachineState::initial().display);
        chip8
    }

    /// Copies the font table to its place in memory.
    pub fn load_font(&mut self)
        ensures
            final(self)@ == old(self)@.with_font(),
            final(self)@.wf(),
    {
        proof {
            use_type_invariant(&*self);
        }
        let mut i: usize = 0;
        while i < FONT_SIZE
            invariant
                i <= FONT_SIZE,
                self.inv(),
                forall|a: int| 0 <= a < 4096 ==> self.memory@[a] == (if 0x050 <= a < 0x050 + i {
                    FONT@[a - 0x050]
                } else {
                    old(self).memory@[a]
                }),
                self.same_but_memory(*old(self)),
            decreases FONT_SIZE - i,
        {
            self.memory[FONT_START + i] = FONT[i];
            i += 1;
        }
        assert(self@.memory =~= old(self)@.with_font().memory);
    }

    /// Copies a program image to the start address. An image that is too
    /// large for the memory behind the start address is refused and nothing
    /// is copied.
    pub fn load_rom(&mut self, program: &[u8]) -> (r: Result<(), Chip8Error>)
        ensures
            MachineState::fits(program@.len() as int) ==> r is Ok && final(self)@ == old(
                self,
            )@.loaded(program@),
            !MachineState::fits(program@.len() as int) ==> r == Err::<(), Chip8Error>(
                Chip8Error::ProgramTooLarge,
            ) && final(self)@ == old(self)@,
            final(self)@.wf(),
    {
        proof {
            use_type_invariant(&*self);
        }
        let len: usize = program.len();
        if len > MEMORY_SIZE - START_ADDRESS {
            return Err(Chip8Error::ProgramTooLarge);
        }
        let mut i: usize = 0;
        while i < len
            invariant
                i <= len,
                len == program@.len(),
                len <= 4096 - 0x200,
                self.inv(),
                forall|a: int|
                    0 <= a < 4096 ==> self.memory@[a] == (if 0x200 <= a < 0x200 + i {
                        program@[a - 0x200]
                    } else {
                        old(self).memory@[a]
                    }),
                self.same_but_memory(*old(self)),
            decreases len - i,
        {
            self.memory[START_ADDRESS + i] = program[i];
            i += 1;
        }
        assert(self@.memory =~= old(self)@.loaded(program@).memory);
        Ok(())
    }

    /// Records that key `key` went down or came up. A number above fifteen
    /// names no key and is ignored.
    pub fn set_key(&mut self, key: u8, pressed: bool)
        ensures
            final(self)@ == old(self)@.with_key(key, pressed),
            final(self)@.wf(),
    {
        proof {
            use_type_invariant(&*self);
        }
        if key < 16 {
            self.keypad[key as usize] = pressed;
        }
    }

    /// Chooses the register that the shift instructions read.
    pub fn set_shift_source(&mut self, source: ShiftSource)
        ensures
            final(self)@ == (MachineState { shift_source: source, ..old(self)@ }),
            final(self)@.wf(),
    {
        proof {
            use_type_invariant(&*self);
        }
        self.shift_source = source;
    }

    /// The sixteen registers.
    pub fn registers(&self) -> (registers: &[u8; 16])
        ensures
            registers@ == self@.registers,
    {
        &self.registers
    }

    /// The memory.
    pub fn memory(&self) -> (memory: &[u8; 4096])
        ensures
            memory@ == self@.memory,
    {
        &self.memory
    }

    /// The display, row by row: `true` for a lit cell.
    pub fn display(&self) -> (display: &[bool; 2048])
        ensures
            display@ == self@.display,
    {
        &self.video
    }

    /// The keypad: `true` for a key that is held down.
    pub fn keypad(&self) -> (keypad: &[bool; 16])
        ensures
            keypad@ == self@.keypad,
    {
        &self.keypad
    }

    /// The index register.
    pub fn index(&self) -> (index: u16)
        ensures
            index == self@.index,
    {
        self.index
    }

    /// The program counter.
    pub fn pc(&self) -> (pc: u16)
        ensures
            pc == self@.pc,
    {
        self.pc
    }

    /// The number of calls in progress.
    pub fn sp(&self) -> (sp: usize)
        ensures
            sp == self@.stack.len(),
            sp <= 16,
    {
        proof {
            use_type_invariant(self);
        }
        self.sp
    }

    /// The return addresses of the calls in progress, the latest one last.
    pub fn stack(&self) -> (stack: Vec<u16>)
        ensures
            stack@ == self@.stack,
    {
        proof {
            use_type_invariant(self);
        }
        let mut stack: Vec<u16> = Vec::new();
        let mut i: usize = 0;
        while i < self.sp
            invariant
                i <= self.sp <= 16,
                stack@ == self.stack@.take(i as int),
            decreases self.sp - i,
        {
            stack.push(self.stack[i]);
            i += 1;
        }
        stack
    }

    /// The delay timer.
    pub fn delay_timer(&self) -> (timer: u8)
        ensures
            timer == self@.delay_timer,
    {
        self.delay_timer
    }

    /// The sound timer.
    pub fn sound_timer(&self) -> (timer: u8)
        ensures
            timer == self@.sound_timer,
    {
        self.sound_timer
    }

    /// The register that the shift instructions read.
    pub fn shift_source(&self) -> (source: ShiftSource)
        ensures
            source == self@.shift_source,
    {
        self.shift_source
    }
}

} // verus!
