use vstd::prelude::*;
use crate::display::{blank, collides, draw, Sprite};
use crate::error::Chip8Error;
use crate::font::font_table;
use crate::instruction::{decode_spec, Instruction};

verus! {

/// Number of bytes of memory.
pub const MEMORY_SIZE: usize = 4096;

/// Address at which programs are loaded and at which execution starts.
pub const START_ADDRESS: usize = 0x200;

/// Number of slots of the call stack.
pub const STACK_SIZE: usize = 16;

/// Which register the shift instructions `8xy6` and `8xyE` read.
#[derive(Clone, Copy, Debug, PartialEq, Eq, Structural)]
pub enum ShiftSource {
    /// The shifts read `Vx` and ignore `Vy`.
    Vx,
    /// The shifts read `Vy`, as the first interpreters did.
    Vy,
}

/// The machine as a mathematical value.
pub struct MachineState {
    /// The sixteen registers `V0` to `VF`.
    pub registers: Seq<u8>,
    /// The 4096 bytes of memory.
    pub memory: Seq<u8>,
    /// The index register `I`.
    pub index: u16,
    /// The program counter.
    pub pc: u16,
    /// The return addresses of the calls in progress, the latest one last.
    pub stack: Seq<u16>,
    /// The delay timer.
    pub delay_timer: u8,
    /// The sound timer.
    pub sound_timer: u8,
    /// For each of the sixteen keys, whether it is held down.
    pub keypad: Seq<bool>,
    /// For each of the 2048 cells, row by row, whether it is lit.
    pub display: Seq<bool>,
    /// The register that the shift instructions read.
    pub shift_source: ShiftSource,
}

/// Whether `key` is held down and no key with a lower number is.
pub open spec fn is_lowest_pressed(keypad: Seq<bool>, key: u8) -> bool {
    &&& key < keypad.len()
    &&& keypad[key as int]
    &&& forall|other: int| 0 <= other < key ==> !#[trigger] keypad[other]
}

/// The lowest-numbered key that is held down, if any is.
pub open spec fn lowest_pressed(keypad: Seq<bool>) -> Option<u8> {
    if exists|key: u8| is_lowest_pressed(keypad, key) {
        Some(choose|key: u8| is_lowest_pressed(keypad, key))
    } else {
        None
    }
}

/// The sum of two bytes, wrapped to a byte.
pub open spec fn wrapped_sum(a: u8, b: u8) -> u8 {
    ((a + b) % 256) as u8
}

/// The difference of two bytes, wrapped to a byte.
pub open spec fn wrapped_difference(a: u8, b: u8) -> u8 {
    ((a - b) % 256) as u8
}

/// 1 if the sum of two bytes does not fit in a byte, else 0.
pub open spec fn carry_of(a: u8, b: u8) -> u8 {
    if a + b > 255 {
        1
    } else {
        0
    }
}

/// 1 if `a` is greater than `b`, so that `a - b` borrows nothing and is
/// not zero, else 0.
pub open spec fn no_borrow_of(a: u8, b: u8) -> u8 {
    if a > b {
        1
    } else {
        0
    }
}

/// A timer one tick later: it counts down to zero and stays there.
pub open spec fn ticked(timer: u8) -> u8 {
    if timer > 0 {
        (timer - 1) as u8
    } else {
        0
    }
}

impl MachineState {
    /// Every component has its size and the stack holds at most sixteen
    /// return addresses.
    pub open spec fn wf(self) -> bool {
        &&& self.registers.len() == 16
        &&& self.memory.len() == 4096
        &&& self.stack.len() <= 16
        &&& self.keypad.len() == 16
        &&& self.display.len() == 2048
    }

    /// The machine after construction: everything zero, the font table in
    /// place and the program counter at the start address.
    pub open spec fn initial() -> MachineState {
        MachineState {
            registers: Seq::new(16, |i: int| 0u8),
            memory: Seq::new(
                4096,
                |a: int|
                    if 0x050 <= a < 0x0A0 {
                        font_table()[a - 0x050]
                    } else {
                        0u8
                    },
            ),
            index: 0,
            pc: 0x200,
            stack: Seq::empty(),
            delay_timer: 0,
            sound_timer: 0,
            keypad: Seq::new(16, |k: int| false),
            display: blank(),
            shift_source: ShiftSource::Vx,
        }
    }

    /// The machine with the font table copied to its place.
    pub open spec fn with_font(self) -> MachineState {
        MachineState {
            memory: Seq::new(
                4096,
                |a: int|
                    if 0x050 <= a < 0x0A0 {
                        font_table()[a - 0x050]
                    } else {
                        self.memory[a]
                    },
            ),
            ..self
        }
    }

    /// Whether a program image of `len` bytes fits into memory.
    pub open spec fn fits(len: int) -> bool {
        len <= 4096 - 0x200
    }

    /// The machine with `program` copied to the start address.
    pub open spec fn loaded(self, program: Seq<u8>) -> MachineState {
        MachineState {
            memory: Seq::new(
                4096,
                |a: int|
                    if 0x200 <= a < 0x200 + program.len() {
                        program[a - 0x200]
                    } else {
                        self.memory[a]
                    },
            ),
            ..self
        }
    }

    /// The register `Vx`.
    pub open spec fn v(self, x: u8) -> u8 {
        self.registers[x as int]
    }

    /// The machine with `Vx` set to `value`.
    pub open spec fn with_v(self, x: u8, value: u8) -> MachineState {
        MachineState { registers: self.registers.update(x as int, value), ..self }
    }

    /// The machine with the program counter set to `pc`.
    pub open spec fn with_pc(self, pc: int) -> MachineState {
        MachineState { pc: pc as u16, ..self }
    }

    /// The machine with the program counter past the next instruction if
    /// `condition` holds, and unchanged if not.
    pub open spec fn skip_if(self, condition: bool) -> MachineState {
        if condition {
            self.with_pc(self.pc + 2)
        } else {
            self
        }
    }

    /// The word that the program counter points at, high byte first.
    /// There is none where the second byte lies beyond the memory.
    pub open spec fn fetch(self) -> Result<u16, Chip8Error> {
        if self.pc + 1 < 4096 {
            Ok((self.memory[self.pc as int] * 256 + self.memory[self.pc + 1]) as u16)
        } else {
            Err(Chip8Error::OutOfBoundsAccess)
        }
    }

    /// The value that a shift instruction shifts.
    pub open spec fn shift_operand(self, x: u8, y: u8) -> u8 {
        match self.shift_source {
            ShiftSource::Vx => self.v(x),
            ShiftSource::Vy => self.v(y),
        }
    }

    /// The effect of an instruction that only reads and writes registers.
    /// `random` is the byte that `Cxnn` draws.
    ///
    /// `8xy4` writes `Vx` and then the carry, so with `x = F` the carry
    /// stays. The subtractions and the shifts write the flag and then `Vx`,
    /// so with `x = F` the result stays. The operands are read before
    /// anything is written.
    pub open spec fn arithmetic(self, ins: Instruction, random: u8) -> MachineState {
        match ins {
            Instruction::LdByte { x, byte } => self.with_v(x, byte),
            Instruction::AddByte { x, byte } => self.with_v(x, wrapped_sum(self.v(x), byte)),
            Instruction::LdReg { x, y } => self.with_v(x, self.v(y)),
            Instruction::Or { x, y } => self.with_v(x, self.v(x) | self.v(y)),
            Instruction::And { x, y } => self.with_v(x, self.v(x) & self.v(y)),
            Instruction::Xor { x, y } => self.with_v(x, self.v(x) ^ self.v(y)),
            Instruction::AddReg { x, y } => self.with_v(x, wrapped_sum(self.v(x), self.v(y))).with_v(
                0xF,
                carry_of(self.v(x), self.v(y)),
            ),
            Instruction::Sub { x, y } => self.with_v(0xF, no_borrow_of(self.v(x), self.v(y))).with_v(
                x,
                wrapped_difference(self.v(x), self.v(y)),
            ),
            Instruction::Subn { x, y } => self.with_v(
                0xF,
                no_borrow_of(self.v(y), self.v(x)),
            ).with_v(x, wrapped_difference(self.v(y), self.v(x))),
            Instruction::Shr { x, y } => {
                let operand = self.shift_operand(x, y);
                self.with_v(0xF, operand % 2).with_v(x, operand / 2)
            },
            Instruction::Shl { x, y } => {
                let operand = self.shift_operand(x, y);
                self.with_v(0xF, operand / 128).with_v(x, wrapped_sum(operand, operand))
            },
            Instruction::LdVxDt { x } => self.with_v(x, self.delay_timer),
            Instruction::Rnd { x, byte } => self.with_v(x, random & byte),
            _ => self,
        }
    }

    /// The effect of an instruction that moves the program counter or the
    /// stack, on a machine whose program counter is already past it.
    ///
    /// A return with nothing on the stack, a call with sixteen calls in
    /// progress and a key test with `Vx` above fifteen fail. `Fx0A` with no
    /// key held down moves the program counter back onto itself.
    pub open spec fn control(self, ins: Instruction) -> Result<MachineState, Chip8Error> {
        match ins {
            Instruction::Ret => if self.stack.len() == 0 {
                Err(Chip8Error::StackUnderflow)
            } else {
                Ok(MachineState { pc: self.stack.last(), stack: self.stack.drop_last(), ..self })
            },
            Instruction::Jp { addr } => Ok(self.with_pc(addr as int)),
            Instruction::Call { addr } => if self.stack.len() >= 16 {
                Err(Chip8Error::StackOverflow)
            } else {
                Ok(MachineState { pc: addr, stack: self.stack.push(self.pc), ..self })
            },
            Instruction::SeByte { x, byte } => Ok(self.skip_if(self.v(x) == byte)),
            Instruction::SneByte { x, byte } => Ok(self.skip_if(self.v(x) != byte)),
            Instruction::SeReg { x, y } => Ok(self.skip_if(self.v(x) == self.v(y))),
            Instruction::SneReg { x, y } => Ok(self.skip_if(self.v(x) != self.v(y))),
            Instruction::JpV0 { addr } => Ok(self.with_pc(self.v(0) + addr)),
            Instruction::Skp { x } => if self.v(x) >= 16 {
                Err(Chip8Error::OutOfBoundsAccess)
            } else {
                Ok(self.skip_if(self.keypad[self.v(x) as int]))
            },
            Instruction::Sknp { x } => if self.v(x) >= 16 {
                Err(Chip8Error::OutOfBoundsAccess)
            } else {
                Ok(self.skip_if(!self.keypad[self.v(x) as int]))
            },
            Instruction::LdVxK { x } => match lowest_pressed(self.keypad) {
                Some(key) => Ok(self.with_v(x, key)),
                None => Ok(self.with_pc(self.pc - 2)),
            },
            _ => Ok(self),
        }
    }

    /// The sprite that `Dxyn` draws: the `rows` bytes at the index register,
    /// with the top left corner at `(Vx mod 64, Vy mod 32)`.
    pub open spec fn sprite(self, x: u8, y: u8, rows: u8) -> Sprite {
        Sprite {
            rows: Seq::new(rows as nat, |row: int| self.memory[self.index + row]),
            x: (self.v(x) % 64) as int,
            y: (self.v(y) % 32) as int,
        }
    }

    /// The machine after `Dxyn`: the sprite is drawn and `VF` says whether
    /// a lit cell went dark.
    pub open spec fn drawn(self, x: u8, y: u8, rows: u8) -> MachineState {
        let sprite = self.sprite(x, y, rows);
        let flag: u8 = if collides(self.display, sprite) {
            1
        } else {
            0
        };
        MachineState { display: draw(self.display, sprite), ..self }.with_v(0xF, flag)
    }

    /// The memory after `Fx33`: the hundreds, tens and ones of `value` at
    /// the index register and the two bytes behind it.
    pub open spec fn decimal_stored(self, value: u8) -> Seq<u8> {
        self.memory.update(self.index as int, value / 100).update(
            self.index + 1,
            (value / 10) % 10,
        ).update(self.index + 2, value % 10)
    }

    /// The memory after `Fx55`: `V0..=Vx` at the index register and behind.
    pub open spec fn registers_stored(self, x: u8) -> Seq<u8> {
        Seq::new(
            4096,
            |a: int|
                if self.index <= a <= self.index + x {
                    self.registers[a - self.index]
                } else {
                    self.memory[a]
                },
        )
    }

    /// The registers after `Fx65`: `V0..=Vx` from the index register and
    /// behind.
    pub open spec fn registers_loaded(self, x: u8) -> Seq<u8> {
        Seq::new(
            16,
            |r: int|
                if r <= x {
                    self.memory[self.index + r]
                } else {
                    self.registers[r]
                },
        )
    }

    /// The effect of an instruction that touches the display, the timers,
    /// the index register or the memory, and of the word that is ignored.
    ///
    /// An instruction that would read or write beyond the memory fails.
    /// `Fx1E` wraps the index register at sixteen bits.
    pub open spec fn device(self, ins: Instruction) -> Result<MachineState, Chip8Error> {
        match ins {
            Instruction::Cls => Ok(MachineState { display: blank(), ..self }),
            Instruction::LdI { addr } => Ok(MachineState { index: addr, ..self }),
            Instruction::Drw { x, y, rows } => if rows > 0 && self.index + rows > 4096 {
                Err(Chip8Error::OutOfBoundsAccess)
            } else {
                Ok(self.drawn(x, y, rows))
            },
            Instruction::LdDtVx { x } => Ok(MachineState { delay_timer: self.v(x), ..self }),
            Instruction::LdStVx { x } => Ok(MachineState { sound_timer: self.v(x), ..self }),
            Instruction::AddI { x } => Ok(
                MachineState { index: ((self.index + self.v(x)) % 0x10000) as u16, ..self },
            ),
            Instruction::LdF { x } => Ok(
                MachineState { index: (self.v(x) * 5 + 0x050) as u16, ..self },
            ),
            Instruction::LdB { x } => if self.index + 2 >= 4096 {
                Err(Chip8Error::OutOfBoundsAccess)
            } else {
                Ok(MachineState { memory: self.decimal_stored(self.v(x)), ..self })
            },
            Instruction::StoreRegs { x } => if self.index + x >= 4096 {
                Err(Chip8Error::OutOfBoundsAccess)
            } else {
                Ok(MachineState { memory: self.registers_stored(x), ..self })
            },
            Instruction::LoadRegs { x } => if self.index + x >= 4096 {
                Err(Chip8Error::OutOfBoundsAccess)
            } else {
                Ok(MachineState { registers: self.registers_loaded(x), ..self })
            },
            _ => Ok(self),
        }
    }

    /// The effect of one instruction on a machine whose program counter is
    /// already past it. `random` is the byte that `Cxnn` draws.
    pub open spec fn execute(self, ins: Instruction, random: u8) -> Result<
        MachineState,
        Chip8Error,
    > {
        if ins.is_arithmetic() {
            Ok(self.arithmetic(ins, random))
        } else if ins.is_control() {
            self.control(ins)
        } else {
            self.device(ins)
        }
    }

    /// The machine one tick later: both timers have counted down.
    pub open spec fn tick(self) -> MachineState {
        MachineState {
            delay_timer: ticked(self.delay_timer),
            sound_timer: ticked(self.sound_timer),
            ..self
        }
    }

    /// The instruction that the next cycle executes, if the fetch and the
    /// decoding succeed.
    pub open spec fn next_instruction(self) -> Result<Instruction, Chip8Error> {
        match self.fetch() {
            Err(e) => Err(e),
            Ok(word) => decode_spec(word),
        }
    }

    /// Whether the next cycle draws a random byte.
    pub open spec fn draws_random(self) -> bool {
        self.next_instruction() matches Ok(ins) && ins is Rnd
    }

    /// One whole cycle: fetch the word at the program counter, move the
    /// program counter past it, decode and execute the word, then let the
    /// timers tick. A cycle that fails has no next state.
    pub open spec fn step(self, random: u8) -> Result<MachineState, Chip8Error> {
        match self.next_instruction() {
            Err(e) => Err(e),
            Ok(ins) => match self.with_pc(self.pc + 2).execute(ins, random) {
                Err(e) => Err(e),
                Ok(next) => Ok(next.tick()),
            },
        }
    }

    /// Whether a cycle that starts in `self` and draws `random` may end in
    /// `after` with `result`: with the next state where there is one, and
    /// with the error and the machine untouched where there is none.
    pub open spec fn cycles_to(
        self,
        random: u8,
        after: MachineState,
        result: Result<(), Chip8Error>,
    ) -> bool {
        match self.step(random) {
            Ok(next) => result is Ok && after == next,
            Err(e) => result == Err::<(), Chip8Error>(e) && after == self,
        }
    }

    /// The machine after one cycle for each byte of `randoms`, in order.
    /// The first cycle that fails ends the run with its error.
    pub open spec fn run(self, randoms: Seq<u8>) -> Result<MachineState, Chip8Error>
        decreases randoms.len(),
    {
        if randoms.len() == 0 {
            Ok(self)
        } else {
            match self.step(randoms[0]) {
                Err(e) => Err(e),
                Ok(next) => next.run(randoms.drop_first()),
            }
        }
    }

    /// The machine `n` ticks later.
    pub open spec fn ticks(self, n: nat) -> MachineState
        decreases n,
    {
        if n == 0 {
            self
        } else {
            self.tick().ticks((n - 1) as nat)
        }
    }

    /// The machine with key `key` held down or released. A number above
    /// fifteen names no key and changes nothing.
    pub open spec fn with_key(self, key: u8, pressed: bool) -> MachineState {
        if key < 16 {
            MachineState { keypad: self.keypad.update(key as int, pressed), ..self }
        } else {
            self
        }
    }
}

} // verus!
