use vstd::prelude::*;
use crate::display::blank;
use crate::error::Chip8Error;
use crate::instruction::{decode, Instruction};
use crate::machine::Chip8;
use crate::model::{MEMORY_SIZE, STACK_SIZE};
use crate::random::random_byte;

verus! {

impl Chip8 {
    /// Reads the word at the program counter, high byte first, and moves
    /// the program counter past it. Where the word does not lie within the
    /// memory nothing is read and nothing moves.
    pub fn fetch(&mut self) -> (r: Result<u16, Chip8Error>)
        ensures
            r == old(self)@.fetch(),
            r is Ok ==> final(self)@ == old(self)@.with_pc(old(self)@.pc + 2),
            r is Err ==> final(self)@ == old(self)@,
            final(self)@.wf(),
    {
        proof {
            use_type_invariant(&*self);
        }
        let pc: usize = self.pc as usize;
        if pc + 1 >= MEMORY_SIZE {
            return Err(Chip8Error::OutOfBoundsAccess);
        }
        let msb: u8 = self.memory[pc];
        let lsb: u8 = self.memory[pc + 1];
        self.pc = self.pc + 2;
        assert(((msb as u16) << 8) | (lsb as u16) == msb * 256 + lsb) by (bit_vector);
        Ok(((msb as u16) << 8) | (lsb as u16))
    }

    /// The instructions that move the program counter or the stack.
    fn execute_control(&mut self, ins: Instruction) -> (r: Result<(), Chip8Error>)
        requires
            ins.wf(),
            ins.is_control(),
            2 <= old(self).pc <= 4096,
        ensures
            match old(self)@.control(ins) {
                Ok(next) => r is Ok && final(self)@ == next,
                Err(e) => r == Err::<(), Chip8Error>(e) && final(self)@ == old(self)@,
            },
    {
        proof {
            use_type_invariant(&*self);
        }
        match ins {
            Instruction::Ret => {
                if self.sp == 0 {
                    return Err(Chip8Error::StackUnderflow);
                }
                self.sp = self.sp - 1;
                self.pc = self.stack[self.sp];
                assert(self@.stack =~= old(self)@.stack.drop_last());
            },
            Instruction::Jp { addr } => {
                self.pc = addr;
            },
            Instruction::Call { addr } => {
                if self.sp >= STACK_SIZE {
                    return Err(Chip8Error::StackOverflow);
                }
                self.stack[self.sp] = self.pc;
                self.sp = self.sp + 1;
                self.pc = addr;
                assert(self@.stack =~= old(self)@.stack.push(old(self)@.pc));
            },
            Instruction::SeByte { x, byte } => {
                let vx: u8 = self.v(x);
                self.skip_if(vx == byte);
            },
            Instruction::SneByte { x, byte } => {
                let vx: u8 = self.v(x);
                self.skip_if(vx != byte);
            },
            Instruction::SeReg { x, y } => {
                let vx: u8 = self.v(x);
                let vy: u8 = self.v(y);
                self.skip_if(vx == vy);
            },
            Instruction::SneReg { x, y } => {
                let vx: u8 = self.v(x);
                let vy: u8 = self.v(y);
                self.skip_if(vx != vy);
            },
            Instruction::JpV0 { addr } => {
                let v0: u8 = self.v(0);
                self.pc = v0 as u16 + addr;
            },
            Instruction::Skp { x } => {
                let key: u8 = self.v(x);
                if key >= 16 {
                    return Err(Chip8Error::OutOfBoundsAccess);
                }
                let pressed: bool = self.keypad[key as usize];
                self.skip_if(pressed);
            },
            Instruction::Sknp { x } => {
                let key: u8 = self.v(x);
                if key >= 16 {
                    return Err(Chip8Error::OutOfBoundsAccess);
                }
                let pressed: bool = self.keypad[key as usize];
                self.skip_if(!pressed);
            },
            Instruction::LdVxK { x } => {
                match self.lowest_pressed_key() {
                    Some(key) => {
                        self.set_v(x, key);
                    },
                    None => {
                        self.pc = self.pc - 2;
                    },
                }
            },
            _ => {},
        }
        Ok(())
    }

    /// The instructions that touch the display, the timers, the index
    /// register or the memory, and the word that is ignored.
    fn execute_device(&mut self, ins: Instruction) -> (r: Result<(), Chip8Error>)
        requires
            ins.wf(),
            !ins.is_arithmetic(),
            !ins.is_control(),
        ensures
            match old(self)@.device(ins) {
                Ok(next) => r is Ok && final(self)@ == next,
                Err(e) => r == Err::<(), Chip8Error>(e) && final(self)@ == old(self)@,
            },
    {
        proof {
            use_type_invariant(&*self);
        }
        match ins {
            Instruction::Cls => {
                self.video = [false;2048];
                assert(self@.display =~= blank());
            },
            Instruction::LdI { addr } => {
                self.index = addr;
            },
            Instruction::Drw { x, y, rows } => {
                if rows > 0 && self.index as usize + rows as usize > MEMORY_SIZE {
                    return Err(Chip8Error::OutOfBoundsAccess);
                }
                let collision: bool = self.draw_sprite(x, y, rows);
                self.set_v(0xF, if collision {
                    1
                } else {
                    0
                });
            },
            Instruction::LdDtVx { x } => {
                self.delay_timer = self.v(x);
            },
            Instruction::LdStVx { x } => {
                self.sound_timer = self.v(x);
            },
            Instruction::AddI { x } => {
                let vx: u8 = self.v(x);
                self.index = self.index.wrapping_add(vx as u16);
            },
            Instruction::LdF { x } => {
                let vx: u8 = self.v(x);
                self.index = vx as u16 * 5 + 0x050;
            },
            Instruction::LdB { x } => {
                if self.index as usize + 2 >= MEMORY_SIZE {
                    return Err(Chip8Error::OutOfBoundsAccess);
                }
                let vx: u8 = self.v(x);
                self.store_decimal(vx);
            },
            Instruction::StoreRegs { x } => {
                if self.index as usize + x as usize >= MEMORY_SIZE {
                    return Err(Chip8Error::OutOfBoundsAccess);
                }
                self.store_registers(x);
            },
            Instruction::LoadRegs { x } => {
                if self.index as usize + x as usize >= MEMORY_SIZE {
                    return Err(Chip8Error::OutOfBoundsAccess);
                }
                self.load_registers(x);
            },
            _ => {},
        }
        Ok(())
    }

    /// Carries out one decoded instruction on a machine whose program
    /// counter is already past it. An instruction that fails changes
    /// nothing.
    fn execute(&mut self, ins: Instruction, random: u8) -> (r: Result<(), Chip8Error>)
        requires
            ins.wf(),
            2 <= old(self).pc <= 4096,
        ensures
            match old(self)@.execute(ins, random) {
                Ok(next) => r is Ok && final(self)@ == next,
                Err(e) => r == Err::<(), Chip8Error>(e) && final(self)@ == old(self)@,
            },
    {
        match ins {
            Instruction::LdByte { .. }
            | Instruction::AddByte { .. }
            | Instruction::LdReg { .. }
            | Instruction::Or { .. }
            | Instruction::And { .. }
            | Instruction::Xor { .. }
            | Instruction::AddReg { .. }
            | Instruction::Sub { .. }
            | Instruction::Subn { .. }
            | Instruction::Shr { .. }
            | Instruction::Shl { .. }
            | Instruction::LdVxDt { .. }
            | Instruction::Rnd { .. } => {
                self.execute_arithmetic(ins, random);
                Ok(())
            },
            Instruction::Ret
            | Instruction::Jp { .. }
            | Instruction::Call { .. }
            | Instruction::SeByte { .. }
            | Instruction::SneByte { .. }
            | Instruction::SeReg { .. }
            | Instruction::SneReg { .. }
            | Instruction::JpV0 { .. }
            | Instruction::Skp { .. }
            | Instruction::Sknp { .. }
            | Instruction::LdVxK { .. } => self.execute_control(ins),
            _ => self.execute_device(ins),
        }
    }

    /// The instruction that the next cycle executes. Nothing is changed.
    pub fn peek(&self) -> (r: Result<Instruction, Chip8Error>)
        ensures
            r == self@.next_instruction(),
            r matches Ok(ins) ==> ins.wf(),
    {
        let pc: usize = self.pc as usize;
        if pc + 1 >= MEMORY_SIZE {
            return Err(Chip8Error::OutOfBoundsAccess);
        }
        let msb: u8 = self.memory[pc];
        let lsb: u8 = self.memory[pc + 1];
        assert(((msb as u16) << 8) | (lsb as u16) == msb * 256 + lsb) by (bit_vector);
        decode(((msb as u16) << 8) | (lsb as u16))
    }

    /// Runs one cycle in which `Cxnn`, if it is the instruction, draws
    /// `random`: fetch, decode, execute, then one tick of both timers.
    ///
    /// A cycle that fails leaves the machine as it was, program counter and
    /// timers included.
    pub fn cycle_with(&mut self, random: u8) -> (r: Result<(), Chip8Error>)
        ensures
            old(self)@.cycles_to(random, final(self)@, r),
            final(self)@.wf(),
    {
        proof {
            use_type_invariant(&*self);
        }
        let start: u16 = self.pc;
        let word: u16 = match self.fetch() {
            Ok(word) => word,
            Err(e) => {
                return Err(e);
            },
        };
        proof {
            use_type_invariant(&*self);
        }
        let ins: Instruction = match decode(word) {
            Ok(ins) => ins,
            Err(e) => {
                self.pc = start;
                return Err(e);
            },
        };
        match self.execute(ins, random) {
            Ok(()) => {
                self.tick();
                proof {
                    use_type_invariant(&*self);
                }
                Ok(())
            },
            Err(e) => {
                proof {
                    use_type_invariant(&*self);
                }
                self.pc = start;
                Err(e)
            },
        }
    }

    /// Runs one cycle: fetch, decode, execute, then one tick of both
    /// timers. Only `Cxnn` draws a random byte; every other instruction has
    /// the one outcome that the step function gives.
    ///
    /// A cycle that fails leaves the machine as it was.
    pub fn cycle(&mut self) -> (r: Result<(), Chip8Error>)
        ensures
            exists|random: u8| old(self)@.cycles_to(random, final(self)@, r),
            !old(self)@.draws_random() ==> forall|random: u8|
                old(self)@.cycles_to(random, final(self)@, r),
            final(self)@.wf(),
    {
        let random: u8 = match self.peek() {
            Ok(Instruction::Rnd { .. }) => random_byte(),
            _ => 0,
        };
        self.cycle_with(random)
    }
}

} // verus!
