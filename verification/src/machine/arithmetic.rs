use vstd::prelude::*;
use crate::instruction::Instruction;
use crate::machine::Chip8;
use crate::model::{carry_of, no_borrow_of, wrapped_difference, wrapped_sum, ShiftSource};

verus! {

/// The sum of two bytes, wrapped to a byte.
fn add_wrapping(a: u8, b: u8) -> (sum: u8)
    ensures
        sum == wrapped_sum(a, b),
{
    a.wrapping_add(b)
}

/// The difference of two bytes, wrapped to a byte.
fn subtract_wrapping(a: u8, b: u8) -> (difference: u8)
    ensures
        difference == wrapped_difference(a, b),
{
    a.wrapping_sub(b)
}

/// 1 if the sum of two bytes does not fit in a byte, else 0.
fn carry(a: u8, b: u8) -> (flag: u8)
    ensures
        flag == carry_of(a, b),
{
    if a > 255 - b {
        1
    } else {
        0
    }
}

/// 1 if `a` is greater than `b`, else 0.
fn no_borrow(a: u8, b: u8) -> (flag: u8)
    ensures
        flag == no_borrow_of(a, b),
{
    if a > b {
        1
    } else {
        0
    }
}

impl Chip8 {
    /// The value that a shift instruction shifts.
    fn shift_operand(&self, x: u8, y: u8) -> (operand: u8)
        requires
            x < 16,
            y < 16,
        ensures
            operand == self@.shift_operand(x, y),
    {
        match self.shift_source {
            ShiftSource::Vx => self.v(x),
            ShiftSource::Vy => self.v(y),
        }
    }

    /// `8xy4`: `Vx = Vx + Vy`, then `VF` = carry.
    fn add_registers(&mut self, x: u8, y: u8)
        requires
            x < 16,
            y < 16,
        ensures
            final(self)@ == old(self)@.arithmetic(Instruction::AddReg { x, y }, 0),
    {
        let vx: u8 = self.v(x);
        let vy: u8 = self.v(y);
        self.set_v(x, add_wrapping(vx, vy));
        self.set_v(0xF, carry(vx, vy));
    }

    /// `8xy5` and `8xy7`: `VF` = no borrow, then `Vx` = minuend minus
    /// subtrahend, where the minuend is `Vx` for `8xy5` and `Vy` for `8xy7`.
    fn subtract_registers(&mut self, x: u8, y: u8, reversed: bool)
        requires
            x < 16,
            y < 16,
        ensures
            !reversed ==> final(self)@ == old(self)@.arithmetic(Instruction::Sub { x, y }, 0),
            reversed ==> final(self)@ == old(self)@.arithmetic(Instruction::Subn { x, y }, 0),
    {
        let vx: u8 = self.v(x);
        let vy: u8 = self.v(y);
        if reversed {
            self.set_v(0xF, no_borrow(vy, vx));
            self.set_v(x, subtract_wrapping(vy, vx));
        } else {
            self.set_v(0xF, no_borrow(vx, vy));
            self.set_v(x, subtract_wrapping(vx, vy));
        }
    }

    /// `8xy6`: `VF` = low bit of the operand, then `Vx` = operand / 2.
    fn shift_right(&mut self, x: u8, y: u8)
        requires
            x < 16,
            y < 16,
        ensures
            final(self)@ == old(self)@.arithmetic(Instruction::Shr { x, y }, 0),
    {
        let operand: u8 = self.shift_operand(x, y);
        self.set_v(0xF, operand % 2);
        self.set_v(x, operand / 2);
    }

    /// `8xyE`: `VF` = high bit of the operand, then `Vx` = operand * 2,
    /// wrapping.
    fn shift_left(&mut self, x: u8, y: u8)
        requires
            x < 16,
            y < 16,
        ensures
            final(self)@ == old(self)@.arithmetic(Instruction::Shl { x, y }, 0),
    {
        let operand: u8 = self.shift_operand(x, y);
        self.set_v(0xF, operand / 128);
        self.set_v(x, add_wrapping(operand, operand));
    }

    /// The instructions that only read and write registers.
    pub(super) fn execute_arithmetic(&mut self, ins: Instruction, random: u8)
        requires
            ins.wf(),
            ins.is_arithmetic(),
        ensures
            final(self)@ == old(self)@.arithmetic(ins, random),
    {
        match ins {
            Instruction::LdByte { x, byte } => {
                self.set_v(x, byte);
            },
            Instruction::AddByte { x, byte } => {
                let vx: u8 = self.v(x);
                self.set_v(x, add_wrapping(vx, byte));
            },
            Instruction::LdReg { x, y } => {
                let vy: u8 = self.v(y);
                self.set_v(x, vy);
            },
            Instruction::Or { x, y } => {
                let vx: u8 = self.v(x);
                let vy: u8 = self.v(y);
                self.set_v(x, vx | vy);
            },
            Instruction::And { x, y } => {
                let vx: u8 = self.v(x);
                let vy: u8 = self.v(y);
                self.set_v(x, vx & vy);
            },
            Instruction::Xor { x, y } => {
                let vx: u8 = self.v(x);
                let vy: u8 = self.v(y);
                self.set_v(x, vx ^ vy);
            },
            Instruction::LdVxDt { x } => {
                let timer: u8 = self.delay_timer;
                self.set_v(x, timer);
            },
            Instruction::Rnd { x, byte } => {
                self.set_v(x, random & byte);
            },
            Instruction::AddReg { x, y } => {
                self.add_registers(x, y);
            },
            Instruction::Sub { x, y } => {
                self.subtract_registers(x, y, false);
            },
            Instruction::Subn { x, y } => {
                self.subtract_registers(x, y, true);
            },
            Instruction::Shr { x, y } => {
                self.shift_right(x, y);
            },
            Instruction::Shl { x, y } => {
                self.shift_left(x, y);
            },
            _ => {},
        }
    }
}

} // verus!
