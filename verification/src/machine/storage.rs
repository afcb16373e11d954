use vstd::prelude::*;
use crate::machine::Chip8;
use crate::model::MachineState;

verus! {

impl Chip8 {
    /// Copies `V0..=Vx` to the memory that the index register points at.
    pub(super) fn store_registers(&mut self, x: u8)
        requires
            x < 16,
            old(self).index + x < 4096,
        ensures
            final(self)@ == (MachineState {
                memory: old(self)@.registers_stored(x),
                ..old(self)@
            }),
    {
        proof {
            use_type_invariant(&*self);
        }
        let base: usize = self.index as usize;
        let mut r: usize = 0;
        while r <= x as usize
            invariant
                r <= x + 1,
                x < 16,
                base == self.index,
                base + x < 4096,
                self.inv(),
                forall|a: int|
                    0 <= a < 4096 ==> self.memory@[a] == (if base <= a < base + r {
                        self.registers@[a - base]
                    } else {
                        old(self).memory@[a]
                    }),
                self.same_but_memory(*old(self)),
            decreases x + 1 - r,
        {
            self.memory[base + r] = self.registers[r];
            r += 1;
        }
        assert(self@.memory =~= old(self)@.registers_stored(x));
    }

    /// Copies the memory that the index register points at to `V0..=Vx`.
    pub(super) fn load_registers(&mut self, x: u8)
        requires
            x < 16,
            old(self).index + x < 4096,
        ensures
            final(self)@ == (MachineState {
                registers: old(self)@.registers_loaded(x),
                ..old(self)@
            }),
    {
        proof {
            use_type_invariant(&*self);
        }
        let base: usize = self.index as usize;
        let mut r: usize = 0;
        while r <= x as usize
            invariant
                r <= x + 1,
                x < 16,
                base == self.index,
                base + x < 4096,
                self.inv(),
                forall|i: int|
                    0 <= i < 16 ==> self.registers@[i] == (if i < r {
                        self.memory@[base + i]
                    } else {
                        old(self).registers@[i]
                    }),
                self.same_but_registers(*old(self)),
            decreases x + 1 - r,
        {
            self.registers[r] = self.memory[base + r];
            r += 1;
        }
        assert(self@.registers =~= old(self)@.registers_loaded(x));
    }

    /// Writes the hundreds, tens and ones of `value` to the three bytes
    /// that the index register points at.
    pub(super) fn store_decimal(&mut self, value: u8)
        requires
            old(self).index + 2 < 4096,
        ensures
            final(self)@ == (MachineState {
                memory: old(self)@.decimal_stored(value),
                ..old(self)@
            }),
    {
        proof {
            use_type_invariant(&*self);
        }
        let base: usize = self.index as usize;
        self.memory[base] = value / 100;
        self.memory[base + 1] = (value / 10) % 10;
        self.memory[base + 2] = value % 10;
    }
}

} // verus!
