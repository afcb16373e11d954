use vstd::prelude::*;
use crate::machine::Chip8;
use crate::model::{is_lowest_pressed, lowest_pressed};

verus! {

impl Chip8 {
    /// The register `Vx`.
    pub(super) fn v(&self, x: u8) -> (value: u8)
        requires
            x < 16,
        ensures
            value == self@.v(x),
    {
        self.registers[x as usize]
    }

    /// Sets `Vx` to `value`.
    pub(super) fn set_v(&mut self, x: u8, value: u8)
        requires
            x < 16,
        ensures
            final(self)@ == old(self)@.with_v(x, value),
    {
        proof {
            use_type_invariant(&*self);
        }
        self.registers[x as usize] = value;
    }

    /// Moves the program counter past the next instruction if `condition`
    /// holds.
    pub(super) fn skip_if(&mut self, condition: bool)
        requires
            old(self).pc <= 4096,
        ensures
            final(self)@ == old(self)@.skip_if(condition),
    {
        proof {
            use_type_invariant(&*self);
        }
        if condition {
            self.pc = self.pc + 2;
        }
    }

    /// Lets both timers count down by one, unless they are at zero.
    pub(super) fn tick(&mut self)
        ensures
            final(self)@ == old(self)@.tick(),
    {
        proof {
            use_type_invariant(&*self);
        }
        if self.delay_timer > 0 {
            self.delay_timer -= 1;
        }
        if self.sound_timer > 0 {
            self.sound_timer -= 1;
        }
    }

    /// The lowest-numbered key that is held down, if any is.
    pub(super) fn lowest_pressed_key(&self) -> (key: Option<u8>)
        ensures
            key == lowest_pressed(self@.keypad),
    {
        let mut k: u8 = 0;
        while k < 16
            invariant
                k <= 16,
                forall|other: int| 0 <= other < k ==> !self.keypad@[other],
            decreases 16 - k,
        {
            if self.keypad[k as usize] {
                proof {
                    assert(is_lowest_pressed(self@.keypad, k));
                    let chosen = choose|key: u8| is_lowest_pressed(self@.keypad, key);
                    assert(chosen == k);
                }
                return Some(k);
            }
            k += 1;
        }
        None
    }
}

} // verus!
