use vstd::prelude::*;
use crate::traits;

verus! {

/// The sound timer: a byte that counts down to zero, one per tick. The machine sounds
/// while it is above zero.
pub struct SoundTimer {
    value: u8,
}

impl View for SoundTimer {
    type V = u8;

    closed spec fn view(&self) -> u8 {
        self.value
    }
}

impl SoundTimer {
    pub fn new() -> (result: SoundTimer)
        ensures
            result@ == 0,
    {
        SoundTimer { value: 0 }
    }

    pub fn reset(&mut self)
        ensures
            final(self)@ == 0,
    {
        self.value = 0;
    }
}

impl traits::Timer for SoundTimer {
    open spec fn value(&self) -> u8 {
        self@
    }

    fn get(&self) -> (result: u8) {
        self.value
    }

    fn set(&mut self, value: u8) {
        self.value = value;
    }

    fn update(&mut self) -> (result: Result<(), String>)
        ensures
            result is Ok,
    {
        if self.value > 0 {
            self.value -= 1;
        }
        Ok(())
    }
}

} // verus!
