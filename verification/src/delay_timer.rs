use vstd::prelude::*;
use crate::traits;

verus! {

/// What a counter holds after one tick: one less, and zero stays zero.
pub open spec fn ticked(value: u8) -> u8 {
    if value > 0 {
        (value - 1) as u8
    } else {
        0
    }
}

/// What a counter holds after `ticks` ticks.
pub open spec fn ticked_times(value: u8, ticks: nat) -> u8
    decreases ticks,
{
    if ticks == 0 {
        value
    } else {
        ticked(ticked_times(value, (ticks - 1) as nat))
    }
}

/// The value that is left when the writes of `updates` have been made in turn to a counter
/// that held `value`: the last of them, or `value` where there is none.
pub open spec fn last_written(value: u8, updates: Seq<u8>) -> u8 {
    if updates.len() == 0 {
        value
    } else {
        updates.last()
    }
}

/// Ticking a counter as often as its value says, or more often, leaves zero.
pub proof fn lemma_ticked_to_zero(value: u8, ticks: nat)
    ensures
        ticks <= value ==> ticked_times(value, ticks) == value - ticks,
        ticks >= value ==> ticked_times(value, ticks) == 0,
    decreases ticks,
{
    if ticks > 0 {
        lemma_ticked_to_zero(value, (ticks - 1) as nat);
    }
}

/// The delay timer: a byte that counts down to zero, one per tick.
pub struct DelayTimer {
    value: u8,
}

impl View for DelayTimer {
    type V = u8;

    closed spec fn view(&self) -> u8 {
        self.value
    }
}

impl DelayTimer {
    pub fn new() -> (result: DelayTimer)
        ensures
            result@ == 0,
    {
        DelayTimer { value: 0 }
    }

    pub fn reset(&mut self)
        ensures
            final(self)@ == 0,
    {
        self.value = 0;
    }

    /// One round of a timer that is driven from outside: makes the writes that have come
    /// in since the last round, in their order, then counts down by one where a tick is
    /// due. Returns the new value where the round has changed it.
    pub fn step(&mut self, updates: &[u8], tick_due: bool) -> (changed: Option<u8>)
        ensures
            final(self)@ == if tick_due {
                ticked(last_written(old(self)@, updates@))
            } else {
                last_written(old(self)@, updates@)
            },
            final(self)@ != old(self)@ ==> changed == Some(final(self)@),
            final(self)@ == old(self)@ ==> changed is None,
    {
        let previous_value = self.value;

        let mut index: usize = 0;
        while index < updates.len()
            invariant
                index <= updates@.len(),
                self.value == last_written(previous_value, updates@.subrange(0, index as int)),
            decreases updates@.len() - index,
        {
            self.value = updates[index];
            index += 1;
        }
        assert(updates@.subrange(0, index as int) =~= updates@);

        if tick_due && self.value > 0 {
            self.value -= 1;
        }
        if self.value != previous_value {
            Some(self.value)
        } else {
            None
        }
    }
}

impl traits::Timer for DelayTimer {
    open spec fn value(&self) -> u8 {
        self@
    }

    fn get(&self) -> (result: u8) {
        self.value
    }

    fn set(&mut self, value: u8) {
        self.value = value;
    }

    fn update(&mut self) -> (result: Result<(), String>)
        ensures
            result is Ok,
    {
        if self.value > 0 {
            self.value -= 1;
        }
        Ok(())
    }
}

} // verus!
