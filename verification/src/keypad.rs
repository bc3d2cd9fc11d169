//! A keypad that is told which keys go down and up.
use vstd::prelude::*;
use crate::traits;

verus! {

/// The number of the first key that is down, if any is.
pub open spec fn first_key_down(keys: Seq<bool>) -> Option<int> {
    if exists|key: int| 0 <= key < keys.len() && keys[key] {
        Some(
            choose|key: int|
                0 <= key < keys.len() && keys[key] && forall|before: int|
                    0 <= before < key ==> !keys[before],
        )
    } else {
        None
    }
}

/// The first key that is down is down, and no key before it is.
pub proof fn lemma_first_key_down(keys: Seq<bool>)
    ensures
        match first_key_down(keys) {
            Some(key) => 0 <= key < keys.len() && keys[key] && forall|before: int|
                0 <= before < key ==> !keys[before],
            None => forall|key: int| 0 <= key < keys.len() ==> !keys[key],
        },
{
    if exists|key: int| 0 <= key < keys.len() && keys[key] {
        let some = choose|key: int| 0 <= key < keys.len() && keys[key];
        lemma_least_key(keys, some);
    }
}

proof fn lemma_least_key(keys: Seq<bool>, down: int)
    requires
        0 <= down < keys.len(),
        keys[down],
    ensures
        exists|key: int|
            0 <= key < keys.len() && keys[key] && forall|before: int|
                0 <= before < key ==> !keys[before],
    decreases down,
{
    if exists|earlier: int| 0 <= earlier < down && keys[earlier] {
        let earlier = choose|earlier: int| 0 <= earlier < down && keys[earlier];
        lemma_least_key(keys, earlier);
    } else {
        assert(0 <= down < keys.len() && keys[down] && forall|before: int|
            0 <= before < down ==> !keys[before]);
    }
}

/// The key that is down and has no key down before it is the first key that is down.
pub proof fn lemma_first_key_down_is(keys: Seq<bool>, key: int)
    requires
        0 <= key < keys.len(),
        keys[key],
        forall|before: int| 0 <= before < key ==> !keys[before],
    ensures
        first_key_down(keys) == Some(key),
{
    lemma_first_key_down(keys);
}

/// A keypad that holds which of its sixteen keys are down and is told of each change.
pub struct Keypad {
    key_pressed: [bool; 16],
}

impl View for Keypad {
    type V = Seq<bool>;

    closed spec fn view(&self) -> Seq<bool> {
        self.key_pressed@
    }
}

impl Keypad {
    pub fn new() -> (result: Keypad)
        ensures
            result@ == Seq::new(16, |key: int| false),
    {
        let result = Keypad { key_pressed: [false;16] };
        assert(result@ =~= Seq::new(16, |key: int| false));
        result
    }

    /// Notes that the key `index` went down or up. Returns whether there is such a key;
    /// where there is none, nothing changes.
    pub fn set_key_state(&mut self, index: usize, state: bool) -> (result: bool)
        ensures
            final(self)@.len() == 16,
            result == (index < 16),
            index < 16 ==> final(self)@ == old(self)@.update(index as int, state),
            index >= 16 ==> final(self)@ == old(self)@,
    {
        if index < 16 {
            self.key_pressed[index] = state;
            true
        } else {
            false
        }
    }
}

impl traits::Keypad for Keypad {
    fn state(&self) -> (result: [bool; 16])
        ensures
            result@ == self@,
    {
        self.key_pressed
    }

    fn key_state(&self, key_index: usize) -> (result: bool)
        ensures
            result == (key_index < 16 && self@[key_index as int]),
    {
        if key_index < 16 {
            return self.key_pressed[key_index];
        }
        return false;
    }
}

} // verus!
