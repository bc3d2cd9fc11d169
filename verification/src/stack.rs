use vstd::prelude::*;
use crate::traits;

verus! {

/// What lies on top of a stack: its latest entry, or nothing where it is empty.
pub open spec fn top(entries: Seq<usize>) -> Option<usize> {
    if entries.len() > 0 {
        Some(entries.last())
    } else {
        None
    }
}

/// The stack without its top; an empty stack stays empty.
pub open spec fn below_top(entries: Seq<usize>) -> Seq<usize> {
    if entries.len() > 0 {
        entries.drop_last()
    } else {
        entries
    }
}

/// What was pushed last is popped first: after `first` and then `second` were pushed, the
/// pops give `second`, then `first`, and leave the stack as it was. An empty stack gives
/// nothing and stays empty.
pub proof fn lemma_last_in_first_out(entries: Seq<usize>, first: usize, second: usize)
    ensures
        top(entries.push(first).push(second)) == Some(second),
        top(below_top(entries.push(first).push(second))) == Some(first),
        below_top(below_top(entries.push(first).push(second))) == entries,
        top(Seq::<usize>::empty()) is None,
        below_top(Seq::<usize>::empty()) == Seq::<usize>::empty(),
{
    let one = entries.push(first);
    let two = one.push(second);
    assert(two.drop_last() =~= one);
    assert(one.drop_last() =~= entries);
}

/// The call stack: the return addresses of the calls that have not returned yet, the
/// latest last.
pub struct Stack {
    contents: Vec<usize>,
}

impl View for Stack {
    type V = Seq<usize>;

    closed spec fn view(&self) -> Seq<usize> {
        self.contents@
    }
}

impl Stack {
    pub fn new() -> (result: Stack)
        ensures
            result@ == Seq::<usize>::empty(),
    {
        Stack { contents: vec![] }
    }

    pub fn is_empty(&self) -> (result: bool)
        ensures
            result == (self@.len() == 0),
    {
        self.contents.len() == 0
    }
}

impl traits::Stack for Stack {
    open spec fn entries(&self) -> Seq<usize> {
        self@
    }

    fn push(&mut self, value: usize) {
        self.contents.push(value);
    }

    fn pop(&mut self) -> (result: Option<usize>) {
        self.contents.pop()
    }

    fn clear(&mut self) {
        self.contents.clear();
    }
}

} // verus!
