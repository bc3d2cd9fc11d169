use vstd::prelude::*;
use vstd::string::StringExecFns;
use crate::text::{append_decimal, decimal_text};

verus! {

/// A register number that names no register.
#[derive(Debug, Clone, Copy)]
pub struct OutOfBoundsError {
    index: u8,
}

impl OutOfBoundsError {
    /// The register number that was asked for.
    pub closed spec fn spec_index(&self) -> u8 {
        self.index
    }

    pub fn new(index: u8) -> (result: OutOfBoundsError)
        ensures
            result.spec_index() == index,
    {
        OutOfBoundsError { index }
    }

    /// The register number that was asked for.
    pub fn index(&self) -> (result: u8)
        ensures
            result == self.spec_index(),
    {
        self.index
    }

    /// The error as a line of text.
    pub fn to_string(&self) -> (result: String)
        ensures
            result@ == "Out of Bounds index "@ + decimal_text(self.spec_index() as nat),
    {
        let mut result = String::from_str("Out of Bounds index ");
        append_decimal(&mut result, self.index as usize);
        result
    }
}

} // verus!
