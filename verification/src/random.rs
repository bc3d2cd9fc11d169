//! The source of random bytes that the library brings along.
use vstd::prelude::*;
use nanorand::Rng;
use crate::traits;

verus! {

/// `nanorand::WyRand`, the generator of the WyRand algorithm. Nothing of what it holds is
/// seen here.
#[verifier::external_type_specification]
#[verifier::external_body]
pub struct ExWyRand(nanorand::WyRand);

/// `nanorand::WyRand::new`: a generator that is seeded from the entropy of the system.
/// Nothing is claimed of it: two generators need not give the same bytes.
#[verifier::external_body]
fn new_generator() -> (generator: nanorand::WyRand) {
    nanorand::WyRand::new()
}

/// `nanorand::Rng::generate::<u8>` on a `WyRand`: the generator moves on and hands out one
/// byte. Nothing is claimed of the byte, nor of the generator afterwards.
#[verifier::external_body]
fn generate_byte(generator: &mut nanorand::WyRand) -> (byte: u8) {
    generator.generate::<u8>()
}

/// A source of random bytes that is seeded by the system.
pub struct Random {
    internal: nanorand::WyRand,
}

impl Random {
    /// A source that the system has seeded.
    pub fn new() -> Random {
        Random { internal: new_generator() }
    }
}

impl traits::Random for Random {
    /// The next byte of the generator.
    fn value(&mut self) -> u8 {
        generate_byte(&mut self.internal)
    }
}

} // verus!
