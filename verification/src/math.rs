//! Numbers from their bits.
use vstd::prelude::*;

verus! {

/// The number that a sequence of bits spells, most significant bit first.
pub open spec fn bits_value(bits: Seq<bool>) -> nat
    decreases bits.len(),
{
    if bits.len() == 0 {
        0
    } else {
        2 * bits_value(bits.drop_last()) + if bits.last() { 1nat } else { 0nat }
    }
}

/// The last `count` bits of a sequence, or all of it where it is shorter.
pub open spec fn low_bits(bits: Seq<bool>, count: nat) -> Seq<bool> {
    if bits.len() <= count {
        bits
    } else {
        bits.subrange(bits.len() - count, bits.len() as int)
    }
}

/// Two to the power `exponent`.
pub open spec fn place_value(exponent: nat) -> nat
    decreases exponent,
{
    if exponent == 0 {
        1
    } else {
        2 * place_value((exponent - 1) as nat)
    }
}

/// Appending one bit doubles the value and adds the bit.
pub proof fn lemma_bits_value_push(bits: Seq<bool>, bit: bool)
    ensures
        bits_value(bits.push(bit)) == 2 * bits_value(bits) + if bit { 1nat } else { 0nat },
{
    assert(bits.push(bit).drop_last() =~= bits);
    assert(bits.push(bit).last() == bit);
}

/// A sequence of `n` bits spells a number below two to the `n`.
pub proof fn lemma_bits_value_bound(bits: Seq<bool>)
    ensures
        bits_value(bits) < place_value(bits.len()),
    decreases bits.len(),
{
    if bits.len() > 0 {
        lemma_bits_value_bound(bits.drop_last());
    }
}

proof fn lemma_place_values()
    ensures
        place_value(0) == 1,
        place_value(1) == 2,
        place_value(2) == 4,
        place_value(3) == 8,
        place_value(4) == 16,
        place_value(5) == 32,
        place_value(6) == 64,
        place_value(7) == 128,
        place_value(8) == 256,
        place_value(9) == 512,
        place_value(10) == 1024,
        place_value(11) == 2048,
        place_value(12) == 4096,
        place_value(13) == 8192,
        place_value(14) == 16384,
        place_value(15) == 32768,
        place_value(16) == 65536,
{
    reveal_with_fuel(place_value, 17);
}

fn count_low_bits(bits: &[bool], limit: usize) -> (result: u16)
    requires
        limit <= 16,
    ensures
        result as nat == bits_value(low_bits(bits@, limit as nat)),
        (result as nat) < place_value(limit as nat),
{
    let length = bits.len();
    let start: usize = if length <= limit { 0 } else { length - limit };
    let ghost low = low_bits(bits@, limit as nat);
    let mut result: u16 = 0;
    let mut index: usize = start;
    proof {
        assert(low.subrange(0, 0) =~= Seq::<bool>::empty());
    }
    while index < length
        invariant
            limit <= 16,
            length == bits@.len(),
            start <= index <= length,
            length - start <= limit,
            low == low_bits(bits@, limit as nat),
            low.len() == length - start,
            forall|k: int| 0 <= k < low.len() ==> low[k] == bits@[start + k],
            result as nat == bits_value(low.subrange(0, index - start)),
        decreases length - index,
    {
        let bit = bits[index];
        proof {
            let done = low.subrange(0, index - start);
            assert(low.subrange(0, index - start + 1) =~= done.push(bit));
            lemma_bits_value_push(done, bit);
            lemma_bits_value_bound(done.push(bit));
            lemma_place_monotonic((index - start + 1) as nat, 16);
            lemma_place_values();
        }
        result = result * 2 + if bit { 1 } else { 0 };
        index += 1;
    }
    proof {
        assert(low.subrange(0, low.len() as int) =~= low);
        lemma_bits_value_bound(low);
        lemma_place_monotonic(low.len(), limit as nat);
    }
    result
}

proof fn lemma_place_monotonic(small: nat, large: nat)
    requires
        small <= large,
    ensures
        place_value(small) <= place_value(large),
    decreases large,
{
    if small < large {
        lemma_place_monotonic(small, (large - 1) as nat);
    }
}

/// The number spelled by the last eight bits of `bits`, most significant first.
pub fn count8(bits: Vec<bool>) -> (result: u8)
    ensures
        result as nat == bits_value(low_bits(bits@, 8)),
{
    let wide = count_low_bits(bits.as_slice(), 8);
    proof {
        lemma_place_values();
    }
    wide as u8
}

/// The number spelled by the last sixteen bits of `bits`, most significant first.
pub fn count16(bits: Vec<bool>) -> (result: u16)
    ensures
        result as nat == bits_value(low_bits(bits@, 16)),
{
    count_low_bits(bits.as_slice(), 16)
}

/// Bit sequences that spell a number of at most eight bits.
pub trait Count8 {
    /// The bits of the value, most significant first.
    spec fn bits(&self) -> Seq<bool>;

    fn count8(&self) -> (result: u8)
        ensures
            result as nat == bits_value(low_bits(self.bits(), 8)),
    ;
}

impl Count8 for [bool; 4] {
    open spec fn bits(&self) -> Seq<bool> {
        self@
    }

    fn count8(&self) -> (result: u8) {
        let wide = count_low_bits(self.as_slice(), 8);
        proof {
            lemma_place_values();
        }
        wide as u8
    }
}

impl Count8 for [bool; 8] {
    open spec fn bits(&self) -> Seq<bool> {
        self@
    }

    fn count8(&self) -> (result: u8) {
        let wide = count_low_bits(self.as_slice(), 8);
        proof {
            lemma_place_values();
        }
        wide as u8
    }
}

/// Bit sequences that spell a number of at most sixteen bits.
pub trait Count16 {
    /// The bits of the value, most significant first.
    spec fn bits(&self) -> Seq<bool>;

    fn count16(&self) -> (result: u16)
        ensures
            result as nat == bits_value(low_bits(self.bits(), 16)),
    ;
}

impl Count16 for [bool; 12] {
    open spec fn bits(&self) -> Seq<bool> {
        self@
    }

    fn count16(&self) -> (result: u16) {
        count_low_bits(self.as_slice(), 16)
    }
}

impl Count16 for [bool; 16] {
    open spec fn bits(&self) -> Seq<bool> {
        self@
    }

    fn count16(&self) -> (result: u16) {
        count_low_bits(self.as_slice(), 16)
    }
}

} // verus!
