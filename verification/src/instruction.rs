//! An instruction and its six fields.
use vstd::prelude::*;
use vstd::string::StringExecFns;
use crate::math::{bits_value, lemma_bits_value_push};
use crate::text::{append_hex_word, hex_word_text};
use crate::traits;

verus! {

/// The four bits of a number below sixteen, most significant first.
pub open spec fn nibble_bits(value: nat) -> Seq<bool> {
    seq![value / 8 % 2 == 1, value / 4 % 2 == 1, value / 2 % 2 == 1, value % 2 == 1]
}

/// The eight bits of a number below 256, most significant first.
pub open spec fn byte_bits(value: nat) -> Seq<bool> {
    nibble_bits(value / 16) + nibble_bits(value % 16)
}

/// One instruction: the two bytes that were fetched for it.
#[derive(Clone, Copy, Debug)]
pub struct Instruction {
    first: u8,
    second: u8,
}

/// Why an instruction was not carried out.
#[derive(Clone, Copy, Debug)]
pub enum InstructionError {
    /// The bytes spell no instruction that the machine knows.
    UnsupportedInstructionError(Instruction),
    /// The instruction is known, and the machine's state does not allow it.
    InstructionExecuteError(Instruction),
}

impl InstructionError {
    /// The error as a line of text: what went wrong, and the instruction.
    pub open spec fn text(&self) -> Seq<char> {
        match *self {
            InstructionError::UnsupportedInstructionError(instruction) => "unsupported instruction "@
                + instruction.text(),
            InstructionError::InstructionExecuteError(instruction) => "could not execute instruction "@
                + instruction.text(),
        }
    }

    /// The error as a line of text.
    pub fn to_string(&self) -> (result: String)
        ensures
            result@ == self.text(),
    {
        match *self {
            InstructionError::UnsupportedInstructionError(instruction) => {
                let mut result = String::from_str("unsupported instruction ");
                instruction.append_to(&mut result);
                result
            },
            InstructionError::InstructionExecuteError(instruction) => {
                let mut result = String::from_str("could not execute instruction ");
                instruction.append_to(&mut result);
                result
            },
        }
    }

    /// The instruction that failed.
    pub open spec fn spec_instruction(&self) -> Instruction {
        match *self {
            InstructionError::UnsupportedInstructionError(instruction) => instruction,
            InstructionError::InstructionExecuteError(instruction) => instruction,
        }
    }

    /// The instruction that failed.
    pub fn instruction(&self) -> (result: Instruction)
        ensures
            result == self.spec_instruction(),
    {
        match *self {
            InstructionError::UnsupportedInstructionError(instruction) => instruction,
            InstructionError::InstructionExecuteError(instruction) => instruction,
        }
    }
}

impl Instruction {
    /// The first of the two bytes.
    pub closed spec fn first_byte(&self) -> u8 {
        self.first
    }

    /// The second of the two bytes.
    pub closed spec fn second_byte(&self) -> u8 {
        self.second
    }

    /// The class of the instruction: the high half of the first byte.
    pub open spec fn class(&self) -> nat {
        (self.first_byte() / 16) as nat
    }

    /// The number of register X: the low half of the first byte.
    pub open spec fn register_x(&self) -> nat {
        (self.first_byte() % 16) as nat
    }

    /// The number of register Y: the high half of the second byte.
    pub open spec fn register_y(&self) -> nat {
        (self.second_byte() / 16) as nat
    }

    /// The low half of the second byte.
    pub open spec fn low_nibble(&self) -> nat {
        (self.second_byte() % 16) as nat
    }

    /// The immediate byte: the second byte.
    pub open spec fn immediate(&self) -> nat {
        self.second_byte() as nat
    }

    /// The twelve-bit address: register X's number, then the immediate byte.
    pub open spec fn address(&self) -> nat {
        self.register_x() * 256 + self.immediate()
    }

    /// The instruction that is made of two bytes.
    pub closed spec fn from_bytes(first: u8, second: u8) -> Instruction {
        Instruction { first, second }
    }

    /// An instruction is its two bytes and nothing else.
    pub proof fn lemma_from_bytes(first: u8, second: u8)
        ensures
            Instruction::from_bytes(first, second).first_byte() == first,
            Instruction::from_bytes(first, second).second_byte() == second,
    {
    }

    /// The two bytes as one number, the first byte in front.
    pub open spec fn word(&self) -> u16 {
        (self.first_byte() * 256 + self.second_byte()) as u16
    }

    /// The instruction as text: `0x` and the four hexadecimal digits of its two bytes.
    pub open spec fn text(&self) -> Seq<char> {
        hex_word_text(self.word())
    }

    pub fn new(first: u8, second: u8) -> (result: Instruction)
        ensures
            result.first_byte() == first,
            result.second_byte() == second,
            result == Instruction::from_bytes(first, second),
    {
        Instruction { first, second }
    }

    /// Puts the instruction behind `text`, as `0x` and four hexadecimal digits.
    pub fn append_to(&self, text: &mut String)
        ensures
            final(text)@ == old(text)@ + self.text(),
    {
        append_hex_word(text, self.first as u16 * 256 + self.second as u16);
    }

    /// The instruction as text: `0x` and the four hexadecimal digits of its two bytes.
    pub fn to_string(&self) -> (result: String)
        ensures
            result@ == self.text(),
    {
        let mut result = String::new();
        self.append_to(&mut result);
        assert(result@ =~= self.text());
        result
    }

    /// The eight bits of a byte, most significant first.
    pub fn get_bits(from: u8) -> (result: [bool; 8])
        ensures
            result@ == byte_bits(from as nat),
    {
        let mut result = [false;8];

        result[7] = from & (1 << 0) != 0;
        result[6] = from & (1 << 1) != 0;
        result[5] = from & (1 << 2) != 0;
        result[4] = from & (1 << 3) != 0;
        result[3] = from & (1 << 4) != 0;
        result[2] = from & (1 << 5) != 0;
        result[1] = from & (1 << 6) != 0;
        result[0] = from & (1 << 7) != 0;

        proof {
            assert((from & (1u8 << 0u8) != 0) == (from % 16 % 2 == 1)) by (bit_vector);
            assert((from & (1u8 << 1u8) != 0) == (from % 16 / 2 % 2 == 1)) by (bit_vector);
            assert((from & (1u8 << 2u8) != 0) == (from % 16 / 4 % 2 == 1)) by (bit_vector);
            assert((from & (1u8 << 3u8) != 0) == (from % 16 / 8 % 2 == 1)) by (bit_vector);
            assert((from & (1u8 << 4u8) != 0) == (from / 16 % 2 == 1)) by (bit_vector);
            assert((from & (1u8 << 5u8) != 0) == (from / 16 / 2 % 2 == 1)) by (bit_vector);
            assert((from & (1u8 << 6u8) != 0) == (from / 16 / 4 % 2 == 1)) by (bit_vector);
            assert((from & (1u8 << 7u8) != 0) == (from / 16 / 8 % 2 == 1)) by (bit_vector);
            assert(result@ =~= byte_bits(from as nat));
        }
        result
    }

    /// The first nibble.
    pub fn w(&self) -> (result: [bool; 4])
        ensures
            result@ == nibble_bits(self.class()),
    {
        let bits = Instruction::get_bits(self.first);
        let result = [bits[0], bits[1], bits[2], bits[3]];
        assert(result@ =~= nibble_bits(self.class()));
        result
    }

    /// The second nibble. Used to look up one of the 16 registers (VX) from V0 through VF.
    pub fn x(&self) -> (result: [bool; 4])
        ensures
            result@ == nibble_bits(self.register_x()),
    {
        let bits = Instruction::get_bits(self.first);
        let result = [bits[4], bits[5], bits[6], bits[7]];
        assert(result@ =~= nibble_bits(self.register_x()));
        result
    }

    /// The third nibble. Also used to look up one of the 16 registers (VY) from V0 through VF.
    pub fn y(&self) -> (result: [bool; 4])
        ensures
            result@ == nibble_bits(self.register_y()),
    {
        let bits = Instruction::get_bits(self.second);
        let result = [bits[0], bits[1], bits[2], bits[3]];
        assert(result@ =~= nibble_bits(self.register_y()));
        result
    }

    /// The fourth nibble.
    pub fn n(&self) -> (result: [bool; 4])
        ensures
            result@ == nibble_bits(self.low_nibble()),
    {
        let bits = Instruction::get_bits(self.second);
        let result = [bits[4], bits[5], bits[6], bits[7]];
        assert(result@ =~= nibble_bits(self.low_nibble()));
        result
    }

    /// The second byte (third and fourth nibbles). An 8-bit immediate number.
    pub fn nn(&self) -> (result: [bool; 8])
        ensures
            result@ == byte_bits(self.immediate()),
    {
        Instruction::get_bits(self.second)
    }

    /// The second, third and fourth nibbles. A 12-bit immediate memory address.
    pub fn nnn(&self) -> (result: [bool; 12])
        ensures
            result@ == nibble_bits(self.register_x()) + byte_bits(self.immediate()),
    {
        let mut result = [false;12];
        let x = self.x();
        let nn = self.nn();

        let mut index: usize = 0;
        while index < 4
            invariant
                index <= 4,
                forall|k: int| 0 <= k < index ==> result@[k] == x@[k],
            decreases 4 - index,
        {
            result[index] = x[index];
            index += 1;
        }
        while index < 12
            invariant
                4 <= index <= 12,
                forall|k: int| 0 <= k < 4 ==> result@[k] == x@[k],
                forall|k: int| 4 <= k < index ==> result@[k] == nn@[k - 4],
            decreases 12 - index,
        {
            result[index] = nn[index - 4];
            index += 1;
        }
        assert(result@ =~= x@ + nn@);
        result
    }
}

impl traits::Instruction for Instruction {
    open spec fn bytes(&self) -> (u8, u8) {
        (self.first_byte(), self.second_byte())
    }

    fn w(&self) -> (result: [bool; 4]) {
        Instruction::w(self)
    }

    fn x(&self) -> (result: [bool; 4]) {
        Instruction::x(self)
    }

    fn y(&self) -> (result: [bool; 4]) {
        Instruction::y(self)
    }

    fn n(&self) -> (result: [bool; 4]) {
        Instruction::n(self)
    }

    fn nn(&self) -> (result: [bool; 8]) {
        Instruction::nn(self)
    }

    fn nnn(&self) -> (result: [bool; 12]) {
        Instruction::nnn(self)
    }
}

/// Four bits spell the number they were taken from.
pub proof fn lemma_nibble_bits_value(value: nat)
    requires
        value < 16,
    ensures
        bits_value(nibble_bits(value)) == value,
{
    let b0 = value / 8 % 2 == 1;
    let b1 = value / 4 % 2 == 1;
    let b2 = value / 2 % 2 == 1;
    let b3 = value % 2 == 1;
    let s0 = Seq::<bool>::empty();
    assert(nibble_bits(value) =~= s0.push(b0).push(b1).push(b2).push(b3));
    lemma_bits_value_push(s0, b0);
    lemma_bits_value_push(s0.push(b0), b1);
    lemma_bits_value_push(s0.push(b0).push(b1), b2);
    lemma_bits_value_push(s0.push(b0).push(b1).push(b2), b3);
}

/// Putting four more bits behind a sequence multiplies its value by sixteen and adds theirs.
pub proof fn lemma_bits_value_append_nibble(bits: Seq<bool>, value: nat)
    requires
        value < 16,
    ensures
        bits_value(bits + nibble_bits(value)) == 16 * bits_value(bits) + value,
{
    let b0 = value / 8 % 2 == 1;
    let b1 = value / 4 % 2 == 1;
    let b2 = value / 2 % 2 == 1;
    let b3 = value % 2 == 1;
    assert(bits + nibble_bits(value) =~= bits.push(b0).push(b1).push(b2).push(b3));
    lemma_bits_value_push(bits, b0);
    lemma_bits_value_push(bits.push(b0), b1);
    lemma_bits_value_push(bits.push(b0).push(b1), b2);
    lemma_bits_value_push(bits.push(b0).push(b1).push(b2), b3);
}

/// Eight bits spell the number they were taken from.
pub proof fn lemma_byte_bits_value(value: nat)
    requires
        value < 256,
    ensures
        bits_value(byte_bits(value)) == value,
{
    lemma_nibble_bits_value(value / 16);
    lemma_bits_value_append_nibble(nibble_bits(value / 16), value % 16);
}

/// The address that the twelve address bits spell is register X's number put in front of
/// the immediate byte: `((first & 0x0F) << 8) | second`.
pub proof fn lemma_address_from_fields(instruction: Instruction)
    ensures
        bits_value(
            nibble_bits(instruction.register_x()) + byte_bits(instruction.immediate()),
        ) == instruction.address(),
        bits_value(nibble_bits(instruction.register_x())) == instruction.register_x(),
        bits_value(byte_bits(instruction.immediate())) == instruction.immediate(),
        instruction.address() == (((instruction.first_byte() & 0x0F) as u16) << 8u16) | (
        instruction.second_byte() as u16),
        instruction.register_x() == instruction.first_byte() & 0x0F,
{
    let x = instruction.register_x();
    let nn = instruction.immediate();
    let first = instruction.first_byte();
    let second = instruction.second_byte();
    lemma_nibble_bits_value(x);
    lemma_byte_bits_value(nn);
    let high = nibble_bits(x) + nibble_bits(nn / 16);
    lemma_bits_value_append_nibble(nibble_bits(x), nn / 16);
    lemma_bits_value_append_nibble(high, nn % 16);
    assert(nibble_bits(x) + byte_bits(nn) =~= high + nibble_bits(nn % 16));
    assert((first % 16) * 256 + second == (((first & 0x0F) as u16) << 8u16) | (second as u16))
        by (bit_vector);
    assert(first % 16 == first & 0x0F) by (bit_vector);
}

/// For every two bytes: the address that the twelve address bits of their instruction
/// spell, and so the address that is put together from register X's number and the
/// immediate byte, is `((first & 0x0F) << 8) | second`.
pub proof fn lemma_address_of_bytes(first: u8, second: u8)
    ensures
        ({
            let instruction = Instruction::from_bytes(first, second);
            &&& bits_value(
                nibble_bits(instruction.register_x()) + byte_bits(instruction.immediate()),
            ) == (((first & 0x0F) as u16) << 8u16) | (second as u16)
            &&& bits_value(nibble_bits(instruction.register_x())) * 256 + bits_value(
                byte_bits(instruction.immediate()),
            ) == (((first & 0x0F) as u16) << 8u16) | (second as u16)
        }),
{
    Instruction::lemma_from_bytes(first, second);
    lemma_address_from_fields(Instruction::from_bytes(first, second));
}

} // verus!
