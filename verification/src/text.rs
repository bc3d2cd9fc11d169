//! Numbers as text: decimal, and hexadecimal with a fixed number of digits.
use vstd::prelude::*;
use vstd::string::StringExecFns;

verus! {

/// The character for one digit below sixteen, in lower case.
pub open spec fn digit_char(digit: nat) -> char {
    if digit == 0 {
        '0'
    } else if digit == 1 {
        '1'
    } else if digit == 2 {
        '2'
    } else if digit == 3 {
        '3'
    } else if digit == 4 {
        '4'
    } else if digit == 5 {
        '5'
    } else if digit == 6 {
        '6'
    } else if digit == 7 {
        '7'
    } else if digit == 8 {
        '8'
    } else if digit == 9 {
        '9'
    } else if digit == 10 {
        'a'
    } else if digit == 11 {
        'b'
    } else if digit == 12 {
        'c'
    } else if digit == 13 {
        'd'
    } else if digit == 14 {
        'e'
    } else {
        'f'
    }
}

/// A number in decimal, without leading zeros.
pub open spec fn decimal_text(value: nat) -> Seq<char>
    decreases value,
{
    if value < 10 {
        seq![digit_char(value)]
    } else {
        decimal_text(value / 10).push(digit_char(value % 10))
    }
}

/// The last `digits` hexadecimal digits of a number, with leading zeros.
pub open spec fn hex_digits(value: nat, digits: nat) -> Seq<char>
    decreases digits,
{
    if digits == 0 {
        Seq::empty()
    } else {
        hex_digits(value / 16, (digits - 1) as nat).push(digit_char(value % 16))
    }
}

/// A byte as `0x` and two hexadecimal digits.
pub open spec fn hex_byte_text(value: u8) -> Seq<char> {
    seq!['0', 'x'] + hex_digits(value as nat, 2)
}

/// A sixteen-bit number as `0x` and four hexadecimal digits.
pub open spec fn hex_word_text(value: u16) -> Seq<char> {
    seq!['0', 'x'] + hex_digits(value as nat, 4)
}

fn digit_str(digit: u8) -> (result: &'static str)
    requires
        digit < 16,
    ensures
        result@ == seq![digit_char(digit as nat)],
{
    proof {
        reveal_strlit("0");
        reveal_strlit("1");
        reveal_strlit("2");
        reveal_strlit("3");
        reveal_strlit("4");
        reveal_strlit("5");
        reveal_strlit("6");
        reveal_strlit("7");
        reveal_strlit("8");
        reveal_strlit("9");
        reveal_strlit("a");
        reveal_strlit("b");
        reveal_strlit("c");
        reveal_strlit("d");
        reveal_strlit("e");
        reveal_strlit("f");
    }
    let result = match digit {
        0 => "0",
        1 => "1",
        2 => "2",
        3 => "3",
        4 => "4",
        5 => "5",
        6 => "6",
        7 => "7",
        8 => "8",
        9 => "9",
        10 => "a",
        11 => "b",
        12 => "c",
        13 => "d",
        14 => "e",
        _ => "f",
    };
    assert(result@ =~= seq![digit_char(digit as nat)]);
    result
}

/// Puts a number in decimal behind `text`.
pub fn append_decimal(text: &mut String, value: usize)
    ensures
        final(text)@ == old(text)@ + decimal_text(value as nat),
    decreases value,
{
    if value >= 10 {
        append_decimal(text, value / 10);
    }
    text.append(digit_str((value % 10) as u8));
    proof {
        let digit = seq![digit_char((value % 10) as nat)];
        if value >= 10 {
            assert(old(text)@ + decimal_text((value / 10) as nat) + digit =~= old(text)@
                + decimal_text((value / 10) as nat).push(digit_char((value % 10) as nat)));
        } else {
            assert(old(text)@ + digit =~= old(text)@ + decimal_text(value as nat));
        }
    }
}

/// The digits of a number are those of its sixteenth part and one more.
proof fn lemma_hex_digits_step(value: nat, digits: nat)
    requires
        digits > 0,
    ensures
        hex_digits(value, digits) == hex_digits(value / 16, (digits - 1) as nat).push(
            digit_char(value % 16),
        ),
        hex_digits(value, 0) == Seq::<char>::empty(),
{
}

fn append_hex_digit(text: &mut String, value: u16, digits: Ghost<nat>, shifted: u16)
    requires
        shifted as nat == value as nat / 16,
    ensures
        final(text)@ == old(text)@ + seq![digit_char(value as nat % 16)],
        forall|head: Seq<char>|
            old(text)@ == head + hex_digits(shifted as nat, digits@) ==> final(text)@ == head
                + hex_digits(value as nat, digits@ + 1),
{
    text.append(digit_str((value % 16) as u8));
    proof {
        lemma_hex_digits_step(value as nat, digits@ + 1);
        assert forall|head: Seq<char>|
            old(text)@ == head + hex_digits(shifted as nat, digits@) implies text@ == head
            + hex_digits(value as nat, digits@ + 1) by {
            assert(head + hex_digits(shifted as nat, digits@) + seq![
                digit_char(value as nat % 16),
            ] =~= head + hex_digits(shifted as nat, digits@).push(
                digit_char(value as nat % 16),
            ));
        }
    }
}

/// Puts a byte behind `text`, as `0x` and two hexadecimal digits.
pub fn append_hex_byte(text: &mut String, value: u8)
    ensures
        final(text)@ == old(text)@ + hex_byte_text(value),
{
    proof {
        reveal_strlit("0x");
    }
    text.append("0x");
    let ghost head = text@;
    proof {
        lemma_hex_digits_step(value as nat / 16, 1);
        assert(head =~= head + hex_digits(value as nat / 256, 0));
        assert(head =~= old(text)@ + seq!['0', 'x']);
    }
    append_hex_digit(text, (value / 16) as u16, Ghost(0), 0);
    append_hex_digit(text, value as u16, Ghost(1), (value / 16) as u16);
    assert(text@ == head + hex_digits(value as nat, 2));
    assert(text@ =~= old(text)@ + hex_byte_text(value));
}

/// Puts a sixteen-bit number behind `text`, as `0x` and four hexadecimal digits.
pub fn append_hex_word(text: &mut String, value: u16)
    ensures
        final(text)@ == old(text)@ + hex_word_text(value),
{
    proof {
        reveal_strlit("0x");
    }
    text.append("0x");
    let ghost head = text@;
    proof {
        lemma_hex_digits_step(value as nat / 4096, 1);
        assert(head =~= head + hex_digits(value as nat / 65536, 0));
        assert(head =~= old(text)@ + seq!['0', 'x']);
        assert(value as nat / 4096 / 16 == value as nat / 65536);
        assert(value as nat / 256 / 16 == value as nat / 4096);
        assert(value as nat / 16 / 16 == value as nat / 256);
    }
    append_hex_digit(text, value / 4096, Ghost(0), 0);
    append_hex_digit(text, value / 256, Ghost(1), value / 4096);
    append_hex_digit(text, value / 16, Ghost(2), value / 256);
    append_hex_digit(text, value, Ghost(3), value / 16);
    assert(text@ == head + hex_digits(value as nat, 4));
    assert(text@ =~= old(text)@ + hex_word_text(value));
}

} // verus!
