//! Text helpers shared by the other modules: comparison, indentation, and the
//! decimal and hexadecimal forms of numbers and bytes.

use vstd::prelude::*;
use vstd::string::*;

verus! {

/// Whether two texts hold the same characters.
pub fn text_equal(a: &str, b: &str) -> (same: bool)
    ensures
        same == (a@ == b@),
{
    let left = String::from_str(a);
    let right = String::from_str(b);
    left == right
}

/// `count` tab characters.
pub open spec fn tabs_text(count: nat) -> Seq<char> {
    Seq::new(count, |i: int| '\t')
}

/// A text of `count` tab characters.
pub fn tabs(count: usize) -> (pad: String)
    ensures
        pad@ == tabs_text(count as nat),
{
    let mut pad = String::new();
    let mut i: usize = 0;
    while i < count
        invariant
            i <= count,
            pad@ == tabs_text(i as nat),
        decreases count - i,
    {
        proof {
            reveal_strlit("\t");
            assert(tabs_text(i as nat) + "\t"@ =~= tabs_text((i + 1) as nat));
        }
        pad.append("\t");
        i += 1;
    }
    pad
}

/// The character of a decimal digit.
pub open spec fn decimal_digit(digit: nat) -> char {
    if digit == 0 {
        '0'
    } else if digit == 1 {
        '1'
    } else if digit == 2 {
        '2'
    } else if digit == 3 {
        '3'
    } else if digit == 4 {
        '4'
    } else if digit == 5 {
        '5'
    } else if digit == 6 {
        '6'
    } else if digit == 7 {
        '7'
    } else if digit == 8 {
        '8'
    } else {
        '9'
    }
}

/// The character of a hexadecimal digit, in lower case.
pub open spec fn hex_digit(digit: nat) -> char {
    if digit < 10 {
        decimal_digit(digit)
    } else if digit == 10 {
        'a'
    } else if digit == 11 {
        'b'
    } else if digit == 12 {
        'c'
    } else if digit == 13 {
        'd'
    } else if digit == 14 {
        'e'
    } else {
        'f'
    }
}

/// The text of one hexadecimal digit.
fn hex_digit_text(digit: u8) -> (text: &'static str)
    requires
        digit < 16,
    ensures
        text@ == seq![hex_digit(digit as nat)],
{
    proof {
        reveal_strlit("0");
        reveal_strlit("1");
        reveal_strlit("2");
        reveal_strlit("3");
        reveal_strlit("4");
        reveal_strlit("5");
        reveal_strlit("6");
        reveal_strlit("7");
        reveal_strlit("8");
        reveal_strlit("9");
        reveal_strlit("a");
        reveal_strlit("b");
        reveal_strlit("c");
        reveal_strlit("d");
        reveal_strlit("e");
        reveal_strlit("f");
    }
    let text = match digit {
        0 => "0",
        1 => "1",
        2 => "2",
        3 => "3",
        4 => "4",
        5 => "5",
        6 => "6",
        7 => "7",
        8 => "8",
        9 => "9",
        10 => "a",
        11 => "b",
        12 => "c",
        13 => "d",
        14 => "e",
        _ => "f",
    };
    assert(text@ =~= seq![hex_digit(digit as nat)]);
    text
}

/// The decimal form of a number: its digits, the most significant first,
/// with no leading zero and no sign.
pub open spec fn decimal_text(n: nat) -> Seq<char>
    decreases n,
{
    if n < 10 {
        seq![decimal_digit(n)]
    } else {
        decimal_text(n / 10).push(decimal_digit(n % 10))
    }
}

/// Writes a number in decimal.
pub fn decimal(n: u64) -> (text: String)
    ensures
        text@ == decimal_text(n as nat),
    decreases n,
{
    if n < 10 {
        String::from_str(hex_digit_text(n as u8))
    } else {
        let mut text = decimal(n / 10);
        let digit = hex_digit_text((n % 10) as u8);
        proof {
            assert(decimal_text((n / 10) as nat) + digit@ =~= decimal_text(n as nat));
        }
        text.append(digit);
        text
    }
}

/// The hexadecimal form of a sequence of bytes: `0x`, then two digits in
/// lower case for every byte, the high half first.
pub open spec fn hex_text(bytes: Seq<u8>) -> Seq<char> {
    seq!['0', 'x'] + Seq::new(
        2 * bytes.len(),
        |k: int|
            if k % 2 == 0 {
                hex_digit((bytes[k / 2] / 16) as nat)
            } else {
                hex_digit((bytes[k / 2] % 16) as nat)
            },
    )
}

/// Writes 32 bytes in hexadecimal, as addresses and object identifiers are
/// written.
pub fn hex(bytes: &[u8; 32]) -> (text: String)
    ensures
        text@ == hex_text(bytes@),
{
    let ghost digits = Seq::new(
        64,
        |k: int|
            if k % 2 == 0 {
                hex_digit((bytes@[k / 2] / 16) as nat)
            } else {
                hex_digit((bytes@[k / 2] % 16) as nat)
            },
    );
    let mut text = String::from_str("0x");
    proof {
        reveal_strlit("0x");
        assert(text@ =~= seq!['0', 'x'] + digits.take(0));
    }
    let mut i: usize = 0;
    while i < 32
        invariant
            i <= 32,
            digits == Seq::new(
                64,
                |k: int|
                    if k % 2 == 0 {
                        hex_digit((bytes@[k / 2] / 16) as nat)
                    } else {
                        hex_digit((bytes@[k / 2] % 16) as nat)
                    },
            ),
            text@ == seq!['0', 'x'] + digits.take(2 * i),
        decreases 32 - i,
    {
        let byte = bytes[i];
        let high = hex_digit_text(byte / 16);
        let low = hex_digit_text(byte % 16);
        proof {
            assert(digits.take(2 * i) + high@ + low@ =~= digits.take(2 * (i + 1)));
            assert((seq!['0', 'x'] + digits.take(2 * i)) + high@ + low@ =~= seq!['0', 'x'] + digits.take(
                2 * (i + 1),
            ));
        }
        text.append(high);
        text.append(low);
        i += 1;
    }
    assert(digits.take(64) =~= digits);
    text
}

} // verus!
