//! Numbers written out as text: the digits of partition indices and of
//! boot-entry numbers.

use vstd::prelude::*;
use vstd::string::*;

verus! {

/// The character of the digit `d`, for `d` below 16: `0` to `9`, then the
/// capital letters `A` to `F`.
pub open spec fn spec_digit(d: int) -> char {
    seq!['0', '1', '2', '3', '4', '5', '6', '7', '8', '9', 'A', 'B', 'C', 'D', 'E', 'F'][d]
}

/// The one-character text of a digit.
pub fn digit_str(d: u8) -> (s: &'static str)
    requires
        d < 16,
    ensures
        s@ == seq![spec_digit(d as int)],
{
    proof {
        reveal_strlit("0");
        reveal_strlit("1");
        reveal_strlit("2");
        reveal_strlit("3");
        reveal_strlit("4");
        reveal_strlit("5");
        reveal_strlit("6");
        reveal_strlit("7");
        reveal_strlit("8");
        reveal_strlit("9");
        reveal_strlit("A");
        reveal_strlit("B");
        reveal_strlit("C");
        reveal_strlit("D");
        reveal_strlit("E");
        reveal_strlit("F");
    }
    let s = match d {
        0 => "0",
        1 => "1",
        2 => "2",
        3 => "3",
        4 => "4",
        5 => "5",
        6 => "6",
        7 => "7",
        8 => "8",
        9 => "9",
        10 => "A",
        11 => "B",
        12 => "C",
        13 => "D",
        14 => "E",
        _ => "F",
    };
    assert(s@ =~= seq![spec_digit(d as int)]);
    s
}

/// The decimal digits of `n`, most significant first, without leading zeros.
pub open spec fn spec_decimal(n: nat) -> Seq<char>
    decreases n,
{
    if n < 10 {
        seq![spec_digit(n as int)]
    } else {
        spec_decimal(n / 10).push(spec_digit((n % 10) as int))
    }
}

/// Appends the decimal digits of `n` to `out`.
pub fn push_decimal(out: &mut String, n: u32)
    ensures
        final(out)@ == old(out)@ + spec_decimal(n as nat),
    decreases n,
{
    if n >= 10 {
        push_decimal(out, n / 10);
    }
    out.append(digit_str((n % 10) as u8));
    proof {
        let before = old(out)@;
        if n >= 10 {
            assert((before + spec_decimal((n / 10) as nat)) + seq![spec_digit((n % 10) as int)]
                =~= before + spec_decimal(n as nat));
        }
    }
}

/// The four hexadecimal digits of a 16-bit number, most significant first.
pub open spec fn spec_hex4(n: int) -> Seq<char> {
    seq![
        spec_digit(n / 0x1000),
        spec_digit((n / 0x100) % 0x10),
        spec_digit((n / 0x10) % 0x10),
        spec_digit(n % 0x10),
    ]
}

/// Appends the four hexadecimal digits of `n` to `out`.
pub fn push_hex4(out: &mut String, n: u16)
    ensures
        final(out)@ == old(out)@ + spec_hex4(n as int),
{
    out.append(digit_str((n / 0x1000) as u8));
    out.append(digit_str(((n / 0x100) % 0x10) as u8));
    out.append(digit_str(((n / 0x10) % 0x10) as u8));
    out.append(digit_str((n % 0x10) as u8));
    assert(out@ =~= old(out)@ + spec_hex4(n as int));
}

} // verus!
