//! Decimal rendering of integers, for the display summaries the library's
//! types offer in place of format machinery.

use vstd::prelude::*;
use vstd::string::StringExecFns;

verus! {

/// The character for one decimal digit.
pub open spec fn spec_digit_char(d: int) -> char {
    if d == 0 {
        '0'
    } else if d == 1 {
        '1'
    } else if d == 2 {
        '2'
    } else if d == 3 {
        '3'
    } else if d == 4 {
        '4'
    } else if d == 5 {
        '5'
    } else if d == 6 {
        '6'
    } else if d == 7 {
        '7'
    } else if d == 8 {
        '8'
    } else {
        '9'
    }
}

/// The decimal numeral of a non-negative integer, most significant digit
/// first, with no leading zeros (and "0" itself for zero).
pub open spec fn spec_decimal(n: int) -> Seq<char>
    decreases n,
{
    if n < 10 {
        seq![spec_digit_char(n)]
    } else {
        spec_decimal(n / 10).push(spec_digit_char(n % 10))
    }
}

/// Append one digit's character to a string.
fn append_digit(s: &mut String, d: u32)
    requires
        d < 10,
    ensures
        final(s)@ == old(s)@ + seq![spec_digit_char(d as int)],
{
    let piece: &str = match d {
        0 => "0",
        1 => "1",
        2 => "2",
        3 => "3",
        4 => "4",
        5 => "5",
        6 => "6",
        7 => "7",
        8 => "8",
        _ => "9",
    };
    proof {
        reveal_strlit("0");
        reveal_strlit("1");
        reveal_strlit("2");
        reveal_strlit("3");
        reveal_strlit("4");
        reveal_strlit("5");
        reveal_strlit("6");
        reveal_strlit("7");
        reveal_strlit("8");
        reveal_strlit("9");
        assert(piece@ =~= seq![spec_digit_char(d as int)]);
    }
    s.append(piece);
}

/// Append the decimal numeral of `n` to a string.
fn append_decimal(s: &mut String, n: u32)
    ensures
        final(s)@ == old(s)@ + spec_decimal(n as int),
    decreases n,
{
    if n >= 10 {
        append_decimal(s, n / 10);
    }
    append_digit(s, n % 10);
    proof {
        if n >= 10 {
            assert(s@ =~= old(s)@ + spec_decimal(n as int));
        } else {
            assert(s@ =~= old(s)@ + spec_decimal(n as int));
        }
    }
}

/// The decimal numeral of `n`, most significant digit first.
pub fn u32_to_decimal(n: u32) -> (r: String)
    ensures
        r@ == spec_decimal(n as int),
{
    let mut s = String::new();
    append_decimal(&mut s, n);
    proof {
        assert(s@ =~= spec_decimal(n as int));
    }
    s
}

/// The decimal numeral of a signed integer: a minus sign before the
/// magnitude for a negative one.
pub open spec fn spec_signed_decimal(n: int) -> Seq<char> {
    if n >= 0 {
        spec_decimal(n)
    } else {
        seq!['-'] + spec_decimal(-n)
    }
}

/// The decimal numeral of `n`, sign included.
pub fn i32_to_decimal(n: i32) -> (r: String)
    ensures
        r@ == spec_signed_decimal(n as int),
{
    if n >= 0 {
        u32_to_decimal(n as u32)
    } else {
        let mag: u32 = (-(n as i64)) as u32;
        let mut s = String::from_str("-");
        append_decimal(&mut s, mag);
        proof {
            reveal_strlit("-");
            assert(s@ =~= spec_signed_decimal(n as int));
        }
        s
    }
}

/// A bracketed, comma-separated list of the decimal numerals of a
/// sequence, without the brackets.
pub open spec fn spec_signed_list_items(s: Seq<i32>) -> Seq<char>
    decreases s.len(),
{
    if s.len() == 0 {
        Seq::<char>::empty()
    } else if s.len() == 1 {
        spec_signed_decimal(s[0] as int)
    } else {
        spec_signed_list_items(s.drop_last()) + ", "@ + spec_signed_decimal(s.last() as int)
    }
}

/// A bracketed, comma-separated list of the decimal numerals of a
/// sequence.
pub open spec fn spec_signed_list(s: Seq<i32>) -> Seq<char> {
    "["@ + spec_signed_list_items(s) + "]"@
}

/// The bracketed, comma-separated decimal rendering of a list of signed
/// integers.
pub fn i32_list_string(v: &Vec<i32>) -> (r: String)
    ensures
        r@ == spec_signed_list(v@),
{
    let mut s = String::from_str("[");
    let n: usize = v.len();
    let mut i: usize = 0;
    while i < n
        invariant
            n == v@.len(),
            i <= n,
            s@ == "["@ + spec_signed_list_items(v@.take(i as int)),
        decreases n - i,
    {
        if i > 0 {
            s.append(", ");
        }
        let d = i32_to_decimal(v[i]);
        s.append(d.as_str());
        proof {
            assert(v@.take(i as int + 1).drop_last() =~= v@.take(i as int));
            assert(v@.take(i as int + 1).last() == v@[i as int]);
            assert(s@ =~= "["@ + spec_signed_list_items(v@.take(i as int + 1)));
        }
        i = i + 1;
    }
    s.append("]");
    proof {
        assert(v@.take(n as int) =~= v@);
        assert(s@ =~= spec_signed_list(v@));
    }
    s
}

} // verus!
