//! Text of numbers.

use vstd::prelude::*;
use vstd::string::*;

verus! {

/// The character of a hexadecimal digit, in upper case.
pub open spec fn hex_char(d: int) -> char {
    if d < 10 {
        (d + '0' as int) as char
    } else {
        (d - 10 + 'A' as int) as char
    }
}

/// The decimal digits of `n`, most significant first, without leading zeros.
pub open spec fn digits(n: nat) -> Seq<char>
    decreases n,
{
    if n < 10 {
        seq![hex_char(n as int)]
    } else {
        digits(n / 10).push(hex_char((n % 10) as int))
    }
}

/// `n` in decimal, with a minus sign where it is negative.
pub open spec fn decimal(n: int) -> Seq<char> {
    if n < 0 {
        seq!['-'] + digits((-n) as nat)
    } else {
        digits(n as nat)
    }
}

/// The upper-case text of a hexadecimal digit.
pub(crate) fn digit_text(d: u8) -> (text: &'static str)
    requires
        d < 16,
    ensures
        text@ == seq![hex_char(d as int)],
{
    proof {
        reveal_strlit("0");
        reveal_strlit("1");
        reveal_strlit("2");
        reveal_strlit("3");
        reveal_strlit("4");
        reveal_strlit("5");
        reveal_strlit("6");
        reveal_strlit("7");
        reveal_strlit("8");
        reveal_strlit("9");
        reveal_strlit("A");
        reveal_strlit("B");
        reveal_strlit("C");
        reveal_strlit("D");
        reveal_strlit("E");
        reveal_strlit("F");
    }
    let text: &'static str = match d {
        0 => "0",
        1 => "1",
        2 => "2",
        3 => "3",
        4 => "4",
        5 => "5",
        6 => "6",
        7 => "7",
        8 => "8",
        9 => "9",
        10 => "A",
        11 => "B",
        12 => "C",
        13 => "D",
        14 => "E",
        _ => "F",
    };
    assert(text@ =~= seq![hex_char(d as int)]);
    text
}

/// Writes the digits of `n` behind `out`.
fn append_digits(out: &mut String, n: u64)
    ensures
        final(out)@ == old(out)@ + digits(n as nat),
    decreases n,
{
    let ghost before = out@;
    if n < 10 {
        out.append(digit_text(n as u8));
    } else {
        append_digits(out, n / 10);
        out.append(digit_text((n % 10) as u8));
        assert(out@ =~= before + digits(n as nat));
    }
}

/// Writes `n` in decimal behind `out`.
pub fn append_decimal(out: &mut String, n: i32)
    ensures
        final(out)@ == old(out)@ + decimal(n as int),
{
    let ghost before = out@;
    let wide: i64 = n as i64;
    if wide < 0 {
        proof {
            reveal_strlit("-");
        }
        out.append("-");
        append_digits(out, (-wide) as u64);
        assert(out@ =~= before + decimal(n as int));
    } else {
        append_digits(out, wide as u64);
    }
}

/// `n` in decimal.
pub fn decimal_text(n: i32) -> (text: String)
    ensures
        text@ == decimal(n as int),
{
    let mut text: String = String::new();
    append_decimal(&mut text, n);
    assert(text@ =~= decimal(n as int));
    text
}

/// Whether two texts hold the same characters.
pub fn same_text(a: &str, b: &str) -> (same: bool)
    ensures
        same == (a@ == b@),
{
    a.to_owned() == b.to_owned()
}

/// A digit is written as itself: the ten decimal ones, then six letters in the
/// order of the alphabet.
pub proof fn digits_are_written_in_order(d: int)
    ensures
        0 <= d < 10 ==> hex_char(d) as int == '0' as int + d,
        10 <= d < 16 ==> hex_char(d) as int == 'A' as int + (d - 10),
{
}

/// A number below ten is one digit, and a digit behind a number is written
/// behind it.
pub proof fn a_digit_behind_a_number_is_written_behind_it(n: nat, d: nat)
    requires
        d < 10,
    ensures
        digits(d).len() == 1,
        digits(d)[0] as int == '0' as int + d,
        n > 0 ==> digits((10 * n + d) as nat).drop_last() == digits(n),
        n > 0 ==> digits((10 * n + d) as nat).last() as int == '0' as int + d,
{
    if n > 0 {
        assert((10 * n + d) / 10 == n);
        assert((10 * n + d) % 10 == d);
        assert(digits((10 * n + d) as nat).drop_last() =~= digits(n));
    }
}

/// A number that is not negative is its digits; a negative one has a minus sign
/// in front of those of its opposite.
pub proof fn a_minus_sign_marks_negative_numbers(n: nat)
    ensures
        decimal(n as int) == digits(n),
        n > 0 ==> decimal(-n).len() == digits(n).len() + 1,
        n > 0 ==> decimal(-n)[0] == '-',
        n > 0 ==> decimal(-n).skip(1) == digits(n),
{
    if n > 0 {
        assert(decimal(-n).skip(1) =~= digits(n));
    }
}

/// The text of a number is its digits, after a minus sign for a negative one,
/// and texts are the same exactly where their characters are.
pub proof fn a_number_is_written_with_its_sign(
    n: i32,
    text: String,
    a: &'static str,
    b: &'static str,
    same: bool,
)
    requires
        call_ensures(decimal_text, (n,), text),
        call_ensures(same_text, (a, b), same),
    ensures
        n >= 0 ==> text@ == digits(n as nat),
        n < 0 ==> text@ == seq!['-'] + digits((-n) as nat),
        same <==> a@ == b@,
{
}

} // verus!
