//! Decimal and dotted-quad rendering of address bytes.

use vstd::prelude::*;
use vstd::utf8::is_ascii_chars;

verus! {

/// The character of one decimal digit.
pub open spec fn digit_char(d: int) -> char
    recommends
        0 <= d < 10,
{
    (d + 48) as u8 as char
}

/// The decimal numeral of `n`, without leading zeros.
pub open spec fn decimal(n: nat) -> Seq<char>
    decreases n,
{
    if n < 10 {
        seq![digit_char(n as int)]
    } else {
        decimal(n / 10).push(digit_char(n as int % 10))
    }
}

/// `String::push` of std: the string afterwards is the string before with
/// `ch` as one more character at its end.
pub assume_specification[ String::push ](s: &mut String, ch: char)
    ensures
        final(s)@ == old(s)@.push(ch),
;

/// Appends the decimal numeral of `octet` to `out`.
pub fn push_octet(out: &mut String, octet: u8)
    ensures
        final(out)@ == old(out)@ + decimal(octet as nat),
{
    if octet >= 100 {
        out.push((48 + octet / 100) as char);
    }
    if octet >= 10 {
        out.push((48 + (octet / 10) % 10) as char);
    }
    out.push((48 + octet % 10) as char);
    proof {
        reveal_with_fuel(decimal, 3);
    }
}

/// The dotted-quad text of an IPv4 address: its four bytes in decimal,
/// most significant first, with a full stop between them.
pub open spec fn dotted_quad(a: u8, b: u8, c: u8, d: u8) -> Seq<char> {
    decimal(a as nat) + seq!['.'] + decimal(b as nat) + seq!['.'] + decimal(c as nat) + seq!['.']
        + decimal(d as nat)
}

/// Renders an IPv4 address as dotted-quad text.
pub fn render_ipv4(a: u8, b: u8, c: u8, d: u8) -> (text: String)
    ensures
        text@ == dotted_quad(a, b, c, d),
{
    let mut text = String::new();
    push_octet(&mut text, a);
    text.push('.');
    push_octet(&mut text, b);
    text.push('.');
    push_octet(&mut text, c);
    text.push('.');
    push_octet(&mut text, d);
    text
}

/// The number that a character stands for as a decimal digit.
pub open spec fn digit_value(c: char) -> int {
    c as int - 48
}

/// The number that a decimal numeral writes.
pub open spec fn numeral_value(digits: Seq<char>) -> int
    decreases digits.len(),
{
    if digits.len() == 0 {
        0
    } else {
        numeral_value(digits.drop_last()) * 10 + digit_value(digits.last())
    }
}

/// The numeral of a number is made of decimal digits, has no leading zero
/// unless it is the single digit 0, and read as a numeral gives the number
/// back.
pub proof fn lemma_decimal_reads_back(n: nat)
    ensures
        numeral_value(decimal(n)) == n,
        decimal(n).len() >= 1,
        forall|i: int| 0 <= i < decimal(n).len() ==> 0 <= digit_value(#[trigger] decimal(n)[i]) <= 9,
        n > 0 ==> digit_value(decimal(n)[0]) != 0,
    decreases n,
{
    if n < 10 {
        assert(numeral_value(decimal(n)) == numeral_value(decimal(n).drop_last()) * 10
            + digit_value(decimal(n).last()));
    } else {
        let tens = decimal(n / 10);
        lemma_decimal_reads_back(n / 10);
        let last = digit_char(n as int % 10);
        assert(tens.push(last).drop_last() =~= tens);
    }
}

/// The numeral of a byte has one to three digits.
pub proof fn lemma_octet_numeral_is_short(octet: u8)
    ensures
        1 <= decimal(octet as nat).len() <= 3,
{
    reveal_with_fuel(decimal, 3);
}

/// Dotted-quad text is ASCII and at most fifteen characters long.
pub proof fn lemma_dotted_quad_is_short_ascii(a: u8, b: u8, c: u8, d: u8)
    ensures
        7 <= dotted_quad(a, b, c, d).len() <= 15,
        is_ascii_chars(dotted_quad(a, b, c, d)),
{
    lemma_octet_numeral_is_short(a);
    lemma_octet_numeral_is_short(b);
    lemma_octet_numeral_is_short(c);
    lemma_octet_numeral_is_short(d);
    lemma_decimal_reads_back(a as nat);
    lemma_decimal_reads_back(b as nat);
    lemma_decimal_reads_back(c as nat);
    lemma_decimal_reads_back(d as nat);
}

} // verus!
