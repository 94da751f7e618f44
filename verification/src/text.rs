//! Verified text building: appending characters and decimal numbers to
//! strings, and small character transformations.

use vstd::prelude::*;
use vstd::string::StrSliceExecFns;

verus! {

/// Relies on `String::push`: appends exactly the given character at the
/// end of the string.
#[verifier::external_body]
pub fn push_char(s: &mut String, c: char)
    ensures
        final(s)@ == old(s)@.push(c),
{
    s.push(c);
}

/// The character of one decimal digit.
pub open spec fn spec_digit(d: nat) -> char {
    if d == 0 {
        '0'
    } else if d == 1 {
        '1'
    } else if d == 2 {
        '2'
    } else if d == 3 {
        '3'
    } else if d == 4 {
        '4'
    } else if d == 5 {
        '5'
    } else if d == 6 {
        '6'
    } else if d == 7 {
        '7'
    } else if d == 8 {
        '8'
    } else {
        '9'
    }
}

/// The decimal writing of a number: its digits in order, without leading
/// zeros, a single zero for zero itself.
pub open spec fn spec_decimal(n: nat) -> Seq<char>
    decreases n,
{
    if n < 10 {
        seq![spec_digit(n)]
    } else {
        spec_decimal(n / 10).push(spec_digit(n % 10))
    }
}

/// The character of one decimal digit.
fn digit_char(d: u128) -> (r: char)
    requires
        d < 10,
    ensures
        r == spec_digit(d as nat),
{
    match d {
        0 => '0',
        1 => '1',
        2 => '2',
        3 => '3',
        4 => '4',
        5 => '5',
        6 => '6',
        7 => '7',
        8 => '8',
        _ => '9',
    }
}

/// Appends the decimal writing of `n`.
pub fn push_decimal(out: &mut String, n: u128)
    ensures
        final(out)@ == old(out)@ + spec_decimal(n as nat),
    decreases n,
{
    if n < 10 {
        push_char(out, digit_char(n));
        proof {
            assert(out@ =~= old(out)@ + spec_decimal(n as nat));
        }
    } else {
        push_decimal(out, n / 10);
        push_char(out, digit_char(n % 10));
        proof {
            assert(out@ =~= old(out)@ + spec_decimal(n as nat));
        }
    }
}

/// The ASCII upper-case counterpart of a character; characters outside
/// the lower-case ASCII letters stay as they are.
pub open spec fn spec_ascii_uppercase(c: char) -> char {
    if c == 'a' {
        'A'
    } else if c == 'b' {
        'B'
    } else if c == 'c' {
        'C'
    } else if c == 'd' {
        'D'
    } else if c == 'e' {
        'E'
    } else if c == 'f' {
        'F'
    } else if c == 'g' {
        'G'
    } else if c == 'h' {
        'H'
    } else if c == 'i' {
        'I'
    } else if c == 'j' {
        'J'
    } else if c == 'k' {
        'K'
    } else if c == 'l' {
        'L'
    } else if c == 'm' {
        'M'
    } else if c == 'n' {
        'N'
    } else if c == 'o' {
        'O'
    } else if c == 'p' {
        'P'
    } else if c == 'q' {
        'Q'
    } else if c == 'r' {
        'R'
    } else if c == 's' {
        'S'
    } else if c == 't' {
        'T'
    } else if c == 'u' {
        'U'
    } else if c == 'v' {
        'V'
    } else if c == 'w' {
        'W'
    } else if c == 'x' {
        'X'
    } else if c == 'y' {
        'Y'
    } else if c == 'z' {
        'Z'
    } else {
        c
    }
}

/// The given text with its first character in ASCII upper case.
pub open spec fn spec_uppercase_first(s: Seq<char>) -> Seq<char> {
    if s.len() == 0 {
        s
    } else {
        seq![spec_ascii_uppercase(s[0])] + s.skip(1)
    }
}

/// The ASCII upper-case counterpart of a character.
fn ascii_uppercase(c: char) -> (r: char)
    ensures
        r == spec_ascii_uppercase(c),
{
    match c {
        'a' => 'A',
        'b' => 'B',
        'c' => 'C',
        'd' => 'D',
        'e' => 'E',
        'f' => 'F',
        'g' => 'G',
        'h' => 'H',
        'i' => 'I',
        'j' => 'J',
        'k' => 'K',
        'l' => 'L',
        'm' => 'M',
        'n' => 'N',
        'o' => 'O',
        'p' => 'P',
        'q' => 'Q',
        'r' => 'R',
        's' => 'S',
        't' => 'T',
        'u' => 'U',
        'v' => 'V',
        'w' => 'W',
        'x' => 'X',
        'y' => 'Y',
        'z' => 'Z',
        _ => c,
    }
}

/// Returns the given text with its first character in ASCII upper case.
pub fn uppercase_first(data: &str) -> (r: String)
    ensures
        r@ == spec_uppercase_first(data@),
{
    let n = data.unicode_len();
    let mut result = String::new();
    let mut first = true;
    let mut i: usize = 0;
    while i < n
        invariant
            n == data@.len(),
            i <= n,
            first == (i == 0),
            result@ == spec_uppercase_first(data@).take(i as int),
        decreases n - i,
    {
        let value = data.get_char(i);
        if first {
            push_char(&mut result, ascii_uppercase(value));
            first = false;
        } else {
            push_char(&mut result, value);
        }
        proof {
            assert(spec_uppercase_first(data@).len() == data@.len());
            assert(spec_uppercase_first(data@)[i as int] == if i == 0 {
                spec_ascii_uppercase(data@[0])
            } else {
                data@[i as int]
            });
            assert(result@ =~= spec_uppercase_first(data@).take(i + 1 as int));
        }
        i = i + 1;
    }
    proof {
        assert(spec_uppercase_first(data@).take(spec_uppercase_first(data@).len() as int)
            =~= spec_uppercase_first(data@));
    }
    result
}

} // verus!
