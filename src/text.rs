//! Text fields: exact comparison and unsigned decimal numbers.

use vstd::prelude::*;

verus! {

/// The value of an ASCII decimal digit.
pub open spec fn digit_value(c: char) -> nat {
    (c as nat - '0' as nat) as nat
}

pub open spec fn is_digit(c: char) -> bool {
    '0' <= c && c <= '9'
}

/// The digits of an unsigned number: the text without one leading `+`.
pub open spec fn unsigned_digits(s: Seq<char>) -> Seq<char> {
    if s.len() > 0 && s[0] == '+' {
        s.drop_first()
    } else {
        s
    }
}

/// Why a text does not read as an unsigned integer.
#[derive(Clone, Copy, Debug, PartialEq, Eq, Structural)]
pub enum IntegerError {
    /// The text is empty.
    Empty,
    /// A character that is not a decimal digit, or a sign with no digits.
    InvalidDigit,
    /// The digits, read from the left, exceed the largest value of the type.
    TooLarge,
}

/// Reads `d` from the left onto `acc`, stopping at the first character that is
/// not a digit or the first digit that takes the value past `max`.
pub open spec fn scan_digits(d: Seq<char>, max: nat, acc: nat) -> Result<nat, IntegerError>
    decreases d.len(),
{
    if d.len() == 0 {
        Ok(acc)
    } else if !is_digit(d[0]) {
        Err(IntegerError::InvalidDigit)
    } else if acc * 10 + digit_value(d[0]) > max {
        Err(IntegerError::TooLarge)
    } else {
        scan_digits(d.drop_first(), max, acc * 10 + digit_value(d[0]))
    }
}

/// What an unsigned integer type whose largest value is `max` reads from `s`:
/// an optional `+`, then one or more decimal digits, whose value fits.
pub open spec fn unsigned_read(s: Seq<char>, max: nat) -> Result<nat, IntegerError> {
    if s.len() == 0 {
        Err(IntegerError::Empty)
    } else if unsigned_digits(s).len() == 0 {
        Err(IntegerError::InvalidDigit)
    } else {
        scan_digits(unsigned_digits(s), max, 0)
    }
}

proof fn lemma_scan_digits_bound(d: Seq<char>, max: nat, acc: nat)
    requires
        acc <= max,
    ensures
        scan_digits(d, max, acc) matches Ok(v) ==> v <= max,
    decreases d.len(),
{
    if d.len() > 0 && is_digit(d[0]) && acc * 10 + digit_value(d[0]) <= max {
        lemma_scan_digits_bound(d.drop_first(), max, acc * 10 + digit_value(d[0]));
    }
}

/// A number read for a type never exceeds the type's largest value.
pub proof fn lemma_unsigned_read_bound(s: Seq<char>, max: nat)
    ensures
        unsigned_read(s, max) matches Ok(v) ==> v <= max,
{
    lemma_scan_digits_bound(unsigned_digits(s), max, 0);
}

/// Reads an unsigned decimal number no larger than `max`.
fn parse_unsigned(s: &str, max: u64) -> (r: Result<u64, IntegerError>)
    ensures
        r matches Ok(v) ==> v <= max && unsigned_read(s@, max as nat) == Ok::<nat, IntegerError>(
            v as nat,
        ),
        r matches Err(e) ==> unsigned_read(s@, max as nat) == Err::<nat, IntegerError>(e),
{
    let n = s.unicode_len();
    if n == 0 {
        return Err(IntegerError::Empty);
    }
    let mut start: usize = 0;
    if s.get_char(0) == '+' {
        start = 1;
    }
    let ghost d = unsigned_digits(s@);
    assert(d =~= s@.subrange(start as int, n as int));
    if start >= n {
        return Err(IntegerError::InvalidDigit);
    }
    let mut value: u64 = 0;
    let mut i: usize = start;
    while i < n
        invariant
            start <= i <= n,
            n == s@.len(),
            d == unsigned_digits(s@),
            d.len() > 0,
            scan_digits(d, max as nat, 0) == scan_digits(
                s@.subrange(i as int, n as int),
                max as nat,
                value as nat,
            ),
            value <= max,
        decreases n - i,
    {
        let ghost rest = s@.subrange(i as int, n as int);
        assert(rest.drop_first() =~= s@.subrange(i + 1, n as int));
        let c = s.get_char(i);
        assert(rest[0] == c);
        if !('0' <= c && c <= '9') {
            return Err(IntegerError::InvalidDigit);
        }
        let dv: u64 = (c as u64) - ('0' as u64);
        let next = match value.checked_mul(10) {
            Some(t) => t.checked_add(dv),
            None => None,
        };
        match next {
            Some(v) => {
                if v > max {
                    return Err(IntegerError::TooLarge);
                }
                value = v;
            },
            None => {
                return Err(IntegerError::TooLarge);
            },
        }
        i = i + 1;
    }
    assert(s@.subrange(i as int, n as int) =~= Seq::<char>::empty());
    Ok(value)
}

pub fn parse_u8(s: &str) -> (r: Result<u8, IntegerError>)
    ensures
        r matches Ok(v) ==> unsigned_read(s@, u8::MAX as nat) == Ok::<nat, IntegerError>(v as nat),
        r matches Err(e) ==> unsigned_read(s@, u8::MAX as nat) == Err::<nat, IntegerError>(e),
{
    match parse_unsigned(s, u8::MAX as u64) {
        Ok(v) => Ok(v as u8),
        Err(e) => Err(e),
    }
}

pub fn parse_u16(s: &str) -> (r: Result<u16, IntegerError>)
    ensures
        r matches Ok(v) ==> unsigned_read(s@, u16::MAX as nat) == Ok::<nat, IntegerError>(v as nat),
        r matches Err(e) ==> unsigned_read(s@, u16::MAX as nat) == Err::<nat, IntegerError>(e),
{
    match parse_unsigned(s, u16::MAX as u64) {
        Ok(v) => Ok(v as u16),
        Err(e) => Err(e),
    }
}

pub fn parse_u32(s: &str) -> (r: Result<u32, IntegerError>)
    ensures
        r matches Ok(v) ==> unsigned_read(s@, u32::MAX as nat) == Ok::<nat, IntegerError>(v as nat),
        r matches Err(e) ==> unsigned_read(s@, u32::MAX as nat) == Err::<nat, IntegerError>(e),
{
    match parse_unsigned(s, u32::MAX as u64) {
        Ok(v) => Ok(v as u32),
        Err(e) => Err(e),
    }
}

pub fn parse_u64(s: &str) -> (r: Result<u64, IntegerError>)
    ensures
        r matches Ok(v) ==> unsigned_read(s@, u64::MAX as nat) == Ok::<nat, IntegerError>(v as nat),
        r matches Err(e) ==> unsigned_read(s@, u64::MAX as nat) == Err::<nat, IntegerError>(e),
{
    parse_unsigned(s, u64::MAX)
}

/// Whether two texts hold the same characters.
pub fn same_text(a: &str, b: &str) -> (r: bool)
    ensures
        r == (a@ == b@),
{
    let n = a.unicode_len();
    if n != b.unicode_len() {
        return false;
    }
    let mut i: usize = 0;
    while i < n
        invariant
            n == a@.len() == b@.len(),
            i <= n,
            forall|j: int| 0 <= j < i ==> a@[j] == b@[j],
        decreases n - i,
    {
        if a.get_char(i) != b.get_char(i) {
            return false;
        }
        i = i + 1;
    }
    assert(a@ =~= b@);
    true
}

} // verus!
