//! UUIDs stored as values: a UUID is written as its lowercase hyphenated text.
//!
//! A UUID is handled here as its 128-bit big-endian number, the form in which
//! `uuid::Uuid::as_u128` and `uuid::Uuid::from_u128` give and take it.
use vstd::prelude::*;
use uuid::Uuid;
use crate::error::Error;
use crate::text::{digit_char, owned};
use super::value::{Value, ValueView};

verus! {

/// Lower-case hexadecimal digit for a value below sixteen.
pub open spec fn hex_lower(d: nat) -> char {
    if d < 10 { digit_char(d) }
    else if d == 10 { 'a' }
    else if d == 11 { 'b' }
    else if d == 12 { 'c' }
    else if d == 13 { 'd' }
    else if d == 14 { 'e' }
    else { 'f' }
}

/// The `k` lowest hexadecimal digits of `n`, most significant first.
pub open spec fn hex_digits(n: nat, k: nat) -> Seq<char>
    decreases k,
{
    if k == 0 {
        Seq::empty()
    } else {
        hex_digits(n / 16, (k - 1) as nat).push(hex_lower(n % 16))
    }
}

/// The hyphenated form of a UUID: its 32 hexadecimal digits in groups of 8, 4, 4,
/// 4 and 12, separated by `-`.
pub open spec fn uuid_hyphenated(id: u128) -> Seq<char> {
    let s = hex_digits(id as nat, 32);
    s.subrange(0, 8) + "-"@ + s.subrange(8, 12) + "-"@ + s.subrange(12, 16) + "-"@
        + s.subrange(16, 20) + "-"@ + s.subrange(20, 32)
}

/// Whether a character is an ASCII hexadecimal digit, in either case.
pub open spec fn is_hex_char(c: char) -> bool {
    ||| '0' as u32 <= c as u32 && c as u32 <= '9' as u32
    ||| 'a' as u32 <= c as u32 && c as u32 <= 'f' as u32
    ||| 'A' as u32 <= c as u32 && c as u32 <= 'F' as u32
}

/// The number a hexadecimal digit stands for.
pub open spec fn hex_char_value(c: char) -> nat {
    if c as u32 <= '9' as u32 {
        (c as u32 - '0' as u32) as nat
    } else if c as u32 <= 'F' as u32 {
        (c as u32 - 'A' as u32 + 10) as nat
    } else {
        (c as u32 - 'a' as u32 + 10) as nat
    }
}

/// The number written by hexadecimal digits, most significant first.
pub open spec fn hex_number(h: Seq<char>) -> nat
    decreases h.len(),
{
    if h.len() == 0 {
        0
    } else {
        hex_number(h.drop_last()) * 16 + hex_char_value(h.last())
    }
}

/// The UUID written by exactly 32 hexadecimal digits.
pub open spec fn hex32_value(h: Seq<char>) -> Option<u128> {
    if h.len() == 32 && forall|i: int| 0 <= i < 32 ==> is_hex_char(#[trigger] h[i]) {
        Some(hex_number(h) as u128)
    } else {
        None
    }
}

/// The digits of a hyphenated UUID: the text without its hyphens at 8, 13, 18
/// and 23.
pub open spec fn hyphen_groups(s: Seq<char>) -> Seq<char> {
    s.subrange(0, 8) + s.subrange(9, 13) + s.subrange(14, 18) + s.subrange(19, 23) + s.subrange(24, 36)
}

/// The UUID written in the hyphenated form: 36 characters with hyphens at 8, 13,
/// 18 and 23, the others hexadecimal digits.
pub open spec fn hyphenated_value(s: Seq<char>) -> Option<u128> {
    if s.len() == 36 && s[8] == '-' && s[13] == '-' && s[18] == '-' && s[23] == '-' {
        hex32_value(hyphen_groups(s))
    } else {
        None
    }
}

/// Whether a character is a lowercase ASCII letter.
pub open spec fn is_ascii_lower(c: char) -> bool {
    'a' as u32 <= c as u32 && c as u32 <= 'z' as u32
}

/// Whether nine characters spell `urn:uuid:`, letters in either case.
pub open spec fn urn_prefix(p: Seq<char>) -> bool {
    let urn = "urn:uuid:"@;
    &&& p.len() == 9
    &&& forall|i: int| 0 <= i < 9 ==> (#[trigger] p[i] == urn[i] || (is_ascii_lower(urn[i]) && p[i] as u32 + 32 == urn[i] as u32))
}

/// The UUID that `uuid::Uuid::parse_str` reads from a text, when it accepts it:
/// 32 hexadecimal digits; the hyphenated form; the hyphenated form in braces; or
/// the hyphenated form after `urn:uuid:` in either case. Only ASCII text is read.
pub open spec fn uuid_parsed(s: Seq<char>) -> Option<u128> {
    if exists|i: int| 0 <= i < s.len() && #[trigger] s[i] as u32 >= 128 {
        None
    } else if s.len() == 32 {
        hex32_value(s)
    } else if s.len() == 36 {
        hyphenated_value(s)
    } else if s.len() == 38 {
        if s[0] == '{' && s[37] == '}' { hyphenated_value(s.subrange(1, 37)) } else { None }
    } else if s.len() == 45 {
        if urn_prefix(s.take(9)) { hyphenated_value(s.skip(9)) } else { None }
    } else {
        None
    }
}

/// Sixteen to the power `k`.
pub open spec fn pow16(k: nat) -> nat
    decreases k,
{
    if k == 0 { 1 } else { 16 * pow16((k - 1) as nat) }
}

proof fn lemma_pow16_positive(k: nat)
    ensures
        pow16(k) > 0,
    decreases k,
{
    if k > 0 {
        lemma_pow16_positive((k - 1) as nat);
    }
}

proof fn lemma_hex_lower(d: nat)
    requires
        d < 16,
    ensures
        is_hex_char(hex_lower(d)),
        hex_char_value(hex_lower(d)) == d,
        (hex_lower(d) as u32) < 128,
        hex_lower(d) != '-',
{
}

proof fn lemma_hex_digits(n: nat, k: nat)
    ensures
        hex_digits(n, k).len() == k,
        forall|i: int| 0 <= i < k ==> is_hex_char(#[trigger] hex_digits(n, k)[i])
            && (hex_digits(n, k)[i] as u32) < 128 && hex_digits(n, k)[i] != '-',
        hex_number(hex_digits(n, k)) == n % pow16(k),
    decreases k,
{
    if k > 0 {
        lemma_hex_digits(n / 16, (k - 1) as nat);
        lemma_hex_lower(n % 16);
        lemma_pow16_positive((k - 1) as nat);
        let s = hex_digits(n, k);
        assert(s.drop_last() =~= hex_digits(n / 16, (k - 1) as nat));
        vstd::arithmetic::div_mod::lemma_mod_breakdown(n as int, 16, pow16((k - 1) as nat) as int);
        assert(hex_number(s) == ((n / 16) % pow16((k - 1) as nat)) * 16 + n % 16);
        assert(16 * ((n as int / 16) % pow16((k - 1) as nat) as int) == ((n / 16) % pow16((k - 1) as nat)) * 16);
    }
}

/// The hyphenated form of a UUID reads back as the same UUID.
pub proof fn lemma_uuid_round_trip(id: u128)
    ensures
        uuid_parsed(uuid_hyphenated(id)) == Some(id),
{
    let h = hex_digits(id as nat, 32);
    lemma_hex_digits(id as nat, 32);
    reveal_strlit("-");
    let s = uuid_hyphenated(id);
    assert(s.len() == 36);
    assert(hyphen_groups(s) =~= h);
    assert forall|i: int| 0 <= i < s.len() implies (s[i] as u32) < 128 by {
        if i < 8 { assert(s[i] == h[i]); }
        else if i == 8 || i == 13 || i == 18 || i == 23 { }
        else if i < 13 { assert(s[i] == h[i - 1]); }
        else if i < 18 { assert(s[i] == h[i - 2]); }
        else if i < 23 { assert(s[i] == h[i - 3]); }
        else { assert(s[i] == h[i - 4]); }
    }
    reveal_with_fuel(pow16, 33);
    assert(pow16(32) == 0x1_0000_0000_0000_0000_0000_0000_0000_0000);
    assert(hex_number(h) == id as nat);
}

/// `uuid::Uuid::from_u128(id).to_string()`: the lowercase hyphenated form of the
/// UUID.
#[verifier::external_body]
fn uuid_string(id: u128) -> (res: String)
    ensures
        res@ == uuid_hyphenated(id),
{
    Uuid::from_u128(id).to_string()
}

/// `uuid::Uuid::parse_str(s)`, the UUID as its number: `None` where the crate
/// returns an error.
#[verifier::external_body]
fn parse_uuid(s: &str) -> (res: Option<u128>)
    ensures
        res == uuid_parsed(s@),
{
    match Uuid::parse_str(s) {
        Ok(u) => Some(u.as_u128()),
        Err(_) => None,
    }
}

/// The error of a value that is not a UUID.
pub open spec fn is_uuid_error(e: Error) -> bool {
    e matches Error::TryFromValueError { field } && field@ == "uuid"@
}

/// The value of a UUID: its hyphenated text, which reads back as the same UUID.
pub fn uuid_to_value(id: u128) -> (res: Value)
    ensures
        res@ == ValueView::Text(uuid_hyphenated(id)),
        uuid_parsed(uuid_hyphenated(id)) == Some(id),
{
    proof { lemma_uuid_round_trip(id); }
    Value::Text(uuid_string(id))
}

/// The UUID of a value: text that `uuid` parses as a UUID, an error otherwise.
pub fn uuid_from_value(value: Value) -> (res: Result<u128, Error>)
    ensures
        match value@ {
            ValueView::Text(s) => match uuid_parsed(s) {
                Some(id) => res == Ok::<u128, Error>(id),
                None => (res matches Err(e) && is_uuid_error(e)),
            },
            _ => (res matches Err(e) && is_uuid_error(e)),
        },
{
    match value {
        Value::Text(s) => match parse_uuid(s.as_str()) {
            Some(id) => Ok(id),
            None => Err(Error::TryFromValueError { field: owned("uuid") }),
        },
        _ => Err(Error::TryFromValueError { field: owned("uuid") }),
    }
}

} // verus!
