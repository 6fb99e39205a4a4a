//! The text forms of a UUID.
//!
//! Reading and writing UUIDs is the work of the `uuid` crate. This module
//! states which strings it reads as which 128-bit number and which string it
//! writes for a number, and proves that reading gives back what was written.

use vstd::prelude::*;

verus! {

/// The sixteen hexadecimal digits, in lower case.
pub open spec fn hex_digits() -> Seq<char> {
    seq!['0', '1', '2', '3', '4', '5', '6', '7', '8', '9', 'a', 'b', 'c', 'd', 'e', 'f']
}

/// The number that a hexadecimal digit stands for, in either case.
pub open spec fn hex_value(c: char) -> Option<nat> {
    if '0' <= c && c <= '9' {
        Some((c as nat - '0' as nat) as nat)
    } else if 'a' <= c && c <= 'f' {
        Some((c as nat - 'a' as nat + 10) as nat)
    } else if 'A' <= c && c <= 'F' {
        Some((c as nat - 'A' as nat + 10) as nat)
    } else {
        None
    }
}

/// The `n` lowest hexadecimal digits of `v`, the most significant first.
pub open spec fn hex_text(v: nat, n: nat) -> Seq<char>
    decreases n,
{
    if n == 0 {
        Seq::empty()
    } else {
        hex_text(v / 16, (n - 1) as nat).push(hex_digits()[(v % 16) as int])
    }
}

/// The number that a string of hexadecimal digits denotes, the most
/// significant digit first; nothing if a character is no such digit.
pub open spec fn hex_number(s: Seq<char>) -> Option<nat>
    decreases s.len(),
{
    if s.len() == 0 {
        Some(0)
    } else {
        match (hex_number(s.drop_last()), hex_value(s.last())) {
            (Some(high), Some(low)) => Some(16 * high + low),
            _ => None,
        }
    }
}

/// Thirty-two digits in groups of 8, 4, 4, 4 and 12, with hyphens between.
pub open spec fn hyphenated(digits: Seq<char>) -> Seq<char> {
    digits.subrange(0, 8) + seq!['-'] + digits.subrange(8, 12) + seq!['-'] + digits.subrange(
        12,
        16,
    ) + seq!['-'] + digits.subrange(16, 20) + seq!['-'] + digits.subrange(20, 32)
}

/// The thirty-two characters between and around the hyphens of a string of
/// thirty-six whose characters 8, 13, 18 and 23 are hyphens.
pub open spec fn unhyphenated(s: Seq<char>) -> Option<Seq<char>> {
    if s.len() == 36 && s[8] == '-' && s[13] == '-' && s[18] == '-' && s[23] == '-' {
        Some(
            s.subrange(0, 8) + s.subrange(9, 13) + s.subrange(14, 18) + s.subrange(19, 23)
                + s.subrange(24, 36),
        )
    } else {
        None
    }
}

/// Whether `s` is `urn:uuid:`, in any mix of cases.
pub open spec fn is_urn_prefix(s: Seq<char>) -> bool {
    &&& s.len() == 9
    &&& (s[0] == 'u' || s[0] == 'U')
    &&& (s[1] == 'r' || s[1] == 'R')
    &&& (s[2] == 'n' || s[2] == 'N')
    &&& s[3] == ':'
    &&& (s[4] == 'u' || s[4] == 'U')
    &&& (s[5] == 'u' || s[5] == 'U')
    &&& (s[6] == 'i' || s[6] == 'I')
    &&& (s[7] == 'd' || s[7] == 'D')
    &&& s[8] == ':'
}

/// The thirty-two characters in which a string of one of the four accepted
/// shapes holds its digits: bare, hyphenated, hyphenated in braces, or
/// hyphenated behind `urn:uuid:`.
pub open spec fn uuid_digits(s: Seq<char>) -> Option<Seq<char>> {
    if s.len() == 32 {
        Some(s)
    } else if s.len() == 36 {
        unhyphenated(s)
    } else if s.len() == 38 && s.first() == '{' && s.last() == '}' {
        unhyphenated(s.subrange(1, 37))
    } else if s.len() == 45 && is_urn_prefix(s.subrange(0, 9)) {
        unhyphenated(s.subrange(9, 45))
    } else {
        None
    }
}

/// The UUID that a string denotes, if it denotes one.
pub open spec fn uuid_value(s: Seq<char>) -> Option<u128> {
    match uuid_digits(s) {
        Some(digits) => match hex_number(digits) {
            Some(v) => Some(v as u128),
            None => None,
        },
        None => None,
    }
}

/// The canonical text of a UUID: hyphenated, in lower case.
pub open spec fn uuid_text(id: u128) -> Seq<char> {
    hyphenated(hex_text(id as nat, 32))
}

/// Sixteen to the power of `n`.
pub open spec fn sixteen_to(n: nat) -> nat
    decreases n,
{
    if n == 0 {
        1
    } else {
        16 * sixteen_to((n - 1) as nat)
    }
}

/// Each of the sixteen digits stands for its own index.
pub proof fn lemma_digit_value(d: nat)
    requires
        d < 16,
    ensures
        hex_value(hex_digits()[d as int]) == Some(d),
        hex_digits()[d as int] != '/',
        hex_digits()[d as int] != '-',
{
    let table = hex_digits();
    assert(table[0] == '0' && table[1] == '1' && table[2] == '2' && table[3] == '3');
    assert(table[4] == '4' && table[5] == '5' && table[6] == '6' && table[7] == '7');
    assert(table[8] == '8' && table[9] == '9' && table[10] == 'a' && table[11] == 'b');
    assert(table[12] == 'c' && table[13] == 'd' && table[14] == 'e' && table[15] == 'f');
}

/// A number written with `n` digits has `n` characters, none of them a slash.
pub proof fn lemma_hex_text_shape(v: nat, n: nat)
    ensures
        hex_text(v, n).len() == n,
        forall|i: int| 0 <= i < n ==> hex_text(v, n)[i] != '/',
    decreases n,
{
    if n > 0 {
        lemma_hex_text_shape(v / 16, (n - 1) as nat);
        lemma_digit_value(v % 16);
    }
}

/// A number below the `n`-th power of sixteen is read back from its `n`
/// digits.
pub proof fn lemma_hex_number_of_text(v: nat, n: nat)
    requires
        v < sixteen_to(n),
    ensures
        hex_number(hex_text(v, n)) == Some(v),
    decreases n,
{
    if n > 0 {
        let text = hex_text(v, n);
        let shorter = hex_text(v / 16, (n - 1) as nat);
        lemma_hex_text_shape(v / 16, (n - 1) as nat);
        assert(text.drop_last() == shorter);
        assert(text.last() == hex_digits()[(v % 16) as int]);
        lemma_hex_number_of_text(v / 16, (n - 1) as nat);
        lemma_digit_value(v % 16);
    }
}

/// The canonical text of a UUID has thirty-six characters and no slash, and
/// reads back as the same UUID.
pub proof fn lemma_uuid_text(id: u128)
    ensures
        uuid_text(id).len() == 36,
        forall|i: int| 0 <= i < 36 ==> uuid_text(id)[i] != '/',
        uuid_value(uuid_text(id)) == Some(id),
{
    let digits = hex_text(id as nat, 32);
    let text = uuid_text(id);
    lemma_hex_text_shape(id as nat, 32);
    assert(unhyphenated(text) == Some(digits)) by {
        assert(text.subrange(0, 8) + text.subrange(9, 13) + text.subrange(14, 18) + text.subrange(
            19,
            23,
        ) + text.subrange(24, 36) =~= digits);
    }
    assert(sixteen_to(32) == 0x1_0000_0000_0000_0000_0000_0000_0000_0000) by {
        reveal_with_fuel(sixteen_to, 33);
    }
    lemma_hex_number_of_text(id as nat, 32);
    assert forall|i: int| 0 <= i < 36 implies text[i] != '/' by {
        if i < 8 {
            assert(text[i] == digits[i]);
        } else if 9 <= i < 13 {
            assert(text[i] == digits[i - 1]);
        } else if 14 <= i < 18 {
            assert(text[i] == digits[i - 2]);
        } else if 19 <= i < 23 {
            assert(text[i] == digits[i - 3]);
        } else if 24 <= i {
            assert(text[i] == digits[i - 4]);
        }
    }
}

/// `uuid::Uuid::from_u128` and the `Display` of the UUID: the canonical text
/// of the UUID whose bytes are those of `id`, the most significant first.
#[verifier::external_body]
pub(crate) fn uuid_to_text(id: u128) -> (text: String)
    ensures
        text@ == uuid_text(id),
{
    uuid::Uuid::from_u128(id).to_string()
}

/// `uuid::Uuid::parse_str`, which `from_str` calls, and `as_u128`: the UUID
/// that `text` denotes in one of the four accepted shapes, or nothing.
#[verifier::external_body]
pub(crate) fn uuid_from_text(text: &str) -> (id: Option<u128>)
    ensures
        id == uuid_value(text@),
{
    match uuid::Uuid::parse_str(text) {
        Ok(id) => Some(id.as_u128()),
        Err(_) => None,
    }
}

/// `uuid::Uuid::new_v4`: a UUID drawn at random.
#[verifier::external_body]
pub(crate) fn random_uuid() -> (id: u128) {
    uuid::Uuid::new_v4().as_u128()
}

} // verus!
