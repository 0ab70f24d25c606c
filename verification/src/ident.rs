//! Identifiers. Owners, devices, brokers and messages are named by 128-bit
//! numbers; on the wire and in topics they travel as hyphenated hexadecimal
//! text.

use vstd::prelude::*;

verus! {

/// The identifier that `uuid::Uuid::parse_str` reads from `text`, if it
/// accepts it.
pub uninterp spec fn uuid_parse(text: Seq<char>) -> Option<u128>;

/// The lower-case hexadecimal digit for `n`.
pub open spec fn hex_char(n: int) -> char {
    if n == 0 {
        '0'
    } else if n == 1 {
        '1'
    } else if n == 2 {
        '2'
    } else if n == 3 {
        '3'
    } else if n == 4 {
        '4'
    } else if n == 5 {
        '5'
    } else if n == 6 {
        '6'
    } else if n == 7 {
        '7'
    } else if n == 8 {
        '8'
    } else if n == 9 {
        '9'
    } else if n == 10 {
        'a'
    } else if n == 11 {
        'b'
    } else if n == 12 {
        'c'
    } else if n == 13 {
        'd'
    } else if n == 14 {
        'e'
    } else {
        'f'
    }
}

/// Sixteen to the power `n`.
pub open spec fn pow16(n: nat) -> nat
    decreases n,
{
    if n == 0 {
        1
    } else {
        16 * pow16((n - 1) as nat)
    }
}

/// The `k`-th of the 32 hexadecimal digits of `id`, the most significant first.
pub open spec fn hex_digit(id: u128, k: int) -> int {
    (id as int / pow16((31 - k) as nat) as int) % 16
}

/// Whether position `i` of the hyphenated text holds a hyphen.
pub open spec fn is_hyphen_at(i: int) -> bool {
    i == 8 || i == 13 || i == 18 || i == 23
}

/// How many hyphens stand before position `i` of the hyphenated text.
pub open spec fn hyphens_before(i: int) -> int {
    (if i > 8 { 1int } else { 0 }) + (if i > 13 { 1int } else { 0 }) + (if i > 18 { 1int } else { 0 }) + (if i > 23 {
        1int
    } else {
        0
    })
}

/// The hyphenated text of an identifier: 32 lower-case hexadecimal digits in
/// groups of 8, 4, 4, 4 and 12.
pub open spec fn uuid_text(id: u128) -> Seq<char> {
    Seq::new(
        36,
        |i: int|
            if is_hyphen_at(i) {
                '-'
            } else {
                hex_char(hex_digit(id, i - hyphens_before(i)))
            },
    )
}

/// Whether `text` is a spelling of `id` that can stand as one segment of a
/// topic.
pub open spec fn is_uuid_segment(text: Seq<char>, id: u128) -> bool {
    uuid_parse(text) == Some(id) && !text.contains('/')
}

/// The hyphenated text holds only digits, the letters a to f and hyphens.
pub proof fn lemma_uuid_text_no_slash(id: u128)
    ensures
        uuid_text(id).len() == 36,
        !uuid_text(id).contains('/'),
{
    let t = uuid_text(id);
    assert forall|i: int| 0 <= i < t.len() implies t[i] != '/' by {}
}

/// Reads an identifier with `uuid::Uuid::parse_str`. The contract names the
/// outcome and claims nothing of which spellings are accepted.
#[verifier::external_body]
pub(crate) fn parse_uuid(text: &str) -> (id: Option<u128>)
    ensures
        id == uuid_parse(text@),
{
    match uuid::Uuid::parse_str(text) {
        Ok(parsed) => Some(parsed.as_u128()),
        Err(_) => None,
    }
}

/// Writes an identifier with the `Display` of `uuid::Uuid`, which is the
/// hyphenated lower-case form. The contract claims that form, and that
/// `parse_str` reads it back as the same identifier.
#[verifier::external_body]
pub(crate) fn format_uuid(id: u128) -> (text: String)
    ensures
        text@ == uuid_text(id),
        uuid_parse(text@) == Some(id),
{
    uuid::Uuid::from_u128(id).to_string()
}

/// Whether `id` has the fixed bits of a random (version 4) identifier.
pub open spec fn is_random_uuid(id: u128) -> bool {
    (id as int / 0x1000_0000_0000_0000_0000int) % 16 == 4 && (id as int / 0x4000_0000_0000_0000int) % 4 == 2
}

/// Draws a fresh identifier with `uuid::Uuid::new_v4`. Which one comes back
/// is left open; the contract claims only the version and variant bits that
/// the generator sets on every outcome.
#[verifier::external_body]
pub(crate) fn random_uuid() -> (id: u128)
    ensures
        is_random_uuid(id),
{
    uuid::Uuid::new_v4().as_u128()
}

} // verus!
