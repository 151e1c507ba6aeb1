//! Record identifiers: 128-bit UUIDs, held as plain integers.

use vstd::prelude::*;

verus! {

/// The identifier that a text denotes, where it is the text of a UUID in one
/// of the forms that the `uuid` crate reads.
pub uninterp spec fn uuid_of_text(text: Seq<char>) -> Option<u128>;

/// One lower-case hexadecimal digit.
pub open spec fn hex_digit(d: nat) -> char {
    if d == 0 {
        '0'
    } else if d == 1 {
        '1'
    } else if d == 2 {
        '2'
    } else if d == 3 {
        '3'
    } else if d == 4 {
        '4'
    } else if d == 5 {
        '5'
    } else if d == 6 {
        '6'
    } else if d == 7 {
        '7'
    } else if d == 8 {
        '8'
    } else if d == 9 {
        '9'
    } else if d == 10 {
        'a'
    } else if d == 11 {
        'b'
    } else if d == 12 {
        'c'
    } else if d == 13 {
        'd'
    } else if d == 14 {
        'e'
    } else {
        'f'
    }
}

/// The lowest `digits` hexadecimal digits of `value`, most significant first.
pub open spec fn hex_text(value: nat, digits: nat) -> Seq<char>
    decreases digits,
{
    if digits == 0 {
        Seq::empty()
    } else {
        hex_text(value / 16, (digits - 1) as nat).push(hex_digit(value % 16))
    }
}

/// The hyphenated form of an identifier: 32 lower-case hexadecimal digits in
/// groups of 8, 4, 4, 4 and 12.
pub open spec fn hyphenated(id: u128) -> Seq<char> {
    hex_text(id as nat / 0x1_0000_0000_0000_0000_0000_0000, 8) + seq!['-'] + hex_text(
        id as nat / 0x1_0000_0000_0000_0000_0000,
        4,
    ) + seq!['-'] + hex_text(id as nat / 0x1_0000_0000_0000_0000, 4) + seq!['-'] + hex_text(
        id as nat / 0x1_0000_0000_0000,
        4,
    ) + seq!['-'] + hex_text(id as nat, 12)
}

/// `Uuid::parse_str` of the `uuid` crate, with the identifier taken as a
/// 128-bit integer by `Uuid::as_u128`. Whether a text is read, and as which
/// identifier, depends on the text alone.
#[verifier::external_body]
pub(crate) fn parse_uuid(text: &str) -> (id: Option<u128>)
    ensures
        id == uuid_of_text(text@),
{
    match uuid::Uuid::parse_str(text) {
        Ok(parsed) => Some(parsed.as_u128()),
        Err(_) => None,
    }
}

/// The `Display` form of `Uuid::from_u128(id)` of the `uuid` crate, which is
/// the hyphenated lower-case form.
#[verifier::external_body]
pub(crate) fn uuid_text(id: u128) -> (text: String)
    ensures
        text@ == hyphenated(id),
{
    uuid::Uuid::from_u128(id).to_string()
}

/// The identifier that `text` denotes, if it is the text of a UUID.
pub fn parse_id(text: &str) -> (id: Option<u128>)
    ensures
        id == uuid_of_text(text@),
{
    parse_uuid(text)
}

/// The hyphenated text of an identifier.
pub fn id_text(id: u128) -> (text: String)
    ensures
        text@ == hyphenated(id),
        text@.len() == 36,
{
    proof {
        lemma_hyphenated_len(id);
    }
    uuid_text(id)
}

/// `hex_text` yields as many characters as it is asked for.
pub proof fn lemma_hex_text_len(value: nat, digits: nat)
    ensures
        hex_text(value, digits).len() == digits,
    decreases digits,
{
    if digits > 0 {
        lemma_hex_text_len(value / 16, (digits - 1) as nat);
    }
}

/// The hyphenated form has 36 characters.
pub proof fn lemma_hyphenated_len(id: u128)
    ensures
        hyphenated(id).len() == 36,
{
    lemma_hex_text_len(id as nat / 0x1_0000_0000_0000_0000_0000_0000, 8);
    lemma_hex_text_len(id as nat / 0x1_0000_0000_0000_0000_0000, 4);
    lemma_hex_text_len(id as nat / 0x1_0000_0000_0000_0000, 4);
    lemma_hex_text_len(id as nat / 0x1_0000_0000_0000, 4);
    lemma_hex_text_len(id as nat, 12);
}

} // verus!
