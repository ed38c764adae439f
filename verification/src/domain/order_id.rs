//! Order identifiers: 128-bit UUIDs, held as integers.

use vstd::prelude::*;

verus! {

/// The identifier of an order: the 128 bits of a UUID, first byte highest.
pub type OrderId = u128;

/// The bits that every version 4 UUID has in common: version 4, variant 1.
pub open spec fn is_v4(id: OrderId) -> bool {
    id & 0x0000_0000_0000_f000_c000_0000_0000_0000u128
        == 0x0000_0000_0000_4000_8000_0000_0000_0000u128
}

/// The identifier that a text denotes, if it is the text of a UUID.
pub uninterp spec fn parsed_uuid(text: Seq<char>) -> Option<OrderId>;

/// The sixteen lower-case hexadecimal digits.
pub open spec fn hex_digits() -> Seq<char> {
    seq!['0', '1', '2', '3', '4', '5', '6', '7', '8', '9', 'a', 'b', 'c', 'd', 'e', 'f']
}

/// The `k`-th of the 32 four-bit groups of `id`, counted from the highest.
pub open spec fn nibble(id: OrderId, k: int) -> int {
    ((id >> ((4 * (31 - k)) as u128)) & 0xf) as int
}

/// How many hyphens stand before position `i` of a hyphenated UUID.
pub open spec fn hyphens_before(i: int) -> int {
    if i < 8 {
        0
    } else if i < 13 {
        1
    } else if i < 18 {
        2
    } else if i < 23 {
        3
    } else {
        4
    }
}

/// The hyphenated lower-case text of an identifier: 32 hexadecimal digits in
/// groups of 8, 4, 4, 4 and 12.
pub open spec fn hyphenated(id: OrderId) -> Seq<char> {
    Seq::new(
        36,
        |i: int|
            if i == 8 || i == 13 || i == 18 || i == 23 {
                '-'
            } else {
                hex_digits()[nibble(id, i - hyphens_before(i))]
            },
    )
}

/// `uuid::Error`: why a text was not read as a UUID.
#[verifier::external_type_specification]
#[verifier::external_body]
pub struct ExUuidError(uuid::Error);

/// `uuid::Uuid::new_v4`, read by `as_u128`. The bits are random but for the
/// version and variant, which the generator sets.
#[verifier::external_body]
fn random_uuid() -> (id: OrderId)
    ensures
        is_v4(id),
{
    uuid::Uuid::new_v4().as_u128()
}

/// `uuid::Uuid::parse_str`, read by `as_u128`. Whether a text parses, and to
/// which identifier, depends on the text alone.
#[verifier::external_body]
fn uuid_parse(text: &str) -> (r: Result<OrderId, uuid::Error>)
    ensures
        r is Ok <==> parsed_uuid(text@) is Some,
        r matches Ok(id) ==> parsed_uuid(text@) == Some(id),
{
    uuid::Uuid::parse_str(text).map(|u| u.as_u128())
}

/// The `Display` text of a `uuid::Error`.
#[verifier::external_body]
fn uuid_error_text(e: &uuid::Error) -> (s: String) {
    e.to_string()
}

/// `Display` of `uuid::Uuid::from_u128(id)`: the hyphenated lower-case form,
/// which `parse_str` reads back.
#[verifier::external_body]
fn uuid_text(id: OrderId) -> (s: String)
    ensures
        s@ == hyphenated(id),
        parsed_uuid(s@) == Some(id),
{
    uuid::Uuid::from_u128(id).to_string()
}

/// A fresh random identifier.
pub fn generate() -> (id: OrderId)
    ensures
        is_v4(id),
{
    random_uuid()
}

/// Reads an identifier from text. Fails, with the parser's message, exactly
/// on the texts that denote no UUID.
pub fn parse(text: &str) -> (r: Result<OrderId, String>)
    ensures
        r is Ok <==> parsed_uuid(text@) is Some,
        r matches Ok(id) ==> parsed_uuid(text@) == Some(id),
{
    match uuid_parse(text) {
        Ok(id) => Ok(id),
        Err(e) => Err(uuid_error_text(&e)),
    }
}

/// The hyphenated text of an identifier.
pub fn to_text(id: OrderId) -> (s: String)
    ensures
        s@ == hyphenated(id),
        parsed_uuid(s@) == Some(id),
{
    uuid_text(id)
}

} // verus!
