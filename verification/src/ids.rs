//! Platform identifiers.
//!
//! A platform identifier is a UUID, held as the 128-bit number that its sixteen
//! bytes spell in big-endian order.

use vstd::prelude::*;

verus! {

/// The error of the `uuid` crate's parser.
#[verifier::external_type_specification]
#[verifier::external_body]
pub struct ExUuidError(uuid::Error);

/// What the `uuid` crate reads out of a text: the identifier it spells in one
/// of the crate's formats (32 hexadecimal digits, or the hyphenated form, bare,
/// in braces or after `urn:uuid:`), or nothing.
pub uninterp spec fn uuid_parsed(text: Seq<char>) -> Option<u128>;

/// A version-4 UUID from the `uuid` crate's `Uuid::new_v4`, as a number.
///
/// The value is drawn at random, so two calls are unrelated. Whatever is drawn,
/// the crate sets the version nibble to 4 and the variant bits to `10`. Where
/// the operating system has no randomness to give, the crate aborts.
#[verifier::external_body]
pub(crate) fn fresh_id() -> (id: u128)
    ensures
        id & 0x0000_0000_0000_f000_c000_0000_0000_0000u128
            == 0x0000_0000_0000_4000_8000_0000_0000_0000u128,
{
    uuid::Uuid::new_v4().as_u128()
}

/// The `uuid` crate's `Uuid::parse_str`, with the identifier handed out as a
/// number. The parser reads nothing but the text, so what it returns is
/// `uuid_parsed` of the text.
#[verifier::external_body]
fn parse_uuid(text: &str) -> (r: Result<u128, uuid::Error>)
    ensures
        match r {
            Ok(id) => uuid_parsed(text@) == Some(id),
            Err(_) => uuid_parsed(text@) is None,
        },
{
    match uuid::Uuid::parse_str(text) {
        Ok(id) => Ok(id.as_u128()),
        Err(e) => Err(e),
    }
}

/// The identifier that a text spells, if it spells one.
pub fn parse_id(text: &str) -> (r: Option<u128>)
    ensures
        r == uuid_parsed(text@),
{
    match parse_uuid(text) {
        Ok(id) => Some(id),
        Err(_) => None,
    }
}

/// The identifier that an optional text spells. A text that spells none counts
/// as absent: a reference to something that is gone degrades, it does not fail.
pub open spec fn lenient_id(text: Option<String>) -> Option<u128> {
    match text {
        Some(t) => uuid_parsed(t@),
        None => None,
    }
}

/// The identifier that an optional text spells, absent where it spells none.
pub fn parse_optional_id(text: &Option<String>) -> (r: Option<u128>)
    ensures
        r == lenient_id(*text),
{
    match text {
        Some(t) => parse_id(t.as_str()),
        None => None,
    }
}

} // verus!
