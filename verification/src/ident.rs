//! Identifiers of stored rows: 128-bit values written as UUID text.

use crate::error::{Error, ErrorKind, ErrorView};
use crate::text::joined;
use vstd::prelude::*;

verus! {

/// The nil identifier: all bits zero. No stored row carries it.
pub const NIL: u128 = 0;

/// The bits that hold a UUID's version and variant.
pub const VERSION_MASK: u128 = 0x0000_0000_0000_f000_c000_0000_0000_0000;

/// Version 4 (random), in the variant of RFC 9562.
pub const VERSION_RANDOM: u128 = 0x0000_0000_0000_4000_8000_0000_0000_0000;

/// The identifier that `uuid::Uuid::parse_str` reads from a text, or `None`
/// where it rejects the text.
pub uninterp spec fn uuid_text_value(s: Seq<char>) -> Option<u128>;

/// The text that `uuid::Uuid` prints for an identifier through `Debug`.
pub uninterp spec fn uuid_text(id: u128) -> Seq<char>;

/// Calls `uuid::Uuid::parse_str`, which accepts the simple, hyphenated, braced
/// and URN forms. The contract claims only that the outcome is a function of
/// the text: it gives that function its name.
#[verifier::external_body]
fn uuid_parse(s: &str) -> (r: Option<u128>)
    ensures
        r == uuid_text_value(s@),
{
    match uuid::Uuid::parse_str(s) {
        Ok(id) => Some(id.as_u128()),
        Err(_) => None,
    }
}

/// Calls `uuid::Uuid::new_v4`, which draws 128 random bits from the operating
/// system and overwrites six of them with the version and the variant. The
/// contract claims those six bits and nothing of the others. The call panics
/// where the operating system has no randomness to give.
#[verifier::external_body]
fn uuid_random() -> (r: u128)
    ensures
        r & VERSION_MASK == VERSION_RANDOM,
{
    uuid::Uuid::new_v4().as_u128()
}

/// Formats an identifier through `uuid::Uuid`'s `Debug` impl, which prints the
/// hyphenated lower-case form. The contract gives that text its name.
#[verifier::external_body]
fn uuid_debug(id: u128) -> (r: String)
    ensures
        r@ == uuid_text(id),
{
    format!("{:?}", uuid::Uuid::from_u128(id))
}

/// The failure reported for a text that is no identifier.
pub open spec fn invalid_uuid(s: Seq<char>) -> ErrorView {
    ErrorView { kind: ErrorKind::Validation, message: "Invalid uuid "@ + s }
}

/// What [`parse_uuid`] returns for a text, given what the UUID reader made of it.
pub open spec fn parsed_or_invalid(s: Seq<char>, parsed: Option<u128>) -> Result<u128, ErrorView> {
    match parsed {
        Some(id) => Ok(id),
        None => Err(invalid_uuid(s)),
    }
}

/// Turns the UUID reader's outcome for `s` into an identifier or a validation
/// failure that quotes `s`.
pub fn id_or_invalid(s: &str, parsed: Option<u128>) -> (r: Result<u128, Error>)
    ensures
        match parsed_or_invalid(s@, parsed) {
            Ok(id) => r == Ok::<u128, Error>(id),
            Err(e) => r is Err && r->Err_0@ == e,
        },
{
    match parsed {
        Some(id) => Ok(id),
        None => Err(Error::validation(joined("Invalid uuid ", s))),
    }
}

/// Reads an identifier from its text. Fails with a validation error exactly
/// where the text is not a UUID.
pub fn parse_uuid(s: &str) -> (r: Result<u128, Error>)
    ensures
        match parsed_or_invalid(s@, uuid_text_value(s@)) {
            Ok(id) => r == Ok::<u128, Error>(id),
            Err(e) => r is Err && r->Err_0@ == e,
        },
{
    id_or_invalid(s, uuid_parse(s))
}

/// The identifier to search for, given what the UUID reader made of a text:
/// a malformed text stands for the nil identifier.
pub open spec fn parsed_or_nil(parsed: Option<u128>) -> u128 {
    match parsed {
        Some(id) => id,
        None => NIL,
    }
}

/// The identifier that a text stands for in a lenient search.
pub open spec fn lenient_id(s: Seq<char>) -> u128 {
    parsed_or_nil(uuid_text_value(s))
}

/// Replaces a rejected text by the nil identifier.
pub fn id_or_nil(parsed: Option<u128>) -> (id: u128)
    ensures
        id == parsed_or_nil(parsed),
{
    match parsed {
        Some(id) => id,
        None => NIL,
    }
}

/// Reads an identifier leniently: a malformed text gives the nil identifier,
/// never a failure.
pub fn parse_uuid_or_nil(s: &str) -> (id: u128)
    ensures
        id == lenient_id(s@),
{
    id_or_nil(uuid_parse(s))
}

/// Whether an identifier carries the version and variant of a random UUID.
pub open spec fn is_random_uuid(id: u128) -> bool {
    id & VERSION_MASK == VERSION_RANDOM
}

/// A new random identifier. It is never nil.
pub fn new_id() -> (id: u128)
    ensures
        is_random_uuid(id),
        id != NIL,
{
    let id = uuid_random();
    assert(id & 0x0000_0000_0000_f000_c000_0000_0000_0000u128
        == 0x0000_0000_0000_4000_8000_0000_0000_0000u128 ==> id != 0u128) by (bit_vector);
    id
}

/// The text of an identifier, as error messages quote it.
pub fn id_text(id: u128) -> (s: String)
    ensures
        s@ == uuid_text(id),
{
    uuid_debug(id)
}

} // verus!
