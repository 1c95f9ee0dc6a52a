//! Identifiers of rows: 128-bit numbers, drawn at random when a row is made
//! and written as UUIDs where they travel as text.

use vstd::prelude::*;

verus! {

/// The identifier that a piece of text spells as a UUID, if it spells one.
/// It stands for what `uuid::Uuid::parse_str` returns.
pub uninterp spec fn parsed_id(text: Seq<char>) -> Option<u128>;

/// An identifier written as a UUID. It stands for what the `Display` of
/// `uuid::Uuid` writes: hexadecimal digits in five hyphenated groups.
pub uninterp spec fn id_text(id: u128) -> Seq<char>;

/// A fresh random identifier.
///
/// Trusted: calls `uuid::Uuid::new_v4` and hands out its 128 bits. Nothing is
/// claimed of the value.
#[verifier::external_body]
pub(crate) fn new_id() -> u128 {
    uuid::Uuid::new_v4().as_u128()
}

/// Reads an identifier from UUID text.
///
/// Trusted: calls `uuid::Uuid::parse_str`; an error becomes `None`, a UUID
/// its 128 bits. The result is a function of the text alone, named
/// [`parsed_id`].
#[verifier::external_body]
pub(crate) fn parse_id(text: &str) -> (id: Option<u128>)
    ensures
        id == parsed_id(text@),
{
    match uuid::Uuid::parse_str(text) {
        Ok(id) => Some(id.as_u128()),
        Err(_) => None,
    }
}

/// Writes an identifier as UUID text.
///
/// Trusted: calls `to_string` on the `uuid::Uuid` of these 128 bits. The
/// result is a function of the identifier alone, named [`id_text`], and,
/// being in one of the forms that `uuid::Uuid::parse_str` takes, is read
/// back as the same identifier.
#[verifier::external_body]
pub(crate) fn id_to_text(id: u128) -> (text: String)
    ensures
        text@ == id_text(id),
        parsed_id(text@) == Some(id),
{
    uuid::Uuid::from_u128(id).to_string()
}

} // verus!
