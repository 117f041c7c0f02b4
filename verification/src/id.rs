//! Identifiers of users, organizations, projects and the rows that link them.

use vstd::prelude::*;

verus! {

/// What `uuid::Uuid::parse_str` reads from a text: the 128-bit value of the
/// UUID, or `None` where it reports an error.
pub uninterp spec fn uuid_value(text: Seq<char>) -> Option<u128>;

/// The text that `uuid::Uuid` displays for the UUID with the given value.
pub uninterp spec fn uuid_text(value: u128) -> Seq<char>;

/// Calls `uuid::Uuid::parse_str`, which accepts the simple, hyphenated, URN
/// and braced forms of a UUID. The contract names the outcome; it does not
/// say which texts are accepted.
#[verifier::external_body]
fn parse_uuid(text: &str) -> (value: Option<u128>)
    ensures
        value == uuid_value(text@),
{
    match uuid::Uuid::parse_str(text) {
        Ok(parsed) => Some(parsed.as_u128()),
        Err(_) => None,
    }
}

/// Calls `to_string` on the `uuid::Uuid` made by `from_u128`. The crate
/// displays a UUID in its hyphenated form, and documents that `parse_str`
/// reads every form that the crate writes: the contract claims that round
/// trip and names the text.
#[verifier::external_body]
fn format_uuid(value: u128) -> (text: String)
    ensures
        text@ == uuid_text(value),
        uuid_value(text@) == Some(value),
{
    uuid::Uuid::from_u128(value).to_string()
}

/// A 128-bit identifier. Two identifiers name the same entity exactly when
/// their values are equal.
#[derive(Clone, Copy, Debug, PartialEq, Eq, Structural, Hash)]
pub struct Id(pub u128);

impl Id {
    /// The identifier that a text denotes, if it denotes one.
    pub open spec fn spec_parse(text: Seq<char>) -> Option<Id> {
        match uuid_value(text) {
            Some(value) => Some(Id(value)),
            None => None,
        }
    }

    /// The text of this identifier.
    pub open spec fn spec_text(self) -> Seq<char> {
        uuid_text(self.0)
    }

    /// The identifier with the given value.
    pub fn from_u128(value: u128) -> (id: Id)
        ensures
            id.0 == value,
    {
        Id(value)
    }

    /// The value of this identifier.
    pub fn as_u128(&self) -> (value: u128)
        ensures
            value == self.0,
    {
        self.0
    }

    /// Reads an identifier from its text; `None` where the text is not a
    /// well-formed identifier.
    pub fn parse(text: &str) -> (id: Option<Id>)
        ensures
            id == Id::spec_parse(text@),
    {
        match parse_uuid(text) {
            Some(value) => Some(Id(value)),
            None => None,
        }
    }

    /// Writes this identifier as text. Reading the text back gives this
    /// identifier.
    pub fn to_string(&self) -> (text: String)
        ensures
            text@ == self.spec_text(),
            Id::spec_parse(text@) == Some(*self),
    {
        format_uuid(self.0)
    }
}

} // verus!
