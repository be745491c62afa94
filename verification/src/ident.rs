//! Identifiers of users, projects and entries, and their textual form.

use edgedb_protocol::model::Uuid;
use std::str::FromStr;
use vstd::arithmetic::power::pow;
use vstd::prelude::*;

verus! {

/// Identifies a user at the store.
#[derive(Clone, Copy, Debug, PartialEq, Eq, Structural)]
pub struct UserId(pub u128);

/// Identifies a project at the store.
#[derive(Clone, Copy, Debug, PartialEq, Eq, Structural)]
pub struct ProjectId(pub u128);

/// Identifies an entry at the store.
#[derive(Clone, Copy, Debug, PartialEq, Eq, Structural)]
pub struct EntryId(pub u128);

/// The lower-case hexadecimal digit for `n`, which is below sixteen.
pub open spec fn hex_digit(n: int) -> char {
    if n < 10 {
        (('0' as int) + n) as char
    } else {
        (('a' as int) + n - 10) as char
    }
}

/// The `k`-th of the 32 hexadecimal digits of `value`, counted from the most
/// significant one.
pub open spec fn nibble(value: u128, k: int) -> int {
    ((value as int) / pow(16, (31 - k) as nat)) % 16
}

/// How many hyphens stand before position `i` of a hyphenated identifier.
pub open spec fn hyphens_before(i: int) -> int {
    if i < 8 {
        0
    } else if i < 13 {
        1
    } else if i < 18 {
        2
    } else if i < 23 {
        3
    } else {
        4
    }
}

/// The hyphenated form of a 128-bit identifier: 32 lower-case hexadecimal
/// digits in groups of 8, 4, 4, 4 and 12.
pub open spec fn uuid_text(value: u128) -> Seq<char> {
    Seq::new(
        36,
        |i: int|
            if i == 8 || i == 13 || i == 18 || i == 23 {
                '-'
            } else {
                hex_digit(nibble(value, i - hyphens_before(i)))
            },
    )
}

/// The identifier that a text denotes, if it is a well-formed identifier.
pub uninterp spec fn uuid_parse(text: Seq<char>) -> Option<u128>;

/// Parses an identifier through `FromStr` for `edgedb_protocol::model::Uuid`
/// and takes its 128-bit value with `Uuid::as_u128`.
///
/// Trusted: whether the text is accepted, and which value it denotes,
/// depends on the text alone.
#[verifier::external_body]
pub(crate) fn parse_uuid(text: &str) -> (r: Option<u128>)
    ensures
        r == uuid_parse(text@),
{
    match Uuid::from_str(text) {
        Ok(uuid) => Some(uuid.as_u128()),
        Err(_) => None,
    }
}

/// Formats an identifier through `Display` for
/// `edgedb_protocol::model::Uuid`, built by `Uuid::from_u128`.
///
/// Trusted: the outside code writes the hyphenated lower-case form, and its
/// parser reads that form back as the same identifier.
#[verifier::external_body]
pub(crate) fn uuid_to_string(value: u128) -> (r: String)
    ensures
        r@ == uuid_text(value),
        uuid_parse(r@) == Some(value),
{
    Uuid::from_u128(value).to_string()
}

impl UserId {
    /// The user that a stored text names, if it is a well-formed identifier.
    pub open spec fn parsed(text: Seq<char>) -> Option<UserId> {
        match uuid_parse(text) {
            Some(value) => Some(UserId(value)),
            None => None,
        }
    }

    /// The user named by the outcome of parsing a stored text.
    pub fn from_parsed(parsed: Option<u128>) -> (r: Option<UserId>)
        ensures
            r == match parsed {
                Some(value) => Some(UserId(value)),
                None => None::<UserId>,
            },
    {
        match parsed {
            Some(value) => Some(UserId(value)),
            None => None,
        }
    }

    /// Reads a user identifier from its textual form.
    pub fn parse(text: &str) -> (r: Option<UserId>)
        ensures
            r == UserId::parsed(text@),
    {
        UserId::from_parsed(parse_uuid(text))
    }

    /// The textual form under which the identifier is kept in the session
    /// record. Parsing it gives the identifier back.
    pub fn to_text(&self) -> (r: String)
        ensures
            r@ == uuid_text(self.0),
            UserId::parsed(r@) == Some(*self),
    {
        uuid_to_string(self.0)
    }
}

} // verus!
