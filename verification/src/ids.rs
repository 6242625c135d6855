//! Session and room identifiers, and their textual encoding.

use vstd::arithmetic::power::pow;
use vstd::prelude::*;

verus! {

/// Identifier of one live connection: a 128-bit value that stays the same
/// for as long as the connection lives.
#[derive(Clone, Copy, Debug, PartialEq, Eq, Structural, Hash)]
pub struct SessionId {
    pub value: u128,
}

/// Identifier of a room. The transport layer chooses it; the hub never
/// generates one.
#[derive(Clone, Copy, Debug, PartialEq, Eq, Structural, Hash)]
pub struct RoomId {
    pub value: u128,
}

/// The lower-case hexadecimal digit for a value below sixteen.
pub open spec fn hex_digit(n: int) -> char {
    "0123456789abcdef"@[n]
}

/// The `k`-th of the 32 four-bit groups of `v`, most significant first.
pub open spec fn nibble(v: u128, k: int) -> int {
    (v as int / pow(16, (31 - k) as nat)) % 16
}

/// How many hyphens stand before position `i` of the canonical text.
pub open spec fn hyphens_before(i: int) -> int {
    if i < 8 {
        0
    } else if i < 13 {
        1
    } else if i < 18 {
        2
    } else if i < 23 {
        3
    } else {
        4
    }
}

/// The canonical text of a 128-bit identifier: 32 lower-case hexadecimal
/// digits, most significant first, in groups of 8, 4, 4, 4 and 12 that are
/// separated by hyphens.
pub open spec fn canonical_text(v: u128) -> Seq<char> {
    Seq::new(
        36,
        |i: int|
            if i == 8 || i == 13 || i == 18 || i == 23 {
                '-'
            } else {
                hex_digit(nibble(v, i - hyphens_before(i)))
            },
    )
}

/// The identifier that `uuid::Uuid::parse_str` reads from a text, as a
/// 128-bit value, or `None` where it rejects the text.
pub uninterp spec fn parsed_id(text: Seq<char>) -> Option<u128>;

/// Calls `uuid::Uuid::from_u128` and formats the result with its `Display`
/// impl, which writes the hyphenated lower-case form. The contract claims
/// that this text is `canonical_text` of the value, and that
/// `uuid::Uuid::parse_str` reads the value back from it.
#[verifier::external_body]
fn format_id(v: u128) -> (s: String)
    ensures
        s@ == canonical_text(v),
        parsed_id(s@) == Some(v),
{
    uuid::Uuid::from_u128(v).to_string()
}

/// Calls `uuid::Uuid::parse_str` and takes the 128-bit value of what it
/// accepted. The contract only names the outcome: it is a function of the
/// text alone.
#[verifier::external_body]
fn parse_id(token: &str) -> (r: Option<u128>)
    ensures
        r == parsed_id(token@),
{
    match uuid::Uuid::parse_str(token) {
        Ok(id) => Some(id.as_u128()),
        Err(_) => None,
    }
}

/// Whether a 128-bit value carries the version and variant marks of a
/// random identifier: version 4 in bits 76 to 79, variant `10` in bits 62
/// and 63.
pub open spec fn is_random_form(v: u128) -> bool {
    v & 0xF000_C000_0000_0000_0000u128 == 0x4000_8000_0000_0000_0000u128
}

/// Calls `uuid::Uuid::new_v4`, which draws 128 random bits and overwrites
/// the version and variant bits. Only those bits are promised.
#[verifier::external_body]
fn random_id() -> (v: u128)
    ensures
        is_random_form(v),
{
    uuid::Uuid::new_v4().as_u128()
}

impl SessionId {
    /// A fresh random identifier.
    pub fn fresh() -> (id: SessionId)
        ensures
            is_random_form(id.value),
    {
        SessionId { value: random_id() }
    }

    /// Reads an identifier from its textual encoding.
    pub fn parse(token: &str) -> (r: Option<SessionId>)
        ensures
            r == SessionId::parsed(token@),
    {
        match parse_id(token) {
            Some(v) => Some(SessionId { value: v }),
            None => None,
        }
    }

    /// What `parse` returns for a text.
    pub open spec fn parsed(text: Seq<char>) -> Option<SessionId> {
        match parsed_id(text) {
            Some(v) => Some(SessionId { value: v }),
            None => None,
        }
    }

    /// The canonical text of this identifier, from which `parse` reads it
    /// back.
    pub fn text(&self) -> (s: String)
        ensures
            s@ == canonical_text(self.value),
            SessionId::parsed(s@) == Some(*self),
    {
        format_id(self.value)
    }
}

impl RoomId {
    /// Reads a room identifier from its textual encoding.
    pub fn parse(token: &str) -> (r: Option<RoomId>)
        ensures
            r == RoomId::parsed(token@),
    {
        match parse_id(token) {
            Some(v) => Some(RoomId { value: v }),
            None => None,
        }
    }

    /// What `parse` returns for a text.
    pub open spec fn parsed(text: Seq<char>) -> Option<RoomId> {
        match parsed_id(text) {
            Some(v) => Some(RoomId { value: v }),
            None => None,
        }
    }

    /// The canonical text of this identifier, from which `parse` reads it
    /// back.
    pub fn text(&self) -> (s: String)
        ensures
            s@ == canonical_text(self.value),
            RoomId::parsed(s@) == Some(*self),
    {
        format_id(self.value)
    }
}

} // verus!
