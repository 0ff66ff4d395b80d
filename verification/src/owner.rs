//! Owner identities: who an acquisition belongs to.

use vstd::arithmetic::power::pow;
use vstd::prelude::*;

verus! {

/// The lower-case hexadecimal digit of `d` (below sixteen).
pub open spec fn hex_digit(d: nat) -> char {
    if d < 10 {
        (('0' as nat) + d) as char
    } else {
        (('a' as nat) + (d - 10) as nat) as char
    }
}

/// How many hyphens stand before position `i` of a hyphenated identity.
pub open spec fn hyphens_before(i: int) -> int {
    if i < 8 {
        0
    } else if i < 13 {
        1
    } else if i < 18 {
        2
    } else if i < 23 {
        3
    } else {
        4
    }
}

/// The hyphenated text of a 128-bit identity: its 32 hexadecimal digits, most
/// significant first, in groups of 8, 4, 4, 4 and 12.
pub open spec fn hyphenated(bits: u128) -> Seq<char> {
    Seq::new(
        36,
        |i: int|
            if i == 8 || i == 13 || i == 18 || i == 23 {
                '-'
            } else {
                hex_digit(
                    ((bits as int / pow(16, (31 - (i - hyphens_before(i))) as nat)) % 16) as nat,
                )
            },
    )
}

/// What `Uuid::parse_str` reads from a text: the identity as a number, or
/// nothing where it refuses the text.
pub uninterp spec fn parsed_uuid(text: Seq<char>) -> Option<u128>;

/// `Uuid::now_v7`. Claimed of every outcome: the version digit is 7 and the
/// variant bits are those of RFC 9562. The rest comes from the clock and from
/// chance.
#[verifier::external_body]
fn fresh_uuid() -> (r: u128)
    ensures
        (r as int / pow(2, 76)) % 16 == 7,
        (r as int / pow(2, 62)) % 4 == 2,
{
    uuid::Uuid::now_v7().as_u128()
}

/// `Uuid::to_string`: the hyphenated lower-case text, which
/// `Uuid::parse_str` reads back as the same number.
#[verifier::external_body]
fn uuid_text(bits: u128) -> (r: String)
    ensures
        r@ == hyphenated(bits),
        parsed_uuid(r@) == Some(bits),
{
    uuid::Uuid::from_u128(bits).to_string()
}

/// `Uuid::parse_str`, with its error dropped: the same text always gives the
/// same identity, or is always refused.
#[verifier::external_body]
fn uuid_from_text(text: &str) -> (r: Option<u128>)
    ensures
        r == parsed_uuid(text@),
{
    match uuid::Uuid::parse_str(text) {
        Ok(u) => Some(u.as_u128()),
        Err(_) => None,
    }
}

/// The identity of one acquisition (or, for reentrant locks, of one owner).
/// Its token is the hyphenated text of the identity.
#[derive(Clone, Copy, Debug, PartialEq, Eq, Structural)]
pub struct OwnerId {
    pub bits: u128,
}

impl OwnerId {
    /// The token that the store records for this owner.
    pub open spec fn token_text(self) -> Seq<char> {
        hyphenated(self.bits)
    }

    /// What holds of every identity that [`OwnerId::generate`] gives: its version
    /// is 7, and its variant is that of RFC 9562.
    pub open spec fn minted(self) -> bool {
        &&& (self.bits as int / pow(2, 76)) % 16 == 7
        &&& (self.bits as int / pow(2, 62)) % 4 == 2
    }

    /// A fresh time-ordered identity.
    pub fn generate() -> (r: Self)
        ensures
            r.minted(),
    {
        OwnerId { bits: fresh_uuid() }
    }

    /// The identity with the given number.
    pub fn from_bits(bits: u128) -> (r: Self)
        ensures
            r.bits == bits,
    {
        OwnerId { bits }
    }

    /// Reads an identity from its text; `None` where the text is no UUID.
    pub fn parse(text: &str) -> (r: Option<Self>)
        ensures
            r == match parsed_uuid(text@) {
                Some(bits) => Some(OwnerId { bits }),
                None => None,
            },
    {
        match uuid_from_text(text) {
            Some(bits) => Some(OwnerId { bits }),
            None => None,
        }
    }

    /// The token that the store records for this owner. Read back by
    /// [`OwnerId::parse`], it gives the same owner.
    pub fn token(&self) -> (r: String)
        ensures
            r@ == self.token_text(),
            parsed_uuid(self.token_text()) == Some(self.bits),
    {
        uuid_text(self.bits)
    }
}

} // verus!
