//! Identifiers of battles and of their participants.

use vstd::prelude::*;
use vstd::arithmetic::power2::pow2;

verus! {

/// The character of a hexadecimal digit, in lower case.
pub open spec fn hex_char(d: nat) -> char
    recommends
        d < 16,
{
    seq!['0', '1', '2', '3', '4', '5', '6', '7', '8', '9', 'a', 'b', 'c', 'd', 'e', 'f'][d as int]
}

/// The `k`-th of the 32 hexadecimal digits of `bits`, counted from the most
/// significant one.
pub open spec fn hex_digit_of(bits: u128, k: int) -> nat
    recommends
        0 <= k < 32,
{
    ((bits as nat) / pow2((4 * (31 - k)) as nat)) % 16
}

/// How many hyphens stand before position `i` of the hyphenated form.
pub open spec fn hyphens_before(i: int) -> int {
    if i < 8 {
        0
    } else if i < 13 {
        1
    } else if i < 18 {
        2
    } else if i < 23 {
        3
    } else {
        4
    }
}

/// The hyphenated form of a 128-bit identifier: 32 lower-case hexadecimal
/// digits in groups of 8, 4, 4, 4 and 12.
pub open spec fn hyphenated(bits: u128) -> Seq<char> {
    Seq::new(
        36,
        |i: int|
            if i == 8 || i == 13 || i == 18 || i == 23 {
                '-'
            } else {
                hex_char(hex_digit_of(bits, i - hyphens_before(i)))
            },
    )
}

/// Whether `bits` carries the version and variant marks of a random
/// (version 4) identifier.
pub open spec fn is_random_uuid(bits: u128) -> bool {
    bits & 0x0000_0000_0000_f000_c000_0000_0000_0000u128
        == 0x0000_0000_0000_4000_8000_0000_0000_0000u128
}

/// What `uuid::Uuid::parse_str` makes of a text: the identifier's 128-bit
/// value, or the message of its error where it refuses the text.
pub uninterp spec fn parsed_uuid(text: Seq<char>) -> Result<u128, Seq<char>>;

/// Whether `uuid::Uuid::parse_str` reads `text` as the identifier `bits`.
pub open spec fn reads_back_as(text: Seq<char>, bits: u128) -> bool {
    parsed_uuid(text) == Ok::<u128, Seq<char>>(bits)
}

/// `uuid::Uuid::new_v4`, handed out as a 128-bit value by
/// `uuid::Uuid::as_u128`. Nothing is proved of it. The identifier is
/// random; all that is claimed is that it carries the version and variant
/// marks that `new_v4` sets.
#[verifier::external_body]
fn random_uuid() -> (bits: u128)
    ensures
        is_random_uuid(bits),
{
    uuid::Uuid::new_v4().as_u128()
}

/// The `Display` form of the `uuid::Uuid` that `uuid::Uuid::from_u128`
/// makes of `bits`. Nothing is proved of it. Claimed is that the form is
/// the hyphenated lower-case one, and that `uuid::Uuid::parse_str` reads it
/// back as the same value.
#[verifier::external_body]
fn uuid_to_string(bits: u128) -> (r: String)
    ensures
        r@ == hyphenated(bits),
        reads_back_as(r@, bits),
{
    uuid::Uuid::from_u128(bits).to_string()
}

/// `uuid::Uuid::parse_str`, with the identifier handed out as a 128-bit
/// value and the error as its `Display` text. Nothing is proved of it: the
/// result is what [`parsed_uuid`] names, and no more is claimed.
#[verifier::external_body]
fn parse_uuid(text: &str) -> (r: Result<u128, String>)
    ensures
        match r {
            Ok(bits) => Ok(bits),
            Err(message) => Err(message@),
        } == parsed_uuid(text@),
{
    match uuid::Uuid::parse_str(text) {
        Ok(id) => Ok(id.as_u128()),
        Err(e) => Err(e.to_string()),
    }
}

/// Unique identifier for a battle: the 128-bit value of a UUID.
#[derive(Debug, Clone, Copy, PartialEq, Eq, Structural)]
pub struct BattleId(pub u128);

impl BattleId {
    /// A fresh random identifier.
    pub fn new() -> (id: Self)
        ensures
            is_random_uuid(id.0),
    {
        BattleId(random_uuid())
    }

    /// The identifier in hyphenated form.
    pub fn to_string(&self) -> (r: String)
        ensures
            r@ == hyphenated(self.0),
            reads_back_as(r@, self.0),
    {
        uuid_to_string(self.0)
    }

    /// Reads an identifier from a text, or gives the reason why the text
    /// is none.
    pub fn parse(text: &str) -> (r: Result<Self, String>)
        ensures
            match r {
                Ok(id) => Ok(id.0),
                Err(message) => Err(message@),
            } == parsed_uuid(text@),
    {
        match parse_uuid(text) {
            Ok(bits) => Ok(BattleId(bits)),
            Err(message) => Err(message),
        }
    }
}

/// Player identifier.
#[derive(Debug)]
pub struct PlayerId(pub String);

impl View for PlayerId {
    type V = Seq<char>;

    open spec fn view(&self) -> Seq<char> {
        self.0@
    }
}

impl Clone for PlayerId {
    fn clone(&self) -> (r: Self)
        ensures
            r@ == self@,
    {
        PlayerId(self.0.clone())
    }
}

impl PartialEq for PlayerId {
    fn eq(&self, other: &Self) -> (r: bool) {
        self.0 == other.0
    }
}

impl vstd::std_specs::cmp::PartialEqSpecImpl for PlayerId {
    open spec fn obeys_eq_spec() -> bool {
        true
    }

    open spec fn eq_spec(&self, other: &Self) -> bool {
        self.0@ == other.0@
    }
}

impl Eq for PlayerId {

}

} // verus!
