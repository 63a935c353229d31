pub mod model;
pub mod query;

use vstd::arithmetic::power::pow;
use vstd::prelude::*;

verus! {

/// The lower-case hexadecimal digit of `d`, for `0 <= d < 16`.
pub open spec fn hex_digit(d: int) -> char {
    if d < 10 {
        (d + 48) as u8 as char
    } else {
        (d + 87) as u8 as char
    }
}

/// The `i`-th of the 32 hexadecimal digits of `v`, the most significant first.
pub open spec fn nibble(v: u128, i: int) -> int {
    (v as int / pow(16, (31 - i) as nat)) % 16
}

/// How many of the 32 digits stand before position `k` of the hyphenated text.
pub open spec fn digits_before(k: int) -> int {
    if k < 8 {
        k
    } else if k < 13 {
        k - 1
    } else if k < 18 {
        k - 2
    } else if k < 23 {
        k - 3
    } else {
        k - 4
    }
}

/// The hyphenated lower-case text of the UUID with this value: its 32
/// hexadecimal digits in groups of 8, 4, 4, 4 and 12, joined by `-`.
pub open spec fn uuid_text(v: u128) -> Seq<char> {
    Seq::new(
        36,
        |k: int|
            if k == 8 || k == 13 || k == 18 || k == 23 {
                '-'
            } else {
                hex_digit(nibble(v, digits_before(k)))
            },
    )
}

/// The value of the UUID that this text writes; `None` when it writes none.
pub uninterp spec fn uuid_of_text(s: Seq<char>) -> Option<u128>;

#[verifier::external_type_specification]
#[verifier::external_body]
pub struct ExUuidError(uuid::Error);

/// Relies on uuid's `Uuid::new_v4`: a random (version 4) UUID, as its value.
#[verifier::external_body]
fn random_uuid() -> (r: u128) {
    uuid::Uuid::new_v4().as_u128()
}

/// Relies on uuid's `Display` for `Uuid`: the hyphenated lower-case text.
#[verifier::external_body]
fn uuid_to_text(v: u128) -> (r: String)
    ensures
        r@ == uuid_text(v),
{
    uuid::Uuid::from_u128(v).to_string()
}

/// Relies on uuid's `Uuid::parse_str`.
#[verifier::external_body]
fn parse_uuid(s: &str) -> (r: Result<u128, uuid::Error>)
    ensures
        match r {
            Ok(v) => uuid_of_text(s@) == Some(v),
            Err(_) => uuid_of_text(s@) is None,
        },
{
    uuid::Uuid::parse_str(s).map(|u| u.as_u128())
}

/// The identifier of a stored clip: a UUID, held as its 128-bit value.
#[derive(Clone, Copy, PartialEq, Eq, Structural, Debug)]
pub struct DbId(u128);

impl DbId {
    pub closed spec fn value(&self) -> u128 {
        self.0
    }

    /// A fresh random identifier.
    pub fn new() -> (r: Self) {
        DbId(random_uuid())
    }

    /// The all-zero identifier.
    pub fn nil() -> (r: Self)
        ensures
            r.value() == 0,
    {
        DbId(0)
    }

    /// The identifier written as a UUID in `s`.
    pub fn from_str(s: &str) -> (r: Result<Self, uuid::Error>)
        ensures
            match r {
                Ok(id) => uuid_of_text(s@) == Some(id.value()),
                Err(_) => uuid_of_text(s@) is None,
            },
    {
        match parse_uuid(s) {
            Ok(v) => Ok(DbId(v)),
            Err(e) => Err(e),
        }
    }

    /// The identifier as hyphenated lower-case UUID text.
    pub fn to_text(&self) -> (r: String)
        ensures
            r@ == uuid_text(self.value()),
            r@.len() == 36,
    {
        uuid_to_text(self.0)
    }
}

impl Default for DbId {
    fn default() -> (r: Self) {
        DbId::new()
    }
}

} // verus!
