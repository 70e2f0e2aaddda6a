use core::cmp::Ordering;
use core::marker::PhantomData;

use vstd::prelude::*;

use crate::text::hex_digits;

verus! {

/// The hyphenated, lower-case text form of a 128-bit identifier:
/// 32 hexadecimal digits in groups of 8-4-4-4-12.
pub open spec fn uuid_text(v: u128) -> Seq<char> {
    let h = hex_digits(v as int, 32);
    h.subrange(0, 8) + seq!['-'] + h.subrange(8, 12) + seq!['-'] + h.subrange(12, 16) + seq!['-']
        + h.subrange(16, 20) + seq!['-'] + h.subrange(20, 32)
}

/// What `uuid::Uuid::parse_str` makes of a text: the value, or `None` where
/// the text is no identifier.
pub uninterp spec fn uuid_parsed(s: Seq<char>) -> Option<u128>;

/// Relies on `uuid::Uuid::new_v4`: a random value whose version bits read 4
/// and whose variant bits read `10`.
#[verifier::external_body]
fn random_v4() -> (r: u128)
    ensures
        r & 0xF000_C000_0000_0000_0000u128 == 0x4000_8000_0000_0000_0000u128,
{
    uuid::Uuid::new_v4().as_u128()
}

/// Relies on `uuid::Uuid::from_u128` and the `Display` of `uuid::Uuid`:
/// the hyphenated lower-case form.
#[verifier::external_body]
fn uuid_to_text(v: u128) -> (r: String)
    ensures
        r@ == uuid_text(v),
{
    uuid::Uuid::from_u128(v).to_string()
}

/// Relies on `uuid::Uuid::parse_str`, which among other forms accepts the
/// hyphenated lower-case one.
#[verifier::external_body]
fn parse_uuid(s: &str) -> (r: Option<u128>)
    ensures
        r == uuid_parsed(s@),
        forall|v: u128| s@ == #[trigger] uuid_text(v) ==> r == Some(v),
{
    uuid::Uuid::parse_str(s).ok().map(|u| u.as_u128())
}

/// A text that is no identifier.
#[derive(Clone, Copy, Debug, PartialEq, Eq, Structural)]
pub struct ParseIdError;

/// A 128-bit universally unique identifier, tagged at compile time with the
/// kind of entity `T` that it names, so that identifiers of different kinds
/// cannot be mixed up.
pub struct Id<T> {
    value: u128,
    tag: PhantomData<T>,
}

impl<T> Id<T> {
    pub closed spec fn value_spec(&self) -> u128 {
        self.value
    }

    /// A fresh random identifier, of version 4.
    pub fn generate() -> (r: Self)
        ensures
            r.value_spec() & 0xF000_C000_0000_0000_0000u128 == 0x4000_8000_0000_0000_0000u128,
    {
        Id { value: random_v4(), tag: PhantomData }
    }

    pub fn from_u128(value: u128) -> (r: Self)
        ensures
            r.value_spec() == value,
    {
        Id { value, tag: PhantomData }
    }

    pub fn as_u128(&self) -> (r: u128)
        ensures
            r == self.value_spec(),
    {
        self.value
    }

    /// The hyphenated lower-case text form, which is also the persisted form.
    pub fn to_text(&self) -> (r: String)
        ensures
            r@ == uuid_text(self.value_spec()),
    {
        uuid_to_text(self.value)
    }

    /// Reads an identifier from its text; the form written by `to_text`
    /// always reads back as the same identifier.
    pub fn parse(s: &str) -> (r: Result<Self, ParseIdError>)
        ensures
            uuid_parsed(s@) is None <==> r is Err,
            uuid_parsed(s@) matches Some(v) ==> (r matches Ok(id) && id.value_spec() == v),
            forall|v: u128|
                s@ == #[trigger] uuid_text(v) ==> (r matches Ok(id) && id.value_spec() == v),
    {
        match parse_uuid(s) {
            Some(value) => Ok(Id { value, tag: PhantomData }),
            None => Err(ParseIdError),
        }
    }
}

impl<T> Clone for Id<T> {
    fn clone(&self) -> (r: Self)
        ensures
            r.value_spec() == self.value_spec(),
    {
        Id { value: self.value, tag: PhantomData }
    }
}

impl<T> Copy for Id<T> {
}

impl<T> Default for Id<T> {
    fn default() -> (r: Self)
        ensures
            r.value_spec() & 0xF000_C000_0000_0000_0000u128 == 0x4000_8000_0000_0000_0000u128,
    {
        Self::generate()
    }
}

impl<T> PartialEq for Id<T> {
    fn eq(&self, other: &Self) -> (r: bool) {
        self.value == other.value
    }
}

impl<T> vstd::std_specs::cmp::PartialEqSpecImpl for Id<T> {
    open spec fn obeys_eq_spec() -> bool {
        true
    }

    open spec fn eq_spec(&self, other: &Self) -> bool {
        self.value_spec() == other.value_spec()
    }
}

impl<T> Eq for Id<T> {
}

impl<T> PartialOrd for Id<T> {
    fn partial_cmp(&self, other: &Self) -> (r: Option<Ordering>) {
        if self.value < other.value {
            Some(Ordering::Less)
        } else if self.value > other.value {
            Some(Ordering::Greater)
        } else {
            Some(Ordering::Equal)
        }
    }
}

impl<T> vstd::std_specs::cmp::PartialOrdSpecImpl for Id<T> {
    open spec fn obeys_partial_cmp_spec() -> bool {
        true
    }

    open spec fn partial_cmp_spec(&self, other: &Self) -> Option<Ordering> {
        if self.value_spec() < other.value_spec() {
            Some(Ordering::Less)
        } else if self.value_spec() > other.value_spec() {
            Some(Ordering::Greater)
        } else {
            Some(Ordering::Equal)
        }
    }
}

} // verus!
