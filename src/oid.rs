use vstd::prelude::*;

use crate::text::{hex_digits, push_hex};

verus! {

/// A content-addressed identifier of a commit: a 160-bit value, split into
/// its upper 128 bits and its lower 32 bits.
#[derive(Clone, Copy, Debug, PartialEq, Eq, Structural, Hash)]
pub struct Oid {
    pub high: u128,
    pub low: u32,
}

/// The 40 lower-case hexadecimal digits of a commit identifier.
pub open spec fn oid_text(o: Oid) -> Seq<char> {
    hex_digits(o.high as int, 32) + hex_digits(o.low as int, 8)
}

impl Oid {
    pub fn new(high: u128, low: u32) -> (r: Oid)
        ensures
            r.high == high,
            r.low == low,
    {
        Oid { high, low }
    }

    /// Appends the hexadecimal form of this identifier.
    pub fn write_hex(&self, s: &mut String)
        ensures
            final(s)@ == old(s)@ + oid_text(*self),
    {
        push_hex(s, self.high, 32);
        push_hex(s, self.low as u128, 8);
        assert(final(s)@ =~= old(s)@ + oid_text(*self));
    }

    pub fn to_hex(&self) -> (r: String)
        ensures
            r@ == oid_text(*self),
    {
        let mut s = String::new();
        self.write_hex(&mut s);
        assert(s@ =~= oid_text(*self));
        s
    }
}

} // verus!
