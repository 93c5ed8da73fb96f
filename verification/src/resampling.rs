//! Software resampling flags: a bitmask over the native resampler flag set.

use vstd::prelude::*;

verus! {

/// Native bit: force resampling even when the formats already match.
pub const FORCE: i32 = 0x0001;
/// Every bit of the declared resampler flag set.
pub const ALL_BITS: i32 = FORCE;

/// Masking any value to the declared set yields a masked value.
proof fn lemma_mask_closed(x: i32)
    by (bit_vector)
    ensures
        (x & ALL_BITS) & ALL_BITS == x & ALL_BITS,
{
}

/// Union and intersection of masked values stay within the set.
proof fn lemma_combine_closed(x: i32, y: i32)
    by (bit_vector)
    requires
        x & ALL_BITS == x,
        y & ALL_BITS == y,
    ensures
        (x | y) & ALL_BITS == x | y,
        (x & y) & ALL_BITS == x & y,
{
}

/// Removing bits from a masked value stays within the set.
proof fn lemma_difference_closed(x: i32, y: i32)
    by (bit_vector)
    requires
        x & ALL_BITS == x,
    ensures
        (x & !y) & ALL_BITS == x & !y,
{
}

/// A set of resampler flags, stored as the native signed bitmask.
///
/// Construction masks unknown bits off silently, so a value of this
/// type only ever carries bits of the declared set; that keeps the
/// type forward-compatible with native flag additions.
#[derive(Clone, Copy, Debug, PartialEq, Eq, Structural)]
pub struct Flags {
    pub bits: i32,
}

impl Flags {
    /// Only bits of the declared set are present.
    pub open spec fn wf(self) -> bool {
        self.bits & ALL_BITS == self.bits
    }

    /// The empty flag set.
    pub fn empty() -> (r: Self)
        ensures
            r.bits == 0,
            r.wf(),
    {
        proof {
            assert(0i32 & ALL_BITS == 0i32) by (bit_vector);
        }
        Flags { bits: 0 }
    }

    /// Every declared flag at once.
    pub fn all() -> (r: Self)
        ensures
            r.bits == ALL_BITS,
            r.wf(),
    {
        proof {
            assert(ALL_BITS & ALL_BITS == ALL_BITS) by (bit_vector);
        }
        Flags { bits: ALL_BITS }
    }

    /// Reinterpret a native bitmask, silently masking off any bit
    /// outside the declared set.
    pub fn from_bits_truncate(bits: i32) -> (r: Self)
        ensures
            r.bits == bits & ALL_BITS,
            r.wf(),
    {
        proof {
            lemma_mask_closed(bits);
        }
        Flags { bits: bits & ALL_BITS }
    }

    /// The underlying native bitmask.
    pub fn bits(self) -> (r: i32)
        ensures
            r == self.bits,
    {
        self.bits
    }

    /// True when no flag is set.
    pub fn is_empty(self) -> (r: bool)
        ensures
            r == (self.bits == 0),
    {
        self.bits == 0
    }

    /// True when every flag of `other` is also set in `self`.
    pub fn contains(self, other: Self) -> (r: bool)
        ensures
            r == (self.bits & other.bits == other.bits),
    {
        self.bits & other.bits == other.bits
    }

    /// Bitwise union of the two flag sets.
    pub fn union(self, other: Self) -> (r: Self)
        ensures
            r.bits == self.bits | other.bits,
            self.wf() && other.wf() ==> r.wf(),
    {
        proof {
            if self.wf() && other.wf() {
                lemma_combine_closed(self.bits, other.bits);
            }
        }
        Flags { bits: self.bits | other.bits }
    }

    /// Bitwise intersection of the two flag sets.
    pub fn intersection(self, other: Self) -> (r: Self)
        ensures
            r.bits == self.bits & other.bits,
            self.wf() && other.wf() ==> r.wf(),
    {
        proof {
            if self.wf() && other.wf() {
                lemma_combine_closed(self.bits, other.bits);
            }
        }
        Flags { bits: self.bits & other.bits }
    }

    /// The flags of `self` that are not in `other`.
    pub fn difference(self, other: Self) -> (r: Self)
        ensures
            r.bits == self.bits & !other.bits,
            self.wf() ==> r.wf(),
    {
        proof {
            if self.wf() {
                lemma_difference_closed(self.bits, other.bits);
            }
        }
        Flags { bits: self.bits & !other.bits }
    }

    /// Every declared flag not set in `self`.
    pub fn complement(self) -> (r: Self)
        ensures
            r.bits == !self.bits & ALL_BITS,
            r.wf(),
    {
        proof {
            lemma_mask_closed(!self.bits);
        }
        Flags { bits: !self.bits & ALL_BITS }
    }
}

/// Union and intersection of well-formed flag values round-trip
/// through the raw native integer representation without loss:
/// rebuilding a flag value from the combined bitmask changes nothing.
pub proof fn lemma_bits_roundtrip(a: Flags, b: Flags)
    requires
        a.wf(),
        b.wf(),
    ensures
        (a.bits | b.bits) & ALL_BITS == a.bits | b.bits,
        (a.bits & b.bits) & ALL_BITS == a.bits & b.bits,
{
    lemma_combine_closed(a.bits, b.bits);
}

} // verus!
