//! Plain values that stand for points in time and file identifiers.

use vstd::prelude::*;
use crate::text::{hex_fixed, push_char, push_hex_fixed};

verus! {

/// Nanoseconds in one day.
pub const NANOS_PER_DAY: i128 = 86_400_000_000_000;

/// Bound on the magnitude of any time the server handles, in nanoseconds
/// (about 317 000 years either side of 1970, beyond every date-time value).
pub const TIME_BOUND_NANOS: i128 = 10_000_000_000_000_000_000_000;

/// A point in time: nanoseconds since 1970-01-01T00:00:00 UTC.
#[derive(Clone, Copy, Debug, PartialEq, Eq, Structural)]
pub struct Timestamp {
    pub nanos: i128,
}

impl Timestamp {
    /// Within the range of date-time values.
    pub open spec fn valid(self) -> bool {
        -TIME_BOUND_NANOS <= self.nanos <= TIME_BOUND_NANOS
    }

    /// Whether `self` is at or before `other`.
    pub fn at_or_before(&self, other: &Timestamp) -> (r: bool)
        ensures
            r == (self.nanos <= other.nanos),
    {
        self.nanos <= other.nanos
    }

    /// The point `days` whole days later.
    pub fn plus_days(&self, days: u32) -> (r: Timestamp)
        requires
            self.valid(),
        ensures
            r.nanos == self.nanos + days * NANOS_PER_DAY,
    {
        assert(days * NANOS_PER_DAY <= 4294967295 * NANOS_PER_DAY) by (nonlinear_arith)
            requires
                days <= 4294967295,
        ;
        Timestamp { nanos: self.nanos + (days as i128) * NANOS_PER_DAY }
    }
}

/// A file identifier: the 128-bit value of a UUID, most significant byte first.
#[derive(Clone, Copy, Debug, PartialEq, Eq, Structural)]
pub struct FileId(pub u128);

pub const TWO_POW_96: u128 = 0x1_0000_0000_0000_0000_0000_0000;

pub const TWO_POW_80: u128 = 0x1_0000_0000_0000_0000_0000;

pub const TWO_POW_64: u128 = 0x1_0000_0000_0000_0000;

pub const TWO_POW_48: u128 = 0x1_0000_0000_0000;

pub const TWO_POW_16: u128 = 0x1_0000;

/// The hyphenated lower-case form of a UUID: 8-4-4-4-12 hexadecimal digits.
pub open spec fn uuid_text(v: u128) -> Seq<char> {
    hex_fixed((v / TWO_POW_96) as nat, 8) + seq!['-'] + hex_fixed(
        ((v / TWO_POW_80) % TWO_POW_16) as nat,
        4,
    ) + seq!['-'] + hex_fixed(((v / TWO_POW_64) % TWO_POW_16) as nat, 4) + seq!['-'] + hex_fixed(
        ((v / TWO_POW_48) % TWO_POW_16) as nat,
        4,
    ) + seq!['-'] + hex_fixed((v % TWO_POW_48) as nat, 12)
}

impl FileId {
    /// Appends the hyphenated lower-case form of the identifier.
    pub fn push_hyphenated(&self, out: &mut String)
        ensures
            final(out)@ == old(out)@ + uuid_text(self.0),
    {
        let v = self.0;
        push_hex_fixed(out, v / TWO_POW_96, 8);
        push_char(out, '-');
        push_hex_fixed(out, (v / TWO_POW_80) % TWO_POW_16, 4);
        push_char(out, '-');
        push_hex_fixed(out, (v / TWO_POW_64) % TWO_POW_16, 4);
        push_char(out, '-');
        push_hex_fixed(out, (v / TWO_POW_48) % TWO_POW_16, 4);
        push_char(out, '-');
        push_hex_fixed(out, v % TWO_POW_48, 12);
    }
}

} // verus!
