//! Exact units for the measured quantities.

use vstd::prelude::*;

verus! {

/// Bytes per second that make up one megabit per second.
pub const BYTES_PER_MEGABIT: u64 = 125_000;

/// A throughput in megabits per second, exact to the millionth.
#[derive(Debug, Clone, Copy, PartialEq, Eq)]
pub struct Mbps {
    whole: u64,
    millionths: u32,
}

impl Mbps {
    #[verifier::type_invariant]
    spec fn fraction_is_proper(self) -> bool {
        self.millionths < 1_000_000
    }

    /// The throughput in millionths of a megabit per second, that is in bits per second.
    pub closed spec fn in_millionths(self) -> nat {
        (self.whole * 1_000_000 + self.millionths) as nat
    }

    /// Converts a bandwidth in bytes per second: `mbps = bytes_per_second * 8 / 1_000_000`.
    pub fn from_bytes_per_second(bytes_per_second: u64) -> (r: Mbps)
        ensures
            r.in_millionths() == bytes_per_second * 8,
    {
        let whole: u64 = bytes_per_second / BYTES_PER_MEGABIT;
        let rest: u64 = bytes_per_second % BYTES_PER_MEGABIT;
        let millionths: u32 = (rest * 8) as u32;
        Mbps { whole, millionths }
    }

    /// The whole megabits per second.
    pub fn whole(&self) -> (r: u64)
        ensures
            r == self.in_millionths() / 1_000_000,
    {
        proof {
            use_type_invariant(self);
        }
        self.whole
    }

    /// The fraction of a megabit per second, in millionths.
    pub fn millionths(&self) -> (r: u32)
        ensures
            r == self.in_millionths() % 1_000_000,
            r < 1_000_000,
    {
        proof {
            use_type_invariant(self);
        }
        self.millionths
    }

    /// The throughput in bits per second.
    pub fn bits_per_second(&self) -> (r: u128)
        ensures
            r == self.in_millionths(),
    {
        proof {
            use_type_invariant(self);
        }
        let whole: u128 = self.whole as u128;
        let fraction: u128 = self.millionths as u128;
        whole * 1_000_000 + fraction
    }
}

/// A latency in milliseconds, carried as the bit pattern of an IEEE 754 binary64 number.
#[derive(Debug, Clone, Copy, PartialEq, Eq)]
pub struct Milliseconds {
    pub bits: u64,
}

} // verus!
