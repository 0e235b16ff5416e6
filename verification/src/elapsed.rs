//! Elapsed wall-clock time as a whole number of nanoseconds, and how the
//! timings of a trial's workers are combined.
//!
//! The clock is read outside this crate. An `Elapsed` covers the same range
//! as `std::time::Duration`: whole seconds that fit `u64`, and below them
//! less than a second of nanoseconds.

use vstd::prelude::*;

verus! {

/// Nanoseconds in a second.
pub const NANOS_PER_SEC: u32 = 1_000_000_000;

/// The longest time an `Elapsed` can hold, in nanoseconds: `u64::MAX`
/// seconds and 999,999,999 nanoseconds.
pub const MAX_NANOS: u128 = 18_446_744_073_709_551_615_999_999_999;

/// A span of time. Its view is its length in nanoseconds.
#[derive(Clone, Copy, PartialEq, Eq, Structural, Debug)]
pub struct Elapsed {
    nanos: u128,
}

impl View for Elapsed {
    type V = nat;

    closed spec fn view(&self) -> nat {
        self.nanos as nat
    }
}

/// The sum of `samples`, in nanoseconds.
pub open spec fn total_nanos(samples: Seq<Elapsed>) -> nat
    decreases samples.len(),
{
    if samples.len() == 0 {
        0
    } else {
        total_nanos(samples.drop_last()) + samples.last()@
    }
}

/// The samples before any index sum to no more than all of them.
pub proof fn total_nanos_of_prefix(samples: Seq<Elapsed>, count: int)
    requires
        0 <= count <= samples.len(),
    ensures
        total_nanos(samples.take(count)) <= total_nanos(samples),
    decreases samples.len(),
{
    if count == samples.len() {
        assert(samples.take(count) =~= samples);
    } else {
        total_nanos_of_prefix(samples.drop_last(), count);
        assert(samples.drop_last().take(count) =~= samples.take(count));
    }
}

/// Taking one sample more adds that sample to the sum.
pub proof fn total_nanos_of_next(samples: Seq<Elapsed>, index: int)
    requires
        0 <= index < samples.len(),
    ensures
        total_nanos(samples.take(index + 1)) == total_nanos(samples.take(index))
            + samples[index]@,
{
    assert(samples.take(index + 1).drop_last() =~= samples.take(index));
}

/// The mean falls short of an even share of the sum by less than a
/// nanosecond.
pub proof fn mean_is_rounded_down(samples: Seq<Elapsed>)
    requires
        samples.len() > 0,
    ensures
        (total_nanos(samples) / samples.len()) * samples.len() <= total_nanos(samples),
        total_nanos(samples) < (total_nanos(samples) / samples.len() + 1) * samples.len(),
{
    let total = total_nanos(samples);
    let count = samples.len();
    assert((total / count) * count <= total && total < (total / count + 1) * count)
        by (nonlinear_arith)
        requires
            count > 0,
    ;
}

impl Elapsed {
    #[verifier::type_invariant]
    spec fn in_range(self) -> bool {
        self.nanos <= MAX_NANOS
    }

    /// No time at all.
    pub fn zero() -> (elapsed: Elapsed)
        ensures
            elapsed@ == 0,
    {
        Elapsed { nanos: 0 }
    }

    /// `secs` seconds and `subsec_nanos` nanoseconds. A second or more of
    /// nanoseconds is carried over into the seconds; the result is `None`
    /// exactly if the whole is longer than `MAX_NANOS`.
    pub fn new(secs: u64, subsec_nanos: u32) -> (elapsed: Option<Elapsed>)
        ensures
            match elapsed {
                Some(e) => e@ == secs * NANOS_PER_SEC + subsec_nanos,
                None => secs * NANOS_PER_SEC + subsec_nanos > MAX_NANOS,
            },
    {
        let nanos: u128 = secs as u128 * 1_000_000_000 + subsec_nanos as u128;
        if nanos > MAX_NANOS {
            None
        } else {
            Some(Elapsed { nanos })
        }
    }

    /// The whole seconds.
    pub fn as_secs(&self) -> (secs: u64)
        ensures
            secs == self@ / (NANOS_PER_SEC as nat),
    {
        proof {
            use_type_invariant(self);
        }
        (self.nanos / 1_000_000_000) as u64
    }

    /// The nanoseconds beyond the whole seconds.
    pub fn subsec_nanos(&self) -> (nanos: u32)
        ensures
            nanos == self@ % (NANOS_PER_SEC as nat),
            nanos < NANOS_PER_SEC,
    {
        (self.nanos % 1_000_000_000) as u32
    }

    /// The whole length in nanoseconds.
    pub fn as_nanos(&self) -> (nanos: u128)
        ensures
            nanos == self@,
            nanos <= MAX_NANOS,
    {
        proof {
            use_type_invariant(self);
        }
        self.nanos
    }

    /// The sum of two spans, or `None` exactly if it is longer than
    /// `MAX_NANOS`.
    pub fn checked_add(self, other: Elapsed) -> (sum: Option<Elapsed>)
        ensures
            match sum {
                Some(s) => s@ == self@ + other@,
                None => self@ + other@ > MAX_NANOS,
            },
    {
        proof {
            use_type_invariant(self);
            use_type_invariant(other);
        }
        let nanos: u128 = self.nanos + other.nanos;
        if nanos > MAX_NANOS {
            None
        } else {
            Some(Elapsed { nanos })
        }
    }

    /// This span divided by `divisor`, rounded down to a whole nanosecond, or
    /// `None` exactly if `divisor` is zero.
    pub fn checked_div(self, divisor: u64) -> (quotient: Option<Elapsed>)
        ensures
            match quotient {
                Some(q) => divisor != 0 && q@ == self@ / (divisor as nat),
                None => divisor == 0,
            },
    {
        proof {
            use_type_invariant(self);
        }
        if divisor == 0 {
            None
        } else {
            let nanos: u128 = self.nanos / (divisor as u128);
            assert(nanos <= self.nanos) by (nonlinear_arith)
                requires
                    nanos == self.nanos / (divisor as u128),
                    divisor > 0,
            ;
            Some(Elapsed { nanos })
        }
    }
}

/// The sum of `samples`, or `None` exactly if it is longer than `MAX_NANOS`.
pub fn total_elapsed(samples: &[Elapsed]) -> (total: Option<Elapsed>)
    ensures
        match total {
            Some(t) => t@ == total_nanos(samples@),
            None => total_nanos(samples@) > MAX_NANOS,
        },
{
    let mut sum: u128 = 0;
    let mut index: usize = 0;
    while index < samples.len()
        invariant
            index <= samples.len(),
            sum == total_nanos(samples@.take(index as int)),
            sum <= MAX_NANOS,
        decreases samples.len() - index,
    {
        let sample = samples[index];
        proof {
            use_type_invariant(sample);
            total_nanos_of_next(samples@, index as int);
        }
        if sum + sample.nanos > MAX_NANOS {
            proof {
                total_nanos_of_prefix(samples@, index + 1);
            }
            return None;
        }
        sum = sum + sample.nanos;
        index = index + 1;
    }
    assert(samples@.take(index as int) =~= samples@);
    Some(Elapsed { nanos: sum })
}

/// The mean of `samples`: their sum divided by their number, rounded down to
/// a whole nanosecond. `None` exactly if there is no sample or the sum is
/// longer than `MAX_NANOS`.
pub fn mean_elapsed(samples: &[Elapsed]) -> (mean: Option<Elapsed>)
    ensures
        match mean {
            Some(m) => {
                &&& samples@.len() > 0
                &&& total_nanos(samples@) <= MAX_NANOS
                &&& m@ == total_nanos(samples@) / samples@.len()
            },
            None => samples@.len() == 0 || total_nanos(samples@) > MAX_NANOS,
        },
{
    if samples.len() == 0 {
        return None;
    }
    match total_elapsed(samples) {
        None => None,
        Some(total) => {
            proof {
                use_type_invariant(total);
            }
            total.checked_div(samples.len() as u64)
        },
    }
}

} // verus!
