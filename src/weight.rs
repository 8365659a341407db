//! Two-dimensional execution cost.
use vstd::prelude::*;

verus! {

/// Cost of executing something: reference time and proof size.
#[derive(Clone, Copy, Debug, PartialEq, Eq, Structural)]
pub struct Weight {
    pub ref_time: u64,
    pub proof_size: u64,
}

/// Sum of two components, saturating at `u64::MAX`.
pub open spec fn sat_add_u64(a: u64, b: u64) -> u64 {
    if a + b > u64::MAX { u64::MAX } else { (a + b) as u64 }
}

impl Weight {
    pub fn from_parts(ref_time: u64, proof_size: u64) -> (r: Weight)
        ensures
            r.ref_time == ref_time,
            r.proof_size == proof_size,
    {
        Weight { ref_time, proof_size }
    }

    pub fn zero() -> (r: Weight)
        ensures
            r.ref_time == 0,
            r.proof_size == 0,
    {
        Weight { ref_time: 0, proof_size: 0 }
    }

    pub fn ref_time(&self) -> (r: u64)
        ensures
            r == self.ref_time,
    {
        self.ref_time
    }

    pub fn proof_size(&self) -> (r: u64)
        ensures
            r == self.proof_size,
    {
        self.proof_size
    }

    /// Component-wise saturating sum.
    pub fn saturating_add(&self, other: &Weight) -> (r: Weight)
        ensures
            r.ref_time == sat_add_u64(self.ref_time, other.ref_time),
            r.proof_size == sat_add_u64(self.proof_size, other.proof_size),
    {
        Weight {
            ref_time: self.ref_time.saturating_add(other.ref_time),
            proof_size: self.proof_size.saturating_add(other.proof_size),
        }
    }

    /// True when both components are at most those of `other`.
    pub fn all_lte(&self, other: &Weight) -> (r: bool)
        ensures
            r == self.fits_in(*other),
    {
        self.ref_time <= other.ref_time && self.proof_size <= other.proof_size
    }

    pub open spec fn fits_in(self, limit: Weight) -> bool {
        self.ref_time <= limit.ref_time && self.proof_size <= limit.proof_size
    }
}

} // verus!
