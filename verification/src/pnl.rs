//! Perceived noise level.
//!
//! The level of a noisiness spectrum is `40 + 10 * log2(N)`, where `N` is its
//! total noisiness. This module finds `N`, and builds the level from the
//! logarithm once that is known; taking the logarithm is left to the caller.
use crate::base::{max_band, sum_band};
use crate::noy::Noy;
use crate::scalar::Scalar;
use vstd::prelude::*;

verus! {

/// The total noisiness of a spectrum: 0.85 times its largest noisiness plus
/// 0.15 times the sum of all 24.
pub open spec fn total_noisiness_spec(noy: Seq<Scalar>) -> Scalar {
    Scalar::Finite(850_000_000).mul_spec(max_band(noy, 1, 24)).add_spec(
        Scalar::Finite(150_000_000).mul_spec(sum_band(noy, 24)),
    )
}

/// The perceived noise level of a spectrum whose total noisiness has the
/// binary logarithm `log2_noisiness`: 40 plus ten times the logarithm.
pub open spec fn pnl_spec(log2_noisiness: Scalar) -> Scalar {
    Scalar::Finite(40_000_000_000).add_spec(
        Scalar::Finite(10_000_000_000).mul_spec(log2_noisiness),
    )
}

/// A perceived noise level, in PNdB. Its view is the level itself.
#[derive(Clone, Copy, Debug, PartialEq, Eq)]
pub struct PNL {
    storage: Scalar,
}

impl View for PNL {
    type V = Scalar;

    closed spec fn view(&self) -> Scalar {
        self.storage
    }
}

impl From<Scalar> for PNL {
    /// The perceived noise level of the given value.
    fn from(value: Scalar) -> (r: PNL)
        ensures
            r@ == value,
    {
        PNL { storage: value }
    }
}

impl vstd::std_specs::convert::FromSpecImpl<Scalar> for PNL {
    open spec fn obeys_from_spec() -> bool {
        true
    }

    closed spec fn from_spec(value: Scalar) -> PNL {
        PNL { storage: value }
    }
}

impl core::ops::Deref for PNL {
    type Target = Scalar;

    fn deref(&self) -> (r: &Scalar)
        ensures
            *r == self@,
    {
        &self.storage
    }
}

impl PNL {
    /// The total noisiness of a spectrum. A spectrum of zeros has total
    /// noisiness zero: nothing is put in its place.
    pub fn total_noisiness(noy: &Noy) -> (n: Scalar)
        ensures
            n == total_noisiness_spec(noy@),
    {
        let largest = noy.max_in(1, 24);
        let sum = noy.sum();
        Scalar::Finite(850_000_000).mul(largest).add(Scalar::Finite(150_000_000).mul(sum))
    }

    /// The perceived noise level, given the binary logarithm of the total
    /// noisiness. An infinite or `Nan` logarithm gives a level of the same kind.
    pub fn from_log2(log2_noisiness: Scalar) -> (r: PNL)
        ensures
            r@ == pnl_spec(log2_noisiness),
    {
        PNL { storage: Scalar::Finite(40_000_000_000).add(
            Scalar::Finite(10_000_000_000).mul(log2_noisiness),
        ) }
    }
}

} // verus!
