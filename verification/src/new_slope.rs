//! The 25-slot array of recomputed slopes.
use crate::base::TOBError;
use crate::scalar::Scalar;
use vstd::prelude::*;

verus! {

/// The recomputed slopes of step 5: 25 slots, numbered from 0 to 24.
///
/// It is a type of its own because its slots do not line up with the bands of
/// a [`TOBStorage`]: slot `k` holds the rise of the adjusted level into band
/// `k + 1`.
#[derive(Clone, Copy, Debug, PartialEq, Eq)]
pub struct NewSlope {
    slots: [Scalar; 25],
}

impl View for NewSlope {
    type V = Seq<Scalar>;

    closed spec fn view(&self) -> Seq<Scalar> {
        self.slots@
    }
}

/// There are exactly 25 recomputed slopes.
pub broadcast proof fn lemma_new_slope_len(s: NewSlope)
    ensures
        #[trigger] s@.len() == 25,
{
}

impl From<[Scalar; 25]> for NewSlope {
    /// The recomputed slopes with the given values, slot by slot.
    fn from(slots: [Scalar; 25]) -> (r: NewSlope)
        ensures
            r@ == slots@,
    {
        NewSlope { slots }
    }
}

impl vstd::std_specs::convert::FromSpecImpl<[Scalar; 25]> for NewSlope {
    open spec fn obeys_from_spec() -> bool {
        true
    }

    closed spec fn from_spec(slots: [Scalar; 25]) -> NewSlope {
        NewSlope { slots }
    }
}

impl NewSlope {
    /// Slot `k`, for a slot number known to be in range.
    pub fn slot(&self, k: usize) -> (r: Scalar)
        requires
            k <= 24,
        ensures
            r == self@[k as int],
    {
        self.slots[k]
    }

    /// Slot `k`, or `IndexOutOfRange` where `k` is not in `0..=24`.
    pub fn get(&self, k: usize) -> (r: Result<Scalar, TOBError>)
        ensures
            k <= 24 ==> r == Ok::<Scalar, TOBError>(self@[k as int]),
            k > 24 ==> r == Err::<Scalar, TOBError>(TOBError::IndexOutOfRange { index: k }),
    {
        if k <= 24 {
            Ok(self.slot(k))
        } else {
            Err(TOBError::IndexOutOfRange { index: k })
        }
    }
}

} // verus!
