//! Centre frequencies of the 24 bands.
use crate::base::{band, TOBStorage};
use crate::scalar::Scalar;
use vstd::prelude::*;

verus! {

/// The centre frequencies of the bands, in Hz: 50 Hz for band 1 up to
/// 10 kHz for band 24.
#[derive(Clone, Copy, Debug, PartialEq, Eq)]
pub struct Freq {
    frequency: TOBStorage,
}

impl View for Freq {
    type V = Seq<Scalar>;

    closed spec fn view(&self) -> Seq<Scalar> {
        self.frequency@
    }
}

/// The table of centre frequencies, band 1 first.
pub open spec fn tob_freq_spec() -> Seq<Scalar> {
    seq![
        Scalar::Finite(50_000_000_000),
        Scalar::Finite(63_000_000_000),
        Scalar::Finite(80_000_000_000),
        Scalar::Finite(100_000_000_000),
        Scalar::Finite(125_000_000_000),
        Scalar::Finite(160_000_000_000),
        Scalar::Finite(200_000_000_000),
        Scalar::Finite(250_000_000_000),
        Scalar::Finite(315_000_000_000),
        Scalar::Finite(400_000_000_000),
        Scalar::Finite(500_000_000_000),
        Scalar::Finite(630_000_000_000),
        Scalar::Finite(800_000_000_000),
        Scalar::Finite(1_000_000_000_000),
        Scalar::Finite(1_250_000_000_000),
        Scalar::Finite(1_600_000_000_000),
        Scalar::Finite(2_000_000_000_000),
        Scalar::Finite(2_500_000_000_000),
        Scalar::Finite(3_150_000_000_000),
        Scalar::Finite(4_000_000_000_000),
        Scalar::Finite(5_000_000_000_000),
        Scalar::Finite(6_300_000_000_000),
        Scalar::Finite(8_000_000_000_000),
        Scalar::Finite(10_000_000_000_000),
    ]
}

/// The frequency table. Every call returns the same 24 values.
pub fn tob_freq() -> (r: Freq)
    ensures
        r@ == tob_freq_spec(),
{
    let r = Freq {
        frequency: TOBStorage::from(
            [
                Scalar::Finite(50_000_000_000),
                Scalar::Finite(63_000_000_000),
                Scalar::Finite(80_000_000_000),
                Scalar::Finite(100_000_000_000),
                Scalar::Finite(125_000_000_000),
                Scalar::Finite(160_000_000_000),
                Scalar::Finite(200_000_000_000),
                Scalar::Finite(250_000_000_000),
                Scalar::Finite(315_000_000_000),
                Scalar::Finite(400_000_000_000),
                Scalar::Finite(500_000_000_000),
                Scalar::Finite(630_000_000_000),
                Scalar::Finite(800_000_000_000),
                Scalar::Finite(1_000_000_000_000),
                Scalar::Finite(1_250_000_000_000),
                Scalar::Finite(1_600_000_000_000),
                Scalar::Finite(2_000_000_000_000),
                Scalar::Finite(2_500_000_000_000),
                Scalar::Finite(3_150_000_000_000),
                Scalar::Finite(4_000_000_000_000),
                Scalar::Finite(5_000_000_000_000),
                Scalar::Finite(6_300_000_000_000),
                Scalar::Finite(8_000_000_000_000),
                Scalar::Finite(10_000_000_000_000),
            ],
        ),
    };
    assert(r@ =~= tob_freq_spec());
    r
}

impl Freq {
    /// The centre frequency of band `i`.
    pub open spec fn band(self, i: int) -> Scalar {
        band(self@, i)
    }
}

impl From<TOBStorage> for Freq {
    /// A frequency table with the values of `value`.
    fn from(value: TOBStorage) -> (r: Freq)
        ensures
            r@ == value@,
    {
        Freq { frequency: value }
    }
}

impl vstd::std_specs::convert::FromSpecImpl<TOBStorage> for Freq {
    open spec fn obeys_from_spec() -> bool {
        true
    }

    closed spec fn from_spec(value: TOBStorage) -> Freq {
        Freq { frequency: value }
    }
}

impl core::ops::Deref for Freq {
    type Target = TOBStorage;

    fn deref(&self) -> (r: &TOBStorage)
        ensures
            r@ == self@,
    {
        &self.frequency
    }
}

/// The centre frequencies are finite and rise strictly from band to band.
pub proof fn lemma_tob_freq_increasing(i: int, j: int)
    requires
        1 <= i < j <= 24,
    ensures
        band(tob_freq_spec(), i).lt_spec(band(tob_freq_spec(), j)),
        band(tob_freq_spec(), i) is Finite,
        band(tob_freq_spec(), j) is Finite,
{
}

} // verus!
