//! The one-third-octave-band container: 24 scalars, addressed by band number.
use crate::scalar::Scalar;
use vstd::prelude::*;

verus! {

/// Number of one-third-octave bands.
pub const TOBSIZE: usize = 24;

/// The scalar type of every band value.
pub type TOBScalarType = Scalar;

/// Raw storage of one spectrum: slot `k` holds band `k + 1`.
pub type TOBArray = [TOBScalarType; 24];

/// What a construction or an access can be refused for.
#[derive(Clone, Copy, Debug, PartialEq, Eq, Structural)]
pub enum TOBError {
    /// The source of a construction did not hold exactly `expected` values.
    LengthMismatch { expected: usize, found: usize },
    /// A band number outside `1..=24`.
    IndexOutOfRange { index: usize },
}

/// Band `i` (counted from 1) of a spectrum given by its slots.
pub open spec fn band(s: Seq<Scalar>, i: int) -> Scalar {
    s[i - 1]
}

/// The largest value among bands `lo..=hi`, taken from `lo` upwards with
/// [`Scalar::max_spec`]: a `Nan` band is passed over, and the result is `Nan`
/// only where every band of the range is.
pub open spec fn max_band(s: Seq<Scalar>, lo: int, hi: int) -> Scalar
    decreases hi - lo,
{
    if hi <= lo {
        band(s, lo)
    } else {
        max_band(s, lo, hi - 1).max_spec(band(s, hi))
    }
}

/// The sum of bands `1..=n`, added up from band 1 upwards, starting from zero.
pub open spec fn sum_band(s: Seq<Scalar>, n: int) -> Scalar
    decreases n,
{
    if n <= 0 {
        Scalar::Finite(0)
    } else {
        sum_band(s, n - 1).add_spec(band(s, n))
    }
}

/// Twenty-four scalars, one per band.
///
/// Bands are numbered from 1 to 24; the view is the sequence of the 24 slots,
/// so band `i` is `self@[i - 1]`.
#[derive(Clone, Copy, Debug, PartialEq, Eq)]
pub struct TOBStorage {
    storage: TOBArray,
}

impl View for TOBStorage {
    type V = Seq<Scalar>;

    closed spec fn view(&self) -> Seq<Scalar> {
        self.storage@
    }
}

/// Every container holds exactly 24 values.
pub broadcast proof fn lemma_tob_len(s: TOBStorage)
    ensures
        #[trigger] s@.len() == 24,
{
}

impl From<TOBArray> for TOBStorage {
    /// The container whose band `i` is `values[i - 1]`.
    fn from(values: TOBArray) -> (r: TOBStorage)
        ensures
            r@ == values@,
    {
        TOBStorage { storage: values }
    }
}

impl vstd::std_specs::convert::FromSpecImpl<TOBArray> for TOBStorage {
    open spec fn obeys_from_spec() -> bool {
        true
    }

    closed spec fn from_spec(values: TOBArray) -> TOBStorage {
        TOBStorage { storage: values }
    }
}

impl TOBStorage {
    /// The value of band `i`.
    pub open spec fn band(self, i: int) -> Scalar {
        band(self@, i)
    }

    /// A container with every band `Nan`.
    pub fn new() -> (r: TOBStorage)
        ensures
            r@ == Seq::new(24, |k: int| Scalar::Nan),
    {
        let r = TOBStorage { storage: [Scalar::Nan;24] };
        assert(r@ =~= Seq::new(24, |k: int| Scalar::Nan));
        r
    }

    /// A container with every band equal to `value`.
    pub fn filled(value: Scalar) -> (r: TOBStorage)
        ensures
            r@ == Seq::new(24, |k: int| value),
    {
        let r = TOBStorage { storage: [value;24] };
        assert(r@ =~= Seq::new(24, |k: int| value));
        r
    }

    /// The container that holds the 24 values of `values` in band order, or
    /// `LengthMismatch` where `values` does not hold exactly 24.
    pub fn from_slice(values: &[Scalar]) -> (r: Result<TOBStorage, TOBError>)
        ensures
            values@.len() == 24 ==> r is Ok && r->Ok_0@ == values@,
            values@.len() != 24 ==> r == Err::<TOBStorage, TOBError>(
                TOBError::LengthMismatch { expected: 24, found: values.len() },
            ),
    {
        if values.len() != TOBSIZE {
            return Err(TOBError::LengthMismatch { expected: TOBSIZE, found: values.len() });
        }
        let mut storage: TOBArray = [Scalar::Nan;24];
        for k in 0..24usize
            invariant
                values@.len() == 24,
                forall|j: int| 0 <= j < k ==> storage@[j] == values@[j],
        {
            storage[k] = values[k];
        }
        assert(storage@ =~= values@);
        Ok(TOBStorage { storage })
    }

    /// The 24 values in band order.
    pub fn to_vec(&self) -> (r: Vec<Scalar>)
        ensures
            r@ == self@,
    {
        let mut r: Vec<Scalar> = Vec::new();
        for k in 0..24usize
            invariant
                r@.len() == k,
                forall|j: int| 0 <= j < k ==> r@[j] == self@[j],
        {
            r.push(self.storage[k]);
        }
        assert(r@ =~= self@);
        r
    }

    /// Band `index`, for an index known to be in range.
    pub fn value(&self, index: usize) -> (r: Scalar)
        requires
            1 <= index <= 24,
        ensures
            r == self.band(index as int),
    {
        self.storage[index - 1]
    }

    /// Overwrites band `index`, for an index known to be in range.
    pub fn put(&mut self, index: usize, value: Scalar)
        requires
            1 <= index <= 24,
        ensures
            final(self)@ == old(self)@.update(index - 1, value),
            final(self)@.len() == 24,
            final(self).band(index as int) == value,
            forall|j: int|
                1 <= j <= 24 && j != index ==> final(self).band(j) == old(self).band(j),
    {
        self.storage[index - 1] = value;
    }

    /// The largest value among bands `first..=last`.
    pub fn max_in(&self, first: usize, last: usize) -> (r: Scalar)
        requires
            1 <= first <= last <= 24,
        ensures
            r == max_band(self@, first as int, last as int),
    {
        let mut r = self.value(first);
        let mut i: usize = first;
        while i < last
            invariant
                1 <= first <= i <= last <= 24,
                r == max_band(self@, first as int, i as int),
            decreases last - i,
        {
            i += 1;
            r = r.max(self.value(i));
        }
        r
    }

    /// The sum of all 24 bands.
    pub fn sum(&self) -> (r: Scalar)
        ensures
            r == sum_band(self@, 24),
    {
        let mut r = Scalar::Finite(0);
        let mut i: usize = 0;
        while i < 24
            invariant
                i <= 24,
                r == sum_band(self@, i as int),
            decreases 24 - i,
        {
            i += 1;
            r = r.add(self.value(i));
        }
        r
    }

    /// Band `index`, or `IndexOutOfRange` where `index` is not in `1..=24`.
    pub fn get(&self, index: usize) -> (r: Result<Scalar, TOBError>)
        ensures
            1 <= index <= 24 ==> r == Ok::<Scalar, TOBError>(self.band(index as int)),
            !(1 <= index <= 24) ==> r == Err::<Scalar, TOBError>(
                TOBError::IndexOutOfRange { index },
            ),
    {
        if 1 <= index && index <= TOBSIZE {
            Ok(self.value(index))
        } else {
            Err(TOBError::IndexOutOfRange { index })
        }
    }

    /// Overwrites band `index` and leaves the others as they were, or
    /// changes nothing and returns `IndexOutOfRange` where `index` is not in
    /// `1..=24`.
    pub fn set(&mut self, index: usize, value: Scalar) -> (r: Result<(), TOBError>)
        ensures
            1 <= index <= 24 ==> r == Ok::<(), TOBError>(()) && final(self)@ == old(self)@.update(
                index - 1,
                value,
            ),
            1 <= index <= 24 ==> final(self).band(index as int) == value,
            !(1 <= index <= 24) ==> r == Err::<(), TOBError>(TOBError::IndexOutOfRange { index })
                && final(self)@ == old(self)@,
            forall|j: int|
                1 <= j <= 24 && j != index ==> final(self).band(j) == old(self).band(j),
            final(self)@.len() == 24,
    {
        if 1 <= index && index <= TOBSIZE {
            self.put(index, value);
            Ok(())
        } else {
            Err(TOBError::IndexOutOfRange { index })
        }
    }
}

/// Reading a band after writing it gives the value written, whatever it is,
/// and the write leaves every other band as it was.
pub proof fn lemma_set_then_get(before: TOBStorage, after: TOBStorage, i: int, value: Scalar)
    requires
        1 <= i <= 24,
        after@ == before@.update(i - 1, value),
    ensures
        after.band(i) == value,
        forall|j: int| 1 <= j <= 24 && j != i ==> after.band(j) == before.band(j),
{
}

/// Over a range of equal values the maximum is that value.
pub proof fn lemma_max_band_constant(s: Seq<Scalar>, lo: int, hi: int, value: Scalar)
    requires
        lo <= hi,
        forall|i: int| lo <= i <= hi ==> band(s, i) == value,
    ensures
        max_band(s, lo, hi) == value,
    decreases hi - lo,
{
    if lo < hi {
        lemma_max_band_constant(s, lo, hi - 1, value);
    }
}

/// What [`max_band`] picks: `Nan` where every band of the range is `Nan`;
/// otherwise the value of one band of the range that is not `Nan`, and no
/// band of the range is larger.
pub proof fn lemma_max_band_is_maximum(s: Seq<Scalar>, lo: int, hi: int)
    requires
        lo <= hi,
    ensures
        max_band(s, lo, hi) is Nan <==> (forall|i: int| lo <= i <= hi ==> band(s, i) is Nan),
        exists|i: int| lo <= i <= hi && band(s, i) == max_band(s, lo, hi),
        forall|i: int|
            lo <= i <= hi && !(band(s, i) is Nan) ==> band(s, i).le_spec(max_band(s, lo, hi)),
    decreases hi - lo,
{
    if lo < hi {
        lemma_max_band_is_maximum(s, lo, hi - 1);
        let below = max_band(s, lo, hi - 1);
        let w = choose|i: int| lo <= i <= hi - 1 && band(s, i) == below;
        if max_band(s, lo, hi) == below {
            assert(lo <= w <= hi && band(s, w) == max_band(s, lo, hi));
        } else {
            assert(lo <= hi <= hi && band(s, hi) == max_band(s, lo, hi));
        }
        assert forall|i: int| lo <= i <= hi && !(band(s, i) is Nan) implies band(s, i).le_spec(
            max_band(s, lo, hi),
        ) by {
            if i < hi {
                assert(band(s, i).le_spec(below));
            }
        }
    } else {
        assert(lo <= lo <= hi && band(s, lo) == max_band(s, lo, hi));
    }
}

} // verus!
