//! Measured sound pressure levels, one per band, in dB.
use crate::base::{band, TOBArray, TOBError, TOBStorage};
use crate::scalar::Scalar;
use vstd::prelude::*;

verus! {

/// A spectrum of sound pressure levels.
///
/// It is a [`TOBStorage`] under another name: every accessor of the
/// container is reached through `Deref`.
#[derive(Clone, Copy, Debug, PartialEq, Eq)]
pub struct SPL {
    storage: TOBStorage,
}

impl View for SPL {
    type V = Seq<Scalar>;

    closed spec fn view(&self) -> Seq<Scalar> {
        self.storage@
    }
}

/// Every spectrum holds exactly 24 levels.
pub broadcast proof fn lemma_spl_len(s: SPL)
    ensures
        #[trigger] s@.len() == 24,
{
    crate::base::lemma_tob_len(s.storage);
}

impl SPL {
    /// The level of band `i`.
    pub open spec fn band(self, i: int) -> Scalar {
        band(self@, i)
    }

    /// A spectrum with every level `Nan`.
    pub fn new() -> (r: SPL)
        ensures
            r@ == Seq::new(24, |k: int| Scalar::Nan),
    {
        SPL { storage: TOBStorage::new() }
    }

    /// The spectrum that holds the 24 levels of `values` in band order, or
    /// `LengthMismatch` where `values` does not hold exactly 24.
    pub fn from_slice(values: &[Scalar]) -> (r: Result<SPL, TOBError>)
        ensures
            values@.len() == 24 ==> r is Ok && r->Ok_0@ == values@,
            values@.len() != 24 ==> r == Err::<SPL, TOBError>(
                TOBError::LengthMismatch { expected: 24, found: values.len() },
            ),
    {
        match TOBStorage::from_slice(values) {
            Ok(storage) => Ok(SPL { storage }),
            Err(e) => Err(e),
        }
    }
}

impl From<TOBStorage> for SPL {
    /// The spectrum with the levels of `value`.
    fn from(value: TOBStorage) -> (r: SPL)
        ensures
            r@ == value@,
    {
        SPL { storage: value }
    }
}

impl vstd::std_specs::convert::FromSpecImpl<TOBStorage> for SPL {
    open spec fn obeys_from_spec() -> bool {
        true
    }

    closed spec fn from_spec(value: TOBStorage) -> SPL {
        SPL { storage: value }
    }
}

impl From<TOBArray> for SPL {
    /// The spectrum whose band `i` is `value[i - 1]`.
    fn from(value: TOBArray) -> (r: SPL)
        ensures
            r@ == value@,
    {
        SPL { storage: TOBStorage::from(value) }
    }
}

impl vstd::std_specs::convert::FromSpecImpl<TOBArray> for SPL {
    open spec fn obeys_from_spec() -> bool {
        true
    }

    closed spec fn from_spec(value: TOBArray) -> SPL {
        SPL { storage: <TOBStorage as vstd::std_specs::convert::FromSpec<TOBArray>>::from_spec(value) }
    }
}

impl core::ops::Deref for SPL {
    type Target = TOBStorage;

    fn deref(&self) -> (r: &TOBStorage)
        ensures
            r@ == self@,
    {
        &self.storage
    }
}

impl core::ops::DerefMut for SPL {
    fn deref_mut(&mut self) -> (r: &mut TOBStorage)
        ensures
            r@ == old(self)@,
            final(self)@ == final(r)@,
    {
        &mut self.storage
    }
}

} // verus!
