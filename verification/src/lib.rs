//! Aircraft-noise certification metrics on one-third-octave-band spectra:
//! perceived noisiness, perceived noise level and the tone correction that
//! turns the latter into the tone-corrected perceived noise level.
//!
//! Levels are held as exact decimal fixed-point numbers ([`Scalar`]), so every
//! result is reproducible to the last digit, and every operation is total:
//! values that are not numbers flow through as `Nan` or as an infinity.
//!
//! Two steps need a transcendental function: ten to a power for the
//! noisiness, a binary logarithm for the noise level. The library computes
//! neither. It hands out their arguments ([`Noy::exponents`],
//! [`PNL::total_noisiness`]) and takes their results ([`Noy::from_powers`],
//! [`PNL::from_log2`]); [`PNLT::from_parts`] then adds the tone correction of
//! the spectrum to its noise level.
pub mod base;
pub mod new_slope;
pub mod noy;
pub mod pnl;
pub mod pnlt;
pub mod scalar;
pub mod spl;
pub mod tob_freq;

pub use base::{TOBArray, TOBError, TOBScalarType, TOBStorage, TOBSIZE};
pub use new_slope::NewSlope;
pub use noy::{noy_row, Noy, NoyBranch, NoyRow};
pub use pnl::PNL;
pub use pnlt::PNLT;
pub use scalar::{Scalar, SCALE};
pub use spl::SPL;
pub use tob_freq::{tob_freq, Freq};
