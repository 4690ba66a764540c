//! Perceived noisiness, in noy.
//!
//! The noisiness of a band is `factor * 10^exponent`, where the factor and
//! the exponent follow from the level of the band and its row of the noy
//! table. This module finds the exponent, and builds the noisiness from the
//! power of ten once that is known; raising ten to the exponent is left to
//! the caller.
use crate::base::{band, lemma_tob_len, TOBError, TOBStorage};
use crate::scalar::Scalar;
use crate::spl::{lemma_spl_len, SPL};
use vstd::prelude::*;

verus! {

broadcast use {lemma_tob_len, lemma_spl_len};

/// One row of the noy table: the thresholds and slopes of one band.
///
/// The thresholds `spla`, `splb`, `splc`, `spld` and `sple` are levels in dB,
/// the slopes `mb`, `mc`, `md` and `me` are in decades per dB. Where `spla`
/// is `PosInf` the branch above it is closed to every finite level, and its
/// slope `mc` is `Nan`.
#[derive(Clone, Copy, Debug, PartialEq, Eq, Structural)]
pub struct NoyRow {
    pub spla: Scalar,
    pub splb: Scalar,
    pub splc: Scalar,
    pub spld: Scalar,
    pub sple: Scalar,
    pub mb: Scalar,
    pub mc: Scalar,
    pub md: Scalar,
    pub me: Scalar,
}

/// The branch of the noy formula that a level falls into.
#[derive(Clone, Copy, Debug, PartialEq, Eq, Structural)]
pub enum NoyBranch {
    /// At or above `spla`: `10^(mc * (level - splc))`.
    A,
    /// At or above `splb`, below `spla`: `10^(mb * (level - splb))`.
    B,
    /// At or above `sple`, below `splb`: `0.3 * 10^(me * (level - sple))`.
    E,
    /// Every other level, `Nan` included: `0.1 * 10^(md * (level - spld))`.
    D,
}

/// The row of band `band` of the noy table. Only bands 1 to 24 have a row;
/// any other number is given that of band 24.
pub open spec fn noy_row_spec(band: int) -> NoyRow {
    if band == 1 {
        NoyRow {
            spla: Scalar::Finite(91_000_000_000),
            splb: Scalar::Finite(64_000_000_000),
            splc: Scalar::Finite(52_000_000_000),
            spld: Scalar::Finite(49_000_000_000),
            sple: Scalar::Finite(55_000_000_000),
            mb: Scalar::Finite(43_478_000),
            mc: Scalar::Finite(30_103_000),
            md: Scalar::Finite(79_520_000),
            me: Scalar::Finite(58_098_000),
        }
    } else if band == 2 {
        NoyRow {
            spla: Scalar::Finite(85_900_000_000),
            splb: Scalar::Finite(60_000_000_000),
            splc: Scalar::Finite(51_000_000_000),
            spld: Scalar::Finite(44_000_000_000),
            sple: Scalar::Finite(51_000_000_000),
            mb: Scalar::Finite(40_570_000),
            mc: Scalar::Finite(30_103_000),
            md: Scalar::Finite(68_160_000),
            me: Scalar::Finite(58_098_000),
        }
    } else if band == 3 {
        NoyRow {
            spla: Scalar::Finite(87_300_000_000),
            splb: Scalar::Finite(56_000_000_000),
            splc: Scalar::Finite(49_000_000_000),
            spld: Scalar::Finite(39_000_000_000),
            sple: Scalar::Finite(46_000_000_000),
            mb: Scalar::Finite(36_831_000),
            mc: Scalar::Finite(30_103_000),
            md: Scalar::Finite(68_160_000),
            me: Scalar::Finite(52_288_000),
        }
    } else if band == 4 {
        NoyRow {
            spla: Scalar::Finite(79_000_000_000),
            splb: Scalar::Finite(53_000_000_000),
            splc: Scalar::Finite(47_000_000_000),
            spld: Scalar::Finite(34_000_000_000),
            sple: Scalar::Finite(42_000_000_000),
            mb: Scalar::Finite(36_831_000),
            mc: Scalar::Finite(30_103_000),
            md: Scalar::Finite(59_640_000),
            me: Scalar::Finite(47_534_000),
        }
    } else if band == 5 {
        NoyRow {
            spla: Scalar::Finite(79_800_000_000),
            splb: Scalar::Finite(51_000_000_000),
            splc: Scalar::Finite(46_000_000_000),
            spld: Scalar::Finite(30_000_000_000),
            sple: Scalar::Finite(39_000_000_000),
            mb: Scalar::Finite(35_336_000),
            mc: Scalar::Finite(30_103_000),
            md: Scalar::Finite(53_013_000),
            me: Scalar::Finite(43_573_000),
        }
    } else if band == 6 {
        NoyRow {
            spla: Scalar::Finite(76_000_000_000),
            splb: Scalar::Finite(48_000_000_000),
            splc: Scalar::Finite(45_000_000_000),
            spld: Scalar::Finite(27_000_000_000),
            sple: Scalar::Finite(36_000_000_000),
            mb: Scalar::Finite(33_333_000),
            mc: Scalar::Finite(30_103_000),
            md: Scalar::Finite(53_013_000),
            me: Scalar::Finite(43_573_000),
        }
    } else if band == 7 {
        NoyRow {
            spla: Scalar::Finite(74_000_000_000),
            splb: Scalar::Finite(46_000_000_000),
            splc: Scalar::Finite(43_000_000_000),
            spld: Scalar::Finite(24_000_000_000),
            sple: Scalar::Finite(33_000_000_000),
            mb: Scalar::Finite(33_333_000),
            mc: Scalar::Finite(30_103_000),
            md: Scalar::Finite(53_013_000),
            me: Scalar::Finite(40_221_000),
        }
    } else if band == 8 {
        NoyRow {
            spla: Scalar::Finite(74_900_000_000),
            splb: Scalar::Finite(44_000_000_000),
            splc: Scalar::Finite(42_000_000_000),
            spld: Scalar::Finite(21_000_000_000),
            sple: Scalar::Finite(30_000_000_000),
            mb: Scalar::Finite(32_051_000),
            mc: Scalar::Finite(30_103_000),
            md: Scalar::Finite(53_013_000),
            me: Scalar::Finite(37_349_000),
        }
    } else if band == 9 {
        NoyRow {
            spla: Scalar::Finite(94_600_000_000),
            splb: Scalar::Finite(42_000_000_000),
            splc: Scalar::Finite(41_000_000_000),
            spld: Scalar::Finite(18_000_000_000),
            sple: Scalar::Finite(27_000_000_000),
            mb: Scalar::Finite(30_675_000),
            mc: Scalar::Finite(30_103_000),
            md: Scalar::Finite(53_013_000),
            me: Scalar::Finite(34_859_000),
        }
    } else if band == 10 {
        NoyRow {
            spla: Scalar::PosInf,
            splb: Scalar::Finite(40_000_000_000),
            splc: Scalar::Finite(40_000_000_000),
            spld: Scalar::Finite(16_000_000_000),
            sple: Scalar::Finite(25_000_000_000),
            mb: Scalar::Finite(30_103_000),
            mc: Scalar::Nan,
            md: Scalar::Finite(53_013_000),
            me: Scalar::Finite(34_859_000),
        }
    } else if band == 11 {
        NoyRow {
            spla: Scalar::PosInf,
            splb: Scalar::Finite(40_000_000_000),
            splc: Scalar::Finite(40_000_000_000),
            spld: Scalar::Finite(16_000_000_000),
            sple: Scalar::Finite(25_000_000_000),
            mb: Scalar::Finite(30_103_000),
            mc: Scalar::Nan,
            md: Scalar::Finite(53_013_000),
            me: Scalar::Finite(34_859_000),
        }
    } else if band == 12 {
        NoyRow {
            spla: Scalar::PosInf,
            splb: Scalar::Finite(40_000_000_000),
            splc: Scalar::Finite(40_000_000_000),
            spld: Scalar::Finite(16_000_000_000),
            sple: Scalar::Finite(25_000_000_000),
            mb: Scalar::Finite(30_103_000),
            mc: Scalar::Nan,
            md: Scalar::Finite(53_013_000),
            me: Scalar::Finite(34_859_000),
        }
    } else if band == 13 {
        NoyRow {
            spla: Scalar::PosInf,
            splb: Scalar::Finite(40_000_000_000),
            splc: Scalar::Finite(40_000_000_000),
            spld: Scalar::Finite(16_000_000_000),
            sple: Scalar::Finite(25_000_000_000),
            mb: Scalar::Finite(30_103_000),
            mc: Scalar::Nan,
            md: Scalar::Finite(53_013_000),
            me: Scalar::Finite(34_859_000),
        }
    } else if band == 14 {
        NoyRow {
            spla: Scalar::PosInf,
            splb: Scalar::Finite(40_000_000_000),
            splc: Scalar::Finite(40_000_000_000),
            spld: Scalar::Finite(16_000_000_000),
            sple: Scalar::Finite(25_000_000_000),
            mb: Scalar::Finite(30_103_000),
            mc: Scalar::Nan,
            md: Scalar::Finite(53_013_000),
            me: Scalar::Finite(34_859_000),
        }
    } else if band == 15 {
        NoyRow {
            spla: Scalar::PosInf,
            splb: Scalar::Finite(38_000_000_000),
            splc: Scalar::Finite(38_000_000_000),
            spld: Scalar::Finite(15_000_000_000),
            sple: Scalar::Finite(23_000_000_000),
            mb: Scalar::Finite(30_103_000),
            mc: Scalar::Nan,
            md: Scalar::Finite(59_640_000),
            me: Scalar::Finite(34_859_000),
        }
    } else if band == 16 {
        NoyRow {
            spla: Scalar::PosInf,
            splb: Scalar::Finite(34_000_000_000),
            splc: Scalar::Finite(34_000_000_000),
            spld: Scalar::Finite(12_000_000_000),
            sple: Scalar::Finite(21_000_000_000),
            mb: Scalar::Finite(29_960_000),
            mc: Scalar::Nan,
            md: Scalar::Finite(53_013_000),
            me: Scalar::Finite(40_221_000),
        }
    } else if band == 17 {
        NoyRow {
            spla: Scalar::PosInf,
            splb: Scalar::Finite(32_000_000_000),
            splc: Scalar::Finite(32_000_000_000),
            spld: Scalar::Finite(9_000_000_000),
            sple: Scalar::Finite(18_000_000_000),
            mb: Scalar::Finite(29_960_000),
            mc: Scalar::Nan,
            md: Scalar::Finite(53_013_000),
            me: Scalar::Finite(37_349_000),
        }
    } else if band == 18 {
        NoyRow {
            spla: Scalar::PosInf,
            splb: Scalar::Finite(30_000_000_000),
            splc: Scalar::Finite(30_000_000_000),
            spld: Scalar::Finite(5_000_000_000),
            sple: Scalar::Finite(15_000_000_000),
            mb: Scalar::Finite(29_960_000),
            mc: Scalar::Nan,
            md: Scalar::Finite(47_712_000),
            me: Scalar::Finite(34_859_000),
        }
    } else if band == 19 {
        NoyRow {
            spla: Scalar::PosInf,
            splb: Scalar::Finite(29_000_000_000),
            splc: Scalar::Finite(29_000_000_000),
            spld: Scalar::Finite(4_000_000_000),
            sple: Scalar::Finite(14_000_000_000),
            mb: Scalar::Finite(29_960_000),
            mc: Scalar::Nan,
            md: Scalar::Finite(47_712_000),
            me: Scalar::Finite(34_859_000),
        }
    } else if band == 20 {
        NoyRow {
            spla: Scalar::PosInf,
            splb: Scalar::Finite(29_000_000_000),
            splc: Scalar::Finite(29_000_000_000),
            spld: Scalar::Finite(5_000_000_000),
            sple: Scalar::Finite(14_000_000_000),
            mb: Scalar::Finite(29_960_000),
            mc: Scalar::Nan,
            md: Scalar::Finite(53_013_000),
            me: Scalar::Finite(34_859_000),
        }
    } else if band == 21 {
        NoyRow {
            spla: Scalar::PosInf,
            splb: Scalar::Finite(30_000_000_000),
            splc: Scalar::Finite(30_000_000_000),
            spld: Scalar::Finite(6_000_000_000),
            sple: Scalar::Finite(15_000_000_000),
            mb: Scalar::Finite(29_960_000),
            mc: Scalar::Nan,
            md: Scalar::Finite(53_013_000),
            me: Scalar::Finite(34_859_000),
        }
    } else if band == 22 {
        NoyRow {
            spla: Scalar::PosInf,
            splb: Scalar::Finite(31_000_000_000),
            splc: Scalar::Finite(31_000_000_000),
            spld: Scalar::Finite(10_000_000_000),
            sple: Scalar::Finite(17_000_000_000),
            mb: Scalar::Finite(29_960_000),
            mc: Scalar::Nan,
            md: Scalar::Finite(68_160_000),
            me: Scalar::Finite(37_349_000),
        }
    } else if band == 23 {
        NoyRow {
            spla: Scalar::Finite(44_300_000_000),
            splb: Scalar::Finite(37_000_000_000),
            splc: Scalar::Finite(34_000_000_000),
            spld: Scalar::Finite(17_000_000_000),
            sple: Scalar::Finite(23_000_000_000),
            mb: Scalar::Finite(42_285_000),
            mc: Scalar::Finite(29_960_000),
            md: Scalar::Finite(79_520_000),
            me: Scalar::Finite(37_349_000),
        }
    } else {
        NoyRow {
            spla: Scalar::Finite(50_700_000_000),
            splb: Scalar::Finite(41_000_000_000),
            splc: Scalar::Finite(37_000_000_000),
            spld: Scalar::Finite(21_000_000_000),
            sple: Scalar::Finite(29_000_000_000),
            mb: Scalar::Finite(42_285_000),
            mc: Scalar::Finite(29_960_000),
            md: Scalar::Finite(59_640_000),
            me: Scalar::Finite(43_573_000),
        }
    }
}

/// The branch that `level` falls into: the first, from `A` down, whose
/// threshold it reaches.
pub open spec fn noy_branch_spec(row: NoyRow, level: Scalar) -> NoyBranch {
    if level.ge_spec(row.spla) {
        NoyBranch::A
    } else if level.ge_spec(row.splb) {
        NoyBranch::B
    } else if level.ge_spec(row.sple) {
        NoyBranch::E
    } else {
        NoyBranch::D
    }
}

/// The exponent of ten for `level`: the slope of its branch times the
/// distance of the level from the reference level of the branch.
pub open spec fn noy_exponent_spec(row: NoyRow, level: Scalar) -> Scalar {
    match noy_branch_spec(row, level) {
        NoyBranch::A => row.mc.mul_spec(level.sub_spec(row.splc)),
        NoyBranch::B => row.mb.mul_spec(level.sub_spec(row.splb)),
        NoyBranch::E => row.me.mul_spec(level.sub_spec(row.sple)),
        NoyBranch::D => row.md.mul_spec(level.sub_spec(row.spld)),
    }
}

/// The factor in front of the power of ten: 1 for branches `A` and `B`, 0.3
/// for `E`, 0.1 for `D`.
pub open spec fn noy_factor_spec(branch: NoyBranch) -> Scalar {
    match branch {
        NoyBranch::A => Scalar::Finite(1_000_000_000),
        NoyBranch::B => Scalar::Finite(1_000_000_000),
        NoyBranch::E => Scalar::Finite(300_000_000),
        NoyBranch::D => Scalar::Finite(100_000_000),
    }
}

/// The noisiness of a band at `level`, given `power`, the value of ten raised
/// to [`noy_exponent_spec`] of the same row and level.
pub open spec fn noy_value_spec(row: NoyRow, level: Scalar, power: Scalar) -> Scalar {
    noy_factor_spec(noy_branch_spec(row, level)).mul_spec(power)
}

/// The exponents of all 24 bands of a spectrum.
pub open spec fn noy_exponents_spec(spl: Seq<Scalar>) -> Seq<Scalar> {
    Seq::new(24, |k: int| noy_exponent_spec(noy_row_spec(k + 1), spl[k]))
}

/// The noisiness of all 24 bands of a spectrum, given the power of ten of each.
pub open spec fn noy_values_spec(spl: Seq<Scalar>, powers: Seq<Scalar>) -> Seq<Scalar> {
    Seq::new(24, |k: int| noy_value_spec(noy_row_spec(k + 1), spl[k], powers[k]))
}

fn table_row(band: usize) -> (row: NoyRow)
    requires
        1 <= band <= 24,
    ensures
        row == noy_row_spec(band as int),
{
    if band == 1 {
        NoyRow {
            spla: Scalar::Finite(91_000_000_000),
            splb: Scalar::Finite(64_000_000_000),
            splc: Scalar::Finite(52_000_000_000),
            spld: Scalar::Finite(49_000_000_000),
            sple: Scalar::Finite(55_000_000_000),
            mb: Scalar::Finite(43_478_000),
            mc: Scalar::Finite(30_103_000),
            md: Scalar::Finite(79_520_000),
            me: Scalar::Finite(58_098_000),
        }
    } else if band == 2 {
        NoyRow {
            spla: Scalar::Finite(85_900_000_000),
            splb: Scalar::Finite(60_000_000_000),
            splc: Scalar::Finite(51_000_000_000),
            spld: Scalar::Finite(44_000_000_000),
            sple: Scalar::Finite(51_000_000_000),
            mb: Scalar::Finite(40_570_000),
            mc: Scalar::Finite(30_103_000),
            md: Scalar::Finite(68_160_000),
            me: Scalar::Finite(58_098_000),
        }
    } else if band == 3 {
        NoyRow {
            spla: Scalar::Finite(87_300_000_000),
            splb: Scalar::Finite(56_000_000_000),
            splc: Scalar::Finite(49_000_000_000),
            spld: Scalar::Finite(39_000_000_000),
            sple: Scalar::Finite(46_000_000_000),
            mb: Scalar::Finite(36_831_000),
            mc: Scalar::Finite(30_103_000),
            md: Scalar::Finite(68_160_000),
            me: Scalar::Finite(52_288_000),
        }
    } else if band == 4 {
        NoyRow {
            spla: Scalar::Finite(79_000_000_000),
            splb: Scalar::Finite(53_000_000_000),
            splc: Scalar::Finite(47_000_000_000),
            spld: Scalar::Finite(34_000_000_000),
            sple: Scalar::Finite(42_000_000_000),
            mb: Scalar::Finite(36_831_000),
            mc: Scalar::Finite(30_103_000),
            md: Scalar::Finite(59_640_000),
            me: Scalar::Finite(47_534_000),
        }
    } else if band == 5 {
        NoyRow {
            spla: Scalar::Finite(79_800_000_000),
            splb: Scalar::Finite(51_000_000_000),
            splc: Scalar::Finite(46_000_000_000),
            spld: Scalar::Finite(30_000_000_000),
            sple: Scalar::Finite(39_000_000_000),
            mb: Scalar::Finite(35_336_000),
            mc: Scalar::Finite(30_103_000),
            md: Scalar::Finite(53_013_000),
            me: Scalar::Finite(43_573_000),
        }
    } else if band == 6 {
        NoyRow {
            spla: Scalar::Finite(76_000_000_000),
            splb: Scalar::Finite(48_000_000_000),
            splc: Scalar::Finite(45_000_000_000),
            spld: Scalar::Finite(27_000_000_000),
            sple: Scalar::Finite(36_000_000_000),
            mb: Scalar::Finite(33_333_000),
            mc: Scalar::Finite(30_103_000),
            md: Scalar::Finite(53_013_000),
            me: Scalar::Finite(43_573_000),
        }
    } else if band == 7 {
        NoyRow {
            spla: Scalar::Finite(74_000_000_000),
            splb: Scalar::Finite(46_000_000_000),
            splc: Scalar::Finite(43_000_000_000),
            spld: Scalar::Finite(24_000_000_000),
            sple: Scalar::Finite(33_000_000_000),
            mb: Scalar::Finite(33_333_000),
            mc: Scalar::Finite(30_103_000),
            md: Scalar::Finite(53_013_000),
            me: Scalar::Finite(40_221_000),
        }
    } else if band == 8 {
        NoyRow {
            spla: Scalar::Finite(74_900_000_000),
            splb: Scalar::Finite(44_000_000_000),
            splc: Scalar::Finite(42_000_000_000),
            spld: Scalar::Finite(21_000_000_000),
            sple: Scalar::Finite(30_000_000_000),
            mb: Scalar::Finite(32_051_000),
            mc: Scalar::Finite(30_103_000),
            md: Scalar::Finite(53_013_000),
            me: Scalar::Finite(37_349_000),
        }
    } else if band == 9 {
        NoyRow {
            spla: Scalar::Finite(94_600_000_000),
            splb: Scalar::Finite(42_000_000_000),
            splc: Scalar::Finite(41_000_000_000),
            spld: Scalar::Finite(18_000_000_000),
            sple: Scalar::Finite(27_000_000_000),
            mb: Scalar::Finite(30_675_000),
            mc: Scalar::Finite(30_103_000),
            md: Scalar::Finite(53_013_000),
            me: Scalar::Finite(34_859_000),
        }
    } else if band == 10 {
        NoyRow {
            spla: Scalar::PosInf,
            splb: Scalar::Finite(40_000_000_000),
            splc: Scalar::Finite(40_000_000_000),
            spld: Scalar::Finite(16_000_000_000),
            sple: Scalar::Finite(25_000_000_000),
            mb: Scalar::Finite(30_103_000),
            mc: Scalar::Nan,
            md: Scalar::Finite(53_013_000),
            me: Scalar::Finite(34_859_000),
        }
    } else if band == 11 {
        NoyRow {
            spla: Scalar::PosInf,
            splb: Scalar::Finite(40_000_000_000),
            splc: Scalar::Finite(40_000_000_000),
            spld: Scalar::Finite(16_000_000_000),
            sple: Scalar::Finite(25_000_000_000),
            mb: Scalar::Finite(30_103_000),
            mc: Scalar::Nan,
            md: Scalar::Finite(53_013_000),
            me: Scalar::Finite(34_859_000),
        }
    } else if band == 12 {
        NoyRow {
            spla: Scalar::PosInf,
            splb: Scalar::Finite(40_000_000_000),
            splc: Scalar::Finite(40_000_000_000),
            spld: Scalar::Finite(16_000_000_000),
            sple: Scalar::Finite(25_000_000_000),
            mb: Scalar::Finite(30_103_000),
            mc: Scalar::Nan,
            md: Scalar::Finite(53_013_000),
            me: Scalar::Finite(34_859_000),
        }
    } else if band == 13 {
        NoyRow {
            spla: Scalar::PosInf,
            splb: Scalar::Finite(40_000_000_000),
            splc: Scalar::Finite(40_000_000_000),
            spld: Scalar::Finite(16_000_000_000),
            sple: Scalar::Finite(25_000_000_000),
            mb: Scalar::Finite(30_103_000),
            mc: Scalar::Nan,
            md: Scalar::Finite(53_013_000),
            me: Scalar::Finite(34_859_000),
        }
    } else if band == 14 {
        NoyRow {
            spla: Scalar::PosInf,
            splb: Scalar::Finite(40_000_000_000),
            splc: Scalar::Finite(40_000_000_000),
            spld: Scalar::Finite(16_000_000_000),
            sple: Scalar::Finite(25_000_000_000),
            mb: Scalar::Finite(30_103_000),
            mc: Scalar::Nan,
            md: Scalar::Finite(53_013_000),
            me: Scalar::Finite(34_859_000),
        }
    } else if band == 15 {
        NoyRow {
            spla: Scalar::PosInf,
            splb: Scalar::Finite(38_000_000_000),
            splc: Scalar::Finite(38_000_000_000),
            spld: Scalar::Finite(15_000_000_000),
            sple: Scalar::Finite(23_000_000_000),
            mb: Scalar::Finite(30_103_000),
            mc: Scalar::Nan,
            md: Scalar::Finite(59_640_000),
            me: Scalar::Finite(34_859_000),
        }
    } else if band == 16 {
        NoyRow {
            spla: Scalar::PosInf,
            splb: Scalar::Finite(34_000_000_000),
            splc: Scalar::Finite(34_000_000_000),
            spld: Scalar::Finite(12_000_000_000),
            sple: Scalar::Finite(21_000_000_000),
            mb: Scalar::Finite(29_960_000),
            mc: Scalar::Nan,
            md: Scalar::Finite(53_013_000),
            me: Scalar::Finite(40_221_000),
        }
    } else if band == 17 {
        NoyRow {
            spla: Scalar::PosInf,
            splb: Scalar::Finite(32_000_000_000),
            splc: Scalar::Finite(32_000_000_000),
            spld: Scalar::Finite(9_000_000_000),
            sple: Scalar::Finite(18_000_000_000),
            mb: Scalar::Finite(29_960_000),
            mc: Scalar::Nan,
            md: Scalar::Finite(53_013_000),
            me: Scalar::Finite(37_349_000),
        }
    } else if band == 18 {
        NoyRow {
            spla: Scalar::PosInf,
            splb: Scalar::Finite(30_000_000_000),
            splc: Scalar::Finite(30_000_000_000),
            spld: Scalar::Finite(5_000_000_000),
            sple: Scalar::Finite(15_000_000_000),
            mb: Scalar::Finite(29_960_000),
            mc: Scalar::Nan,
            md: Scalar::Finite(47_712_000),
            me: Scalar::Finite(34_859_000),
        }
    } else if band == 19 {
        NoyRow {
            spla: Scalar::PosInf,
            splb: Scalar::Finite(29_000_000_000),
            splc: Scalar::Finite(29_000_000_000),
            spld: Scalar::Finite(4_000_000_000),
            sple: Scalar::Finite(14_000_000_000),
            mb: Scalar::Finite(29_960_000),
            mc: Scalar::Nan,
            md: Scalar::Finite(47_712_000),
            me: Scalar::Finite(34_859_000),
        }
    } else if band == 20 {
        NoyRow {
            spla: Scalar::PosInf,
            splb: Scalar::Finite(29_000_000_000),
            splc: Scalar::Finite(29_000_000_000),
            spld: Scalar::Finite(5_000_000_000),
            sple: Scalar::Finite(14_000_000_000),
            mb: Scalar::Finite(29_960_000),
            mc: Scalar::Nan,
            md: Scalar::Finite(53_013_000),
            me: Scalar::Finite(34_859_000),
        }
    } else if band == 21 {
        NoyRow {
            spla: Scalar::PosInf,
            splb: Scalar::Finite(30_000_000_000),
            splc: Scalar::Finite(30_000_000_000),
            spld: Scalar::Finite(6_000_000_000),
            sple: Scalar::Finite(15_000_000_000),
            mb: Scalar::Finite(29_960_000),
            mc: Scalar::Nan,
            md: Scalar::Finite(53_013_000),
            me: Scalar::Finite(34_859_000),
        }
    } else if band == 22 {
        NoyRow {
            spla: Scalar::PosInf,
            splb: Scalar::Finite(31_000_000_000),
            splc: Scalar::Finite(31_000_000_000),
            spld: Scalar::Finite(10_000_000_000),
            sple: Scalar::Finite(17_000_000_000),
            mb: Scalar::Finite(29_960_000),
            mc: Scalar::Nan,
            md: Scalar::Finite(68_160_000),
            me: Scalar::Finite(37_349_000),
        }
    } else if band == 23 {
        NoyRow {
            spla: Scalar::Finite(44_300_000_000),
            splb: Scalar::Finite(37_000_000_000),
            splc: Scalar::Finite(34_000_000_000),
            spld: Scalar::Finite(17_000_000_000),
            sple: Scalar::Finite(23_000_000_000),
            mb: Scalar::Finite(42_285_000),
            mc: Scalar::Finite(29_960_000),
            md: Scalar::Finite(79_520_000),
            me: Scalar::Finite(37_349_000),
        }
    } else {
        NoyRow {
            spla: Scalar::Finite(50_700_000_000),
            splb: Scalar::Finite(41_000_000_000),
            splc: Scalar::Finite(37_000_000_000),
            spld: Scalar::Finite(21_000_000_000),
            sple: Scalar::Finite(29_000_000_000),
            mb: Scalar::Finite(42_285_000),
            mc: Scalar::Finite(29_960_000),
            md: Scalar::Finite(59_640_000),
            me: Scalar::Finite(43_573_000),
        }
    }
}

/// The row of band `band` of the noy table, or `IndexOutOfRange` where
/// `band` is not in `1..=24`. Every call for one band returns the same row.
pub fn noy_row(band: usize) -> (r: Result<NoyRow, TOBError>)
    ensures
        1 <= band <= 24 ==> r == Ok::<NoyRow, TOBError>(noy_row_spec(band as int)),
        !(1 <= band <= 24) ==> r == Err::<NoyRow, TOBError>(
            TOBError::IndexOutOfRange { index: band },
        ),
{
    if 1 <= band && band <= 24 {
        Ok(table_row(band))
    } else {
        Err(TOBError::IndexOutOfRange { index: band })
    }
}

/// The branch of the noy formula that `level` falls into.
pub fn noy_branch(row: &NoyRow, level: Scalar) -> (b: NoyBranch)
    ensures
        b == noy_branch_spec(*row, level),
{
    if level.ge(row.spla) {
        NoyBranch::A
    } else if level.ge(row.splb) {
        NoyBranch::B
    } else if level.ge(row.sple) {
        NoyBranch::E
    } else {
        NoyBranch::D
    }
}

/// The exponent of ten in the noisiness of a band at `level`.
pub fn noy_exponent(row: &NoyRow, level: Scalar) -> (e: Scalar)
    ensures
        e == noy_exponent_spec(*row, level),
{
    match noy_branch(row, level) {
        NoyBranch::A => row.mc.mul(level.sub(row.splc)),
        NoyBranch::B => row.mb.mul(level.sub(row.splb)),
        NoyBranch::E => row.me.mul(level.sub(row.sple)),
        NoyBranch::D => row.md.mul(level.sub(row.spld)),
    }
}

/// The noisiness of a band at `level`, given `power`, the value of ten raised
/// to the exponent that [`noy_exponent`] gives for the same row and level.
pub fn noy_value(row: &NoyRow, level: Scalar, power: Scalar) -> (n: Scalar)
    ensures
        n == noy_value_spec(*row, level, power),
{
    let factor = match noy_branch(row, level) {
        NoyBranch::A => Scalar::Finite(1_000_000_000),
        NoyBranch::B => Scalar::Finite(1_000_000_000),
        NoyBranch::E => Scalar::Finite(300_000_000),
        NoyBranch::D => Scalar::Finite(100_000_000),
    };
    factor.mul(power)
}

/// The perceived noisiness of each band of a spectrum.
#[derive(Clone, Copy, Debug, PartialEq, Eq)]
pub struct Noy {
    storage: TOBStorage,
}

impl View for Noy {
    type V = Seq<Scalar>;

    closed spec fn view(&self) -> Seq<Scalar> {
        self.storage@
    }
}

/// There is one noisiness for each of the 24 bands.
pub broadcast proof fn lemma_noy_len(n: Noy)
    ensures
        #[trigger] n@.len() == 24,
{
    lemma_tob_len(n.storage);
}

impl From<TOBStorage> for Noy {
    /// The noisiness spectrum with the values of `value`.
    fn from(value: TOBStorage) -> (r: Noy)
        ensures
            r@ == value@,
    {
        Noy { storage: value }
    }
}

impl vstd::std_specs::convert::FromSpecImpl<TOBStorage> for Noy {
    open spec fn obeys_from_spec() -> bool {
        true
    }

    closed spec fn from_spec(value: TOBStorage) -> Noy {
        Noy { storage: value }
    }
}

impl core::ops::Deref for Noy {
    type Target = TOBStorage;

    fn deref(&self) -> (r: &TOBStorage)
        ensures
            r@ == self@,
    {
        &self.storage
    }
}

impl Noy {
    /// The noisiness of band `i`.
    pub open spec fn band(self, i: int) -> Scalar {
        band(self@, i)
    }

    /// For each band of `spl`, the exponent of ten in its noisiness.
    pub fn exponents(spl: &SPL) -> (e: TOBStorage)
        ensures
            e@ == noy_exponents_spec(spl@),
    {
        let mut e = TOBStorage::new();
        for i in 1..25usize
            invariant
                e@.len() == 24,
                spl@.len() == 24,
                forall|k: int|
                    0 <= k < i - 1 ==> e@[k] == noy_exponent_spec(noy_row_spec(k + 1), spl@[k]),
        {
            let row = table_row(i);
            e.put(i, noy_exponent(&row, spl.value(i)));
        }
        assert(e@ =~= noy_exponents_spec(spl@));
        e
    }

    /// The noisiness of each band of `spl`, given in `powers` the value of
    /// ten raised to the exponent that [`Noy::exponents`] gives for the band.
    pub fn from_powers(spl: &SPL, powers: &TOBStorage) -> (noy: Noy)
        ensures
            noy@ == noy_values_spec(spl@, powers@),
    {
        let mut n = TOBStorage::new();
        for i in 1..25usize
            invariant
                n@.len() == 24,
                spl@.len() == 24,
                powers@.len() == 24,
                forall|k: int|
                    0 <= k < i - 1 ==> n@[k] == noy_value_spec(
                        noy_row_spec(k + 1),
                        spl@[k],
                        powers@[k],
                    ),
        {
            let row = table_row(i);
            n.put(i, noy_value(&row, spl.value(i), powers.value(i)));
        }
        assert(n@ =~= noy_values_spec(spl@, powers@));
        Noy::from(n)
    }
}

impl NoyBranch {
    /// The place of the branch in the order of the thresholds: 0 for `D`, 1
    /// for `E`, 2 for `B`, 3 for `A`.
    pub open spec fn rank(self) -> int {
        match self {
            NoyBranch::D => 0,
            NoyBranch::E => 1,
            NoyBranch::B => 2,
            NoyBranch::A => 3,
        }
    }
}

/// What holds of every row of the table: the thresholds and slopes of the
/// branches `B`, `E` and `D` are finite and the slopes positive; branch `A`
/// either has a finite threshold, a finite reference level and a positive
/// slope, or its threshold is `PosInf`. Bands 10 to 22 are of the second kind,
/// and their slope `mc` is `Nan`.
pub open spec fn noy_row_is_regular(row: NoyRow) -> bool {
    &&& row.splb is Finite
    &&& row.splc is Finite
    &&& row.spld is Finite
    &&& row.sple is Finite
    &&& row.mb is Finite && row.mb.sign() > 0
    &&& row.md is Finite && row.md.sign() > 0
    &&& row.me is Finite && row.me.sign() > 0
    &&& row.spla is PosInf || (row.spla is Finite && row.mc is Finite && row.mc.sign() > 0)
}

/// Every row of the table is regular, and the rows of bands 10 to 22 have
/// branch `A` closed.
pub proof fn lemma_noy_table_regular(band: int)
    requires
        1 <= band <= 24,
    ensures
        noy_row_is_regular(noy_row_spec(band)),
        10 <= band <= 22 ==> noy_row_spec(band).spla is PosInf && noy_row_spec(band).mc is Nan,
{
}

proof fn lemma_scaled_difference_monotone(m: i64, c: i64, x: i64, y: i64)
    requires
        m > 0,
        x <= y,
    ensures
        !(Scalar::Finite(m).mul_spec(Scalar::Finite(x).sub_spec(Scalar::Finite(c))) is Nan),
        Scalar::Finite(m).mul_spec(Scalar::Finite(x).sub_spec(Scalar::Finite(c))).le_spec(
            Scalar::Finite(m).mul_spec(Scalar::Finite(y).sub_spec(Scalar::Finite(c))),
        ),
{
    let dx = x - c;
    let dy = y - c;
    assert(m * dx <= m * dy) by (nonlinear_arith)
        requires
            m > 0,
            dx <= dy,
    ;
}

/// No finite level reads a slope that is `Nan`: in bands 10 to 22 it never
/// reaches branch `A`, and in every band its exponent is a number.
pub proof fn lemma_noy_exponent_is_number(band: int, level: i64)
    requires
        1 <= band <= 24,
    ensures
        10 <= band <= 22 ==> noy_branch_spec(noy_row_spec(band), Scalar::Finite(level))
            != NoyBranch::A,
        !(noy_exponent_spec(noy_row_spec(band), Scalar::Finite(level)) is Nan),
{
    let row = noy_row_spec(band);
    lemma_noy_table_regular(band);
    match noy_branch_spec(row, Scalar::Finite(level)) {
        NoyBranch::A => {
            lemma_scaled_difference_monotone(row.mc->Finite_0, row.splc->Finite_0, level, level);
        },
        NoyBranch::B => {
            lemma_scaled_difference_monotone(row.mb->Finite_0, row.splb->Finite_0, level, level);
        },
        NoyBranch::E => {
            lemma_scaled_difference_monotone(row.me->Finite_0, row.sple->Finite_0, level, level);
        },
        NoyBranch::D => {
            lemma_scaled_difference_monotone(row.md->Finite_0, row.spld->Finite_0, level, level);
        },
    }
}

/// As the level of a band rises, its branch stays or moves up in the order
/// of the thresholds, and while it stays the exponent of ten does not fall.
pub proof fn lemma_noy_exponent_monotone(band: int, lower: i64, upper: i64)
    requires
        1 <= band <= 24,
        lower <= upper,
    ensures
        noy_branch_spec(noy_row_spec(band), Scalar::Finite(lower)).rank() <= noy_branch_spec(
            noy_row_spec(band),
            Scalar::Finite(upper),
        ).rank(),
        noy_branch_spec(noy_row_spec(band), Scalar::Finite(lower)) == noy_branch_spec(
            noy_row_spec(band),
            Scalar::Finite(upper),
        ) ==> noy_exponent_spec(noy_row_spec(band), Scalar::Finite(lower)).le_spec(
            noy_exponent_spec(noy_row_spec(band), Scalar::Finite(upper)),
        ),
{
    let row = noy_row_spec(band);
    lemma_noy_table_regular(band);
    let branch = noy_branch_spec(row, Scalar::Finite(lower));
    if branch == noy_branch_spec(row, Scalar::Finite(upper)) {
        match branch {
            NoyBranch::A => {
                lemma_scaled_difference_monotone(
                    row.mc->Finite_0,
                    row.splc->Finite_0,
                    lower,
                    upper,
                );
            },
            NoyBranch::B => {
                lemma_scaled_difference_monotone(
                    row.mb->Finite_0,
                    row.splb->Finite_0,
                    lower,
                    upper,
                );
            },
            NoyBranch::E => {
                lemma_scaled_difference_monotone(
                    row.me->Finite_0,
                    row.sple->Finite_0,
                    lower,
                    upper,
                );
            },
            NoyBranch::D => {
                lemma_scaled_difference_monotone(
                    row.md->Finite_0,
                    row.spld->Finite_0,
                    lower,
                    upper,
                );
            },
        }
    }
}

/// Within one branch the noisiness does not fall as the power of ten rises:
/// the factor of every branch is positive.
pub proof fn lemma_noy_value_monotone(
    row: NoyRow,
    level: Scalar,
    lower_power: Scalar,
    upper_power: Scalar,
)
    requires
        lower_power.le_spec(upper_power),
    ensures
        noy_value_spec(row, level, lower_power).le_spec(noy_value_spec(row, level, upper_power)),
{
    let factor = noy_factor_spec(noy_branch_spec(row, level))->Finite_0;
    if lower_power is Finite && upper_power is Finite {
        let a = lower_power->Finite_0;
        let b = upper_power->Finite_0;
        assert(factor * a <= factor * b) by (nonlinear_arith)
            requires
                factor > 0,
                a <= b,
        ;
    }
}

/// The noisiness of a band does not fall as its level rises within one
/// branch, as long as the power of ten handed in does not fall where the
/// exponent does not.
pub proof fn lemma_noy_monotone_within_branch(
    band: int,
    lower: i64,
    upper: i64,
    lower_power: Scalar,
    upper_power: Scalar,
)
    requires
        1 <= band <= 24,
        lower <= upper,
        noy_branch_spec(noy_row_spec(band), Scalar::Finite(lower)) == noy_branch_spec(
            noy_row_spec(band),
            Scalar::Finite(upper),
        ),
        noy_exponent_spec(noy_row_spec(band), Scalar::Finite(lower)).le_spec(
            noy_exponent_spec(noy_row_spec(band), Scalar::Finite(upper)),
        ) ==> lower_power.le_spec(upper_power),
    ensures
        noy_value_spec(noy_row_spec(band), Scalar::Finite(lower), lower_power).le_spec(
            noy_value_spec(noy_row_spec(band), Scalar::Finite(upper), upper_power),
        ),
{
    lemma_noy_exponent_monotone(band, lower, upper);
    lemma_noy_value_monotone(
        noy_row_spec(band),
        Scalar::Finite(lower),
        lower_power,
        upper_power,
    );
}

} // verus!
