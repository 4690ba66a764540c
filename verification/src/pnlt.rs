//! Tone-corrected perceived noise level: the ten steps that turn a spectrum
//! into the correction added to its perceived noise level.
//!
//! Two index conventions meet here. A band number runs from 1 to 24 and is
//! what [`band`] takes; a slot runs from 0 and is what `s[k]` takes, so slot
//! `k` of a spectrum is band `k + 1`. Each step says which one it uses.
use crate::base::{band, lemma_max_band_constant, lemma_tob_len, max_band, TOBStorage};
use crate::new_slope::{lemma_new_slope_len, NewSlope};
use crate::pnl::PNL;
use crate::scalar::Scalar;
use crate::spl::{lemma_spl_len, SPL};
use crate::tob_freq::tob_freq;
use vstd::prelude::*;

verus! {

broadcast use {lemma_tob_len, lemma_spl_len, lemma_new_slope_len};

/// Step 1, band `i`: the rise of the level from band `i - 1` to band `i`,
/// for bands 4 to 24; zero for bands 1 to 3.
pub open spec fn slope_at(spl: Seq<Scalar>, i: int) -> Scalar {
    if 4 <= i <= 24 {
        band(spl, i).sub_spec(band(spl, i - 1))
    } else {
        Scalar::Finite(0)
    }
}

/// Step 1: the slopes of all 24 bands.
pub open spec fn slope_spec(spl: Seq<Scalar>) -> Seq<Scalar> {
    Seq::new(24, |k: int| slope_at(spl, k + 1))
}

/// Step 1: the change of level from each band to the next.
pub fn get_slope(spl: &SPL) -> (s: TOBStorage)
    ensures
        s@ == slope_spec(spl@),
        s.band(1) == Scalar::Finite(0),
        s.band(2) == Scalar::Finite(0),
        s.band(3) == Scalar::Finite(0),
{
    let mut s = TOBStorage::filled(Scalar::Finite(0));
    for i in 4..25usize
        invariant
            s@.len() == 24,
            forall|k: int| 0 <= k < i - 1 ==> s@[k] == slope_at(spl@, k + 1),
            forall|k: int| i - 1 <= k < 24 ==> s@[k] == Scalar::Finite(0),
    {
        s.put(i, spl.value(i).sub(spl.value(i - 1)));
    }
    assert(s@ =~= slope_spec(spl@));
    s
}

/// Step 2, band `i`: the change of slope from band `i - 1` to band `i` where
/// its magnitude exceeds 5 dB, for bands 2 to 24; zero otherwise.
pub open spec fn encircled_slope_at(slope: Seq<Scalar>, i: int) -> Scalar {
    if 2 <= i <= 24 {
        let diff = band(slope, i).sub_spec(band(slope, i - 1));
        if diff.abs_spec().gt_spec(Scalar::Finite(5_000_000_000)) {
            diff
        } else {
            Scalar::Finite(0)
        }
    } else {
        Scalar::Finite(0)
    }
}

/// Step 2: the encircled slopes of all 24 bands.
pub open spec fn encircled_slope_spec(slope: Seq<Scalar>) -> Seq<Scalar> {
    Seq::new(24, |k: int| encircled_slope_at(slope, k + 1))
}

/// Step 2: the changes of slope larger than 5 dB.
pub fn encircle_slope(slope: &TOBStorage) -> (e: TOBStorage)
    ensures
        e@ == encircled_slope_spec(slope@),
{
    let mut e = TOBStorage::filled(Scalar::Finite(0));
    for i in 2..25usize
        invariant
            e@.len() == 24,
            slope@.len() == 24,
            forall|k: int| 0 <= k < i - 1 ==> e@[k] == encircled_slope_at(slope@, k + 1),
            forall|k: int| i - 1 <= k < 24 ==> e@[k] == Scalar::Finite(0),
    {
        let diff = slope.value(i).sub(slope.value(i - 1));
        if diff.abs().gt(Scalar::Finite(5_000_000_000)) {
            e.put(i, diff);
        }
    }
    assert(e@ =~= encircled_slope_spec(slope@));
    e
}

/// Step 3, first condition at band `i`: the encircled slope of band `i`
/// exceeds the slope of band `i - 1`, or zero where that slope is negative
/// or `Nan`. It encircles the level of band `i`.
pub open spec fn encircles_own(slope: Seq<Scalar>, encircled_slope: Seq<Scalar>, i: int) -> bool {
    4 <= i <= 24 && band(encircled_slope, i).gt_spec(
        band(slope, i - 1).max_spec(Scalar::Finite(0)),
    )
}

/// Step 3, second condition at band `i`: the encircled slope of band `i` is
/// zero or negative and the slope of band `i - 1` is positive. It encircles
/// the level of band `i - 1`.
pub open spec fn encircles_previous(
    slope: Seq<Scalar>,
    encircled_slope: Seq<Scalar>,
    i: int,
) -> bool {
    4 <= i <= 24 && band(encircled_slope, i).le_spec(Scalar::Finite(0)) && band(
        slope,
        i - 1,
    ).gt_spec(Scalar::Finite(0))
}

/// Step 3, band `i`, counting only the conditions at bands below `n`: one
/// where the level of band `i` is encircled, zero where it is not.
pub open spec fn encircled_spl_upto(
    slope: Seq<Scalar>,
    encircled_slope: Seq<Scalar>,
    i: int,
    n: int,
) -> Scalar {
    if (i < n && encircles_own(slope, encircled_slope, i)) || (i + 1 < n && encircles_previous(
        slope,
        encircled_slope,
        i + 1,
    )) {
        Scalar::Finite(1_000_000_000)
    } else {
        Scalar::Finite(0)
    }
}

/// Step 3, band `i`: one where the first condition holds at band `i` or the
/// second at band `i + 1`, zero otherwise.
pub open spec fn encircled_spl_at(
    slope: Seq<Scalar>,
    encircled_slope: Seq<Scalar>,
    i: int,
) -> Scalar {
    encircled_spl_upto(slope, encircled_slope, i, 25)
}

/// Step 3: the flags of all 24 bands.
pub open spec fn encircled_spl_spec(slope: Seq<Scalar>, encircled_slope: Seq<Scalar>) -> Seq<
    Scalar,
> {
    Seq::new(24, |k: int| encircled_spl_at(slope, encircled_slope, k + 1))
}

/// Step 3: flags the bands whose level is encircled.
pub fn encircle_spl(slope: &TOBStorage, encircled_slope: &TOBStorage) -> (flags: TOBStorage)
    ensures
        flags@ == encircled_spl_spec(slope@, encircled_slope@),
{
    let mut flags = TOBStorage::filled(Scalar::Finite(0));
    for i in 4..25usize
        invariant
            flags@.len() == 24,
            slope@.len() == 24,
            encircled_slope@.len() == 24,
            forall|k: int|
                0 <= k < 24 ==> flags@[k] == encircled_spl_upto(
                    slope@,
                    encircled_slope@,
                    k + 1,
                    i as int,
                ),
    {
        if encircled_slope.value(i).gt(slope.value(i - 1).max(Scalar::Finite(0))) {
            flags.put(i, Scalar::Finite(1_000_000_000));
        }
        if encircled_slope.value(i).le(Scalar::Finite(0)) && slope.value(i - 1).gt(
            Scalar::Finite(0),
        ) {
            flags.put(i - 1, Scalar::Finite(1_000_000_000));
        }
    }
    assert(flags@ =~= encircled_spl_spec(slope@, encircled_slope@));
    flags
}

/// Step 4, band `i`: where the band is flagged, the mean of the two
/// neighbouring levels for bands 2 to 23, and the level of band 23 raised by
/// its slope for band 24; the level itself otherwise.
pub open spec fn adjusted_spl_at(
    spl: Seq<Scalar>,
    slope: Seq<Scalar>,
    flags: Seq<Scalar>,
    i: int,
) -> Scalar {
    if 2 <= i <= 23 && band(flags, i).gt_spec(Scalar::Finite(0)) {
        band(spl, i - 1).add_spec(band(spl, i + 1)).div_int_spec(2)
    } else if i == 24 && band(flags, 24).gt_spec(Scalar::Finite(0)) {
        band(spl, 23).add_spec(band(slope, 23))
    } else {
        band(spl, i)
    }
}

/// Step 4: the adjusted levels of all 24 bands.
pub open spec fn adjusted_spl_spec(
    spl: Seq<Scalar>,
    slope: Seq<Scalar>,
    flags: Seq<Scalar>,
) -> Seq<Scalar> {
    Seq::new(24, |k: int| adjusted_spl_at(spl, slope, flags, k + 1))
}

/// Step 4: replaces each encircled level by a value drawn from the measured
/// levels of its neighbours, never from a level that was itself replaced.
pub fn get_adjusted_spl(spl: &SPL, slope: &TOBStorage, encircled_spl: &TOBStorage) -> (aspl: SPL)
    ensures
        aspl@ == adjusted_spl_spec(spl@, slope@, encircled_spl@),
{
    let mut aspl = *spl;
    for i in 2..24usize
        invariant
            aspl@.len() == 24,
            spl@.len() == 24,
            encircled_spl@.len() == 24,
            forall|k: int|
                0 <= k < i - 1 ==> aspl@[k] == adjusted_spl_at(
                    spl@,
                    slope@,
                    encircled_spl@,
                    k + 1,
                ),
            forall|k: int| i - 1 <= k < 24 ==> aspl@[k] == spl@[k],
    {
        if encircled_spl.value(i).gt(Scalar::Finite(0)) {
            aspl.put(
                i,
                spl.value(i - 1).add(spl.value(i + 1)).div_int(2),
            );
        }
    }
    if encircled_spl.value(24).gt(Scalar::Finite(0)) {
        aspl.put(24, spl.value(23).add(slope.value(23)));
    }
    assert(aspl@ =~= adjusted_spl_spec(spl@, slope@, encircled_spl@));
    aspl
}

/// Step 5, slot `k`, over the slots of the adjusted spectrum: the difference
/// `aspl[k] - aspl[k - 1]` for slots 3 to 23, that is the rise from band `k`
/// to band `k + 1`; slot 2 repeats slot 3 and slot 24 repeats slot 23; slots
/// 0 and 1 are zero.
pub open spec fn new_slope_at(aspl: Seq<Scalar>, k: int) -> Scalar {
    if 3 <= k <= 23 {
        aspl[k].sub_spec(aspl[k - 1])
    } else if k == 2 {
        aspl[3].sub_spec(aspl[2])
    } else if k == 24 {
        aspl[23].sub_spec(aspl[22])
    } else {
        Scalar::Finite(0)
    }
}

/// Step 5: all 25 recomputed slopes.
pub open spec fn new_slope_spec(aspl: Seq<Scalar>) -> Seq<Scalar> {
    Seq::new(25, |k: int| new_slope_at(aspl, k))
}

/// Step 5: the slopes of the adjusted spectrum, with a copy of the nearest
/// slope at either end.
pub fn get_new_slope(aspl: &SPL) -> (s: NewSlope)
    ensures
        s@ == new_slope_spec(aspl@),
{
    let mut slots: [Scalar; 25] = [Scalar::Finite(0);25];
    for i in 3..24usize
        invariant
            aspl@.len() == 24,
            forall|k: int| 3 <= k < i ==> slots@[k] == new_slope_at(aspl@, k),
            forall|k: int| 0 <= k < 25 && !(3 <= k < i) ==> slots@[k] == Scalar::Finite(0),
    {
        slots[i] = aspl.value(i + 1).sub(aspl.value(i));
    }
    slots[2] = slots[3];
    slots[24] = slots[23];
    let s = NewSlope::from(slots);
    assert(s@ =~= new_slope_spec(aspl@));
    s
}

/// Step 6, slot `k` of the result (band `k + 1`): the mean of the recomputed
/// slopes in slots `k - 1`, `k` and `k + 1`, for slots 1 to 22; zero for
/// slots 0 and 23.
pub open spec fn averaged_slope_at(s: Seq<Scalar>, k: int) -> Scalar {
    if 1 <= k <= 22 {
        s[k - 1].add_spec(s[k]).add_spec(s[k + 1]).div_int_spec(3)
    } else {
        Scalar::Finite(0)
    }
}

/// Step 6: the averaged slopes of all 24 bands.
pub open spec fn averaged_slope_spec(s: Seq<Scalar>) -> Seq<Scalar> {
    Seq::new(24, |k: int| averaged_slope_at(s, k))
}

/// Step 6: the mean of each three adjacent recomputed slopes.
pub fn get_averaged_slope(s: &NewSlope) -> (sb: TOBStorage)
    ensures
        sb@ == averaged_slope_spec(s@),
{
    let mut sb = TOBStorage::filled(Scalar::Finite(0));
    for i in 1..23usize
        invariant
            sb@.len() == 24,
            s@.len() == 25,
            forall|k: int| 0 <= k < i ==> sb@[k] == averaged_slope_at(s@, k),
            forall|k: int| i <= k < 24 ==> sb@[k] == Scalar::Finite(0),
    {
        sb.put(
            i + 1,
            s.slot(i - 1).add(s.slot(i)).add(s.slot(i + 1)).div_int(3),
        );
    }
    assert(sb@ =~= averaged_slope_spec(s@));
    sb
}

/// Step 7, band `i`: the level of band 3 for band 3; for bands 4 to 24 the
/// level of band `i - 1` raised by the averaged slope of band `i - 1`; zero
/// for bands 1 and 2.
pub open spec fn final_spl_at(spl: Seq<Scalar>, sb: Seq<Scalar>, i: int) -> Scalar {
    if i == 3 {
        band(spl, 3)
    } else if 4 <= i <= 24 {
        band(spl, i - 1).add_spec(band(sb, i - 1))
    } else {
        Scalar::Finite(0)
    }
}

/// Step 7: the smoothed levels of all 24 bands.
pub open spec fn final_spl_spec(spl: Seq<Scalar>, sb: Seq<Scalar>) -> Seq<Scalar> {
    Seq::new(24, |k: int| final_spl_at(spl, sb, k + 1))
}

/// Step 7: the smoothed spectrum.
pub fn get_final_spl(spl: &SPL, sb: &TOBStorage) -> (fspl: SPL)
    ensures
        fspl@ == final_spl_spec(spl@, sb@),
{
    let mut fspl = SPL::from(TOBStorage::filled(Scalar::Finite(0)));
    fspl.put(3, spl.value(3));
    for i in 4..25usize
        invariant
            fspl@.len() == 24,
            spl@.len() == 24,
            sb@.len() == 24,
            forall|k: int| 0 <= k < i - 1 ==> fspl@[k] == final_spl_at(spl@, sb@, k + 1),
            forall|k: int| i - 1 <= k < 24 ==> fspl@[k] == Scalar::Finite(0),
    {
        fspl.put(i, spl.value(i - 1).add(sb.value(i - 1)));
    }
    assert(fspl@ =~= final_spl_spec(spl@, sb@));
    fspl
}

/// Step 8, band `i`: the level less the smoothed level.
pub open spec fn difference_at(spl: Seq<Scalar>, fspl: Seq<Scalar>, i: int) -> Scalar {
    band(spl, i).sub_spec(band(fspl, i))
}

/// Step 8: the tone excess of all 24 bands.
pub open spec fn differences_spec(spl: Seq<Scalar>, fspl: Seq<Scalar>) -> Seq<Scalar> {
    Seq::new(24, |k: int| difference_at(spl, fspl, k + 1))
}

/// Step 8: by how much each level stands out of the smoothed spectrum.
pub fn get_differences(spl: &SPL, fspl: &SPL) -> (f: SPL)
    ensures
        f@ == differences_spec(spl@, fspl@),
{
    let mut f = SPL::new();
    for i in 1..25usize
        invariant
            f@.len() == 24,
            spl@.len() == 24,
            fspl@.len() == 24,
            forall|k: int| 0 <= k < i - 1 ==> f@[k] == difference_at(spl@, fspl@, k + 1),
    {
        f.put(i, spl.value(i).sub(fspl.value(i)));
    }
    assert(f@ =~= differences_spec(spl@, fspl@));
    f
}

/// Step 9, one band: the correction for a tone excess. Nothing below 1.5 dB;
/// a third of the excess less 0.5 dB below 3 dB; a sixth of the excess below
/// 20 dB; 3 1/3 dB from there on, and for an excess that is `Nan`.
pub open spec fn tone_correction_spec(excess: Scalar) -> Scalar {
    if excess.lt_spec(Scalar::Finite(1_500_000_000)) {
        Scalar::Finite(0)
    } else if excess.lt_spec(Scalar::Finite(3_000_000_000)) {
        excess.div_int_spec(3).sub_spec(Scalar::Finite(500_000_000))
    } else if excess.lt_spec(Scalar::Finite(20_000_000_000)) {
        excess.div_int_spec(6)
    } else {
        Scalar::Finite(3_333_333_333)
    }
}

/// A correction is a number from zero to 3 1/3 dB, whatever the excess.
pub proof fn lemma_tone_correction_bounds(excess: Scalar)
    ensures
        tone_correction_spec(excess) is Finite,
        Scalar::Finite(0).le_spec(tone_correction_spec(excess)),
        tone_correction_spec(excess).le_spec(Scalar::Finite(3_333_333_333)),
{
}

fn excess_correction(excess: Scalar) -> (c: Scalar)
    ensures
        c == tone_correction_spec(excess),
{
    if excess.lt(Scalar::Finite(1_500_000_000)) {
        Scalar::Finite(0)
    } else if excess.lt(Scalar::Finite(3_000_000_000)) {
        excess.div_int(3).sub(Scalar::Finite(500_000_000))
    } else if excess.lt(Scalar::Finite(20_000_000_000)) {
        excess.div_int(6)
    } else {
        Scalar::Finite(3_000_000_000).add(Scalar::Finite(1_000_000_000).div_int(3))
    }
}

/// Step 9, one band: the correction for a tone excess at a band of the given
/// centre frequency.
///
/// The procedure tells bands outside 500 Hz to 5 kHz from those inside, and
/// so does this function, but it applies one and the same rule to both: the
/// frequency has no effect on the result.
pub fn tone_correction(frequency: Scalar, excess: Scalar) -> (c: Scalar)
    ensures
        c == tone_correction_spec(excess),
{
    if frequency.lt(Scalar::Finite(500_000_000_000)) || frequency.gt(
        Scalar::Finite(5_000_000_000_000),
    ) {
        excess_correction(excess)
    } else {
        excess_correction(excess)
    }
}

/// Step 9, band `i`: the correction for the tone excess of the band, for
/// bands 3 to 24; zero for bands 1 and 2.
pub open spec fn tone_correction_at(f: Seq<Scalar>, i: int) -> Scalar {
    if 3 <= i <= 24 {
        tone_correction_spec(band(f, i))
    } else {
        Scalar::Finite(0)
    }
}

/// Step 9: the corrections of all 24 bands.
pub open spec fn tone_corrections_spec(f: Seq<Scalar>) -> Seq<Scalar> {
    Seq::new(24, |k: int| tone_correction_at(f, k + 1))
}

/// Step 9: the correction of each band for its tone excess.
pub fn get_tone_correction(upper_f: &SPL) -> (c: SPL)
    ensures
        c@ == tone_corrections_spec(upper_f@),
{
    let frequencies = tob_freq();
    let mut c = SPL::from(TOBStorage::filled(Scalar::Finite(0)));
    for i in 3..25usize
        invariant
            c@.len() == 24,
            upper_f@.len() == 24,
            frequencies@.len() == 24,
            forall|k: int| 0 <= k < i - 1 ==> c@[k] == tone_correction_at(upper_f@, k + 1),
            forall|k: int| i - 1 <= k < 24 ==> c@[k] == Scalar::Finite(0),
    {
        let f = frequencies.value(i);
        let fi = upper_f.value(i);
        c.put(i, tone_correction(f, fi));
    }
    assert(c@ =~= tone_corrections_spec(upper_f@));
    c
}

/// A tone-corrected perceived noise level, in TPNdB. Its view is the level itself.
#[derive(Clone, Copy, Debug, PartialEq, Eq)]
pub struct PNLT {
    storage: Scalar,
}

impl View for PNLT {
    type V = Scalar;

    closed spec fn view(&self) -> Scalar {
        self.storage
    }
}

impl From<Scalar> for PNLT {
    /// The tone-corrected level of the given value.
    fn from(value: Scalar) -> (r: PNLT)
        ensures
            r@ == value,
    {
        PNLT { storage: value }
    }
}

impl vstd::std_specs::convert::FromSpecImpl<Scalar> for PNLT {
    open spec fn obeys_from_spec() -> bool {
        true
    }

    closed spec fn from_spec(value: Scalar) -> PNLT {
        PNLT { storage: value }
    }
}

impl core::ops::Deref for PNLT {
    type Target = Scalar;

    fn deref(&self) -> (r: &Scalar)
        ensures
            *r == self@,
    {
        &self.storage
    }
}

/// Step 10: the perceived noise level raised by the largest correction among
/// bands 3 to 24.
pub fn get_correction_factor(pnl: &PNL, c: &SPL) -> (r: PNLT)
    ensures
        r@ == pnl@.add_spec(max_band(c@, 3, 24)),
{
    let storage: &TOBStorage = c;
    PNLT::from((**pnl).add(storage.max_in(3, 24)))
}

/// Steps 1 to 10 on the levels of a spectrum: the correction that its tones
/// call for.
pub open spec fn tone_correction_factor_spec(spl: Seq<Scalar>) -> Scalar {
    let slope = slope_spec(spl);
    let encircled_slope = encircled_slope_spec(slope);
    let encircled_spl = encircled_spl_spec(slope, encircled_slope);
    let aspl = adjusted_spl_spec(spl, slope, encircled_spl);
    let new_slope = new_slope_spec(aspl);
    let sb = averaged_slope_spec(new_slope);
    let fspl = final_spl_spec(spl, sb);
    let f = differences_spec(spl, fspl);
    let c = tone_corrections_spec(f);
    max_band(c, 3, 24)
}

impl PNLT {
    /// The tone-corrected level of a spectrum whose perceived noise level is
    /// `pnl`: `pnl` raised by the correction that the tones of `spl` call for.
    pub fn from_parts(pnl: PNL, spl: SPL) -> (r: PNLT)
        ensures
            r@ == pnl@.add_spec(tone_correction_factor_spec(spl@)),
    {
        let slope = get_slope(&spl);
        let encircled_slope = encircle_slope(&slope);
        let encircled_spl = encircle_spl(&slope, &encircled_slope);
        let aspl = get_adjusted_spl(&spl, &slope, &encircled_spl);
        let slope = get_new_slope(&aspl);
        let sb = get_averaged_slope(&slope);
        let fspl = get_final_spl(&spl, &sb);
        let f = get_differences(&spl, &fspl);
        let c = get_tone_correction(&f);
        get_correction_factor(&pnl, &c)
    }
}

proof fn lemma_flat_slopes(spl: Seq<Scalar>, level: i64)
    requires
        spl.len() == 24,
        forall|k: int| 0 <= k < 24 ==> spl[k] == Scalar::Finite(level),
    ensures
        slope_spec(spl) == Seq::new(24, |k: int| Scalar::Finite(0)),
{
    assert forall|i: int| 1 <= i <= 24 implies slope_at(spl, i) == Scalar::Finite(0) by {
        if 4 <= i {
            assert(spl[i - 1] == Scalar::Finite(level));
            assert(spl[i - 2] == Scalar::Finite(level));
        }
    }
    assert(slope_spec(spl) =~= Seq::new(24, |k: int| Scalar::Finite(0)));
}

proof fn lemma_flat_flags(slope: Seq<Scalar>)
    requires
        slope == Seq::new(24, |k: int| Scalar::Finite(0)),
    ensures
        encircled_slope_spec(slope) == slope,
        encircled_spl_spec(slope, slope) == slope,
{
    assert forall|i: int| 1 <= i <= 24 implies encircled_slope_at(slope, i) == Scalar::Finite(
        0,
    ) by {
        if 2 <= i {
            assert(slope[i - 1] == Scalar::Finite(0));
            assert(slope[i - 2] == Scalar::Finite(0));
        }
    }
    assert(encircled_slope_spec(slope) =~= slope);
    assert forall|i: int| 1 <= i <= 24 implies encircled_spl_at(slope, slope, i)
        == Scalar::Finite(0) by {
        assert(slope[i - 1] == Scalar::Finite(0));
        if i < 24 {
            assert(slope[i] == Scalar::Finite(0));
        }
        if 2 <= i {
            assert(slope[i - 2] == Scalar::Finite(0));
        }
    }
    assert(encircled_spl_spec(slope, slope) =~= slope);
}

proof fn lemma_flat_adjusted(spl: Seq<Scalar>, slope: Seq<Scalar>)
    requires
        spl.len() == 24,
        slope == Seq::new(24, |k: int| Scalar::Finite(0)),
    ensures
        adjusted_spl_spec(spl, slope, slope) == spl,
{
    assert forall|i: int| 1 <= i <= 24 implies adjusted_spl_at(spl, slope, slope, i) == spl[i
        - 1] by {
        assert(slope[i - 1] == Scalar::Finite(0));
    }
    assert(adjusted_spl_spec(spl, slope, slope) =~= spl);
}

proof fn lemma_flat_smoothing(spl: Seq<Scalar>, level: i64)
    requires
        spl.len() == 24,
        forall|k: int| 0 <= k < 24 ==> spl[k] == Scalar::Finite(level),
    ensures
        averaged_slope_spec(new_slope_spec(spl)) == Seq::new(24, |k: int| Scalar::Finite(0)),
{
    let s = new_slope_spec(spl);
    assert forall|k: int| 0 <= k < 25 implies #[trigger] s[k] == Scalar::Finite(0) by {
        assert(s[k] == new_slope_at(spl, k));
        if 2 <= k {
            assert(spl[2] == Scalar::Finite(level));
            assert(spl[3] == Scalar::Finite(level));
            assert(spl[22] == Scalar::Finite(level));
            assert(spl[23] == Scalar::Finite(level));
            if k <= 23 {
                assert(spl[k] == Scalar::Finite(level));
                assert(spl[k - 1] == Scalar::Finite(level));
            }
        }
    }
    assert forall|k: int| 0 <= k < 24 implies #[trigger] averaged_slope_at(s, k)
        == Scalar::Finite(0) by {
        if 1 <= k <= 22 {
            assert(s[k - 1] == Scalar::Finite(0));
            assert(s[k] == Scalar::Finite(0));
            assert(s[k + 1] == Scalar::Finite(0));
        }
    }
    assert(averaged_slope_spec(s) =~= Seq::new(24, |k: int| Scalar::Finite(0)));
}

proof fn lemma_flat_excess(spl: Seq<Scalar>, level: i64)
    requires
        spl.len() == 24,
        forall|k: int| 0 <= k < 24 ==> spl[k] == Scalar::Finite(level),
    ensures
        ({
            let zeros = Seq::new(24, |k: int| Scalar::Finite(0));
            let f = differences_spec(spl, final_spl_spec(spl, zeros));
            &&& forall|i: int| 3 <= i <= 24 ==> band(f, i) == Scalar::Finite(0)
            &&& band(f, 1) == Scalar::Finite(level)
            &&& band(f, 2) == Scalar::Finite(level)
            &&& tone_corrections_spec(f) == zeros
        }),
{
    let zeros = Seq::new(24, |k: int| Scalar::Finite(0));
    let fspl = final_spl_spec(spl, zeros);
    let f = differences_spec(spl, fspl);
    assert forall|i: int| 1 <= i <= 24 implies #[trigger] band(f, i) == (if i <= 2 {
        Scalar::Finite(level)
    } else {
        Scalar::Finite(0)
    }) by {
        assert(f[i - 1] == difference_at(spl, fspl, i));
        assert(fspl[i - 1] == final_spl_at(spl, zeros, i));
        assert(spl[i - 1] == Scalar::Finite(level));
        assert(spl[2] == Scalar::Finite(level));
        if 4 <= i {
            assert(spl[i - 2] == Scalar::Finite(level));
            assert(zeros[i - 2] == Scalar::Finite(0));
        }
    }
    assert forall|i: int| 1 <= i <= 24 implies tone_correction_at(f, i) == Scalar::Finite(0) by {
        if 3 <= i {
            assert(band(f, i) == Scalar::Finite(0));
        }
    }
    assert(tone_corrections_spec(f) =~= zeros);
}

/// A flat spectrum has no tones. Where all 24 bands hold one finite level,
/// every slope, encircled slope and flag is zero, the adjusted spectrum is the
/// spectrum itself, the tone excess is zero from band 3 on (bands 1 and 2,
/// which have no smoothed level, keep the level itself), every correction is
/// zero, and the tone-corrected level is the perceived noise level, whatever
/// that is.
pub proof fn lemma_flat_spectrum(spl: Seq<Scalar>, level: i64)
    requires
        spl.len() == 24,
        forall|k: int| 0 <= k < 24 ==> spl[k] == Scalar::Finite(level),
    ensures
        ({
            let zeros = Seq::new(24, |k: int| Scalar::Finite(0));
            let slope = slope_spec(spl);
            let encircled_slope = encircled_slope_spec(slope);
            let encircled_spl = encircled_spl_spec(slope, encircled_slope);
            let aspl = adjusted_spl_spec(spl, slope, encircled_spl);
            let fspl = final_spl_spec(spl, averaged_slope_spec(new_slope_spec(aspl)));
            let f = differences_spec(spl, fspl);
            &&& slope == zeros
            &&& encircled_slope == zeros
            &&& encircled_spl == zeros
            &&& aspl == spl
            &&& forall|i: int| 3 <= i <= 24 ==> band(f, i) == Scalar::Finite(0)
            &&& band(f, 1) == Scalar::Finite(level)
            &&& band(f, 2) == Scalar::Finite(level)
            &&& tone_corrections_spec(f) == zeros
        }),
        tone_correction_factor_spec(spl) == Scalar::Finite(0),
        forall|pnl: Scalar| #[trigger] pnl.add_spec(tone_correction_factor_spec(spl)) == pnl,
{
    let zeros = Seq::new(24, |k: int| Scalar::Finite(0));
    lemma_flat_slopes(spl, level);
    lemma_flat_flags(zeros);
    lemma_flat_adjusted(spl, zeros);
    lemma_flat_smoothing(spl, level);
    lemma_flat_excess(spl, level);
    let c = tone_corrections_spec(differences_spec(spl, final_spl_spec(spl, zeros)));
    lemma_max_band_constant(c, 3, 24, Scalar::Finite(0));
}

} // verus!
