use epnl::pnlt::{
    encircle_slope, encircle_spl, get_adjusted_spl, get_averaged_slope, get_correction_factor,
    get_differences, get_final_spl, get_new_slope, get_slope, get_tone_correction,
    tone_correction,
};
use epnl::{NewSlope, Scalar, TOBError, TOBStorage, PNL, PNLT, SPL};

const NAN: Scalar = Scalar::Nan;
const INF: Scalar = Scalar::PosInf;
const NEG_INF: Scalar = Scalar::NegInf;

fn fin(n: i64) -> Scalar {
    Scalar::Finite(n)
}

fn whole(n: i32) -> Scalar {
    Scalar::from_int(n)
}

fn slots(s: &NewSlope) -> Vec<Scalar> {
    (0..25).map(|k| s.get(k).unwrap()).collect()
}

/// A spectrum with tones at several bands.
fn toned() -> SPL {
    SPL::from([
        fin(70000000000),
        fin(62000000000),
        fin(70000000000),
        fin(80000000000),
        fin(82000000000),
        fin(83000000000),
        fin(76000000000),
        fin(80000000000),
        fin(80000000000),
        fin(79000000000),
        fin(78000000000),
        fin(80000000000),
        fin(78000000000),
        fin(76000000000),
        fin(79000000000),
        fin(85000000000),
        fin(79000000000),
        fin(78000000000),
        fin(71000000000),
        fin(60000000000),
        fin(54000000000),
        fin(45000000000),
        fin(38000000000),
        fin(29000000000),
    ])
}

/// A quiet spectrum with a step near band 10 and a rise into band 24.
fn stepped() -> SPL {
    SPL::from([
        fin(40000000000),
        fin(40000000000),
        fin(40000000000),
        fin(40000000000),
        fin(40000000000),
        fin(40000000000),
        fin(40000000000),
        fin(40000000000),
        fin(40000000000),
        fin(40250000000),
        fin(47500000000),
        fin(40000000000),
        fin(40000000000),
        fin(40000000000),
        fin(40000000000),
        fin(40000000000),
        fin(40000000000),
        fin(40000000000),
        fin(40000000000),
        fin(40000000000),
        fin(40000000000),
        fin(40000000000),
        fin(45000000000),
        fin(56000000000),
    ])
}

fn flat(level: Scalar) -> SPL {
    SPL::from([level; 24])
}

#[test]
fn slope_of_the_toned_spectrum() {
    let slope = get_slope(&toned());
    assert_eq!(slope.to_vec(), vec![
        fin(0),
        fin(0),
        fin(0),
        fin(10000000000),
        fin(2000000000),
        fin(1000000000),
        fin(-7000000000),
        fin(4000000000),
        fin(0),
        fin(-1000000000),
        fin(-1000000000),
        fin(2000000000),
        fin(-2000000000),
        fin(-2000000000),
        fin(3000000000),
        fin(6000000000),
        fin(-6000000000),
        fin(-1000000000),
        fin(-7000000000),
        fin(-11000000000),
        fin(-6000000000),
        fin(-9000000000),
        fin(-7000000000),
        fin(-9000000000),
    ]);
}

#[test]
fn encircled_slope_of_the_toned_spectrum() {
    let slope = get_slope(&toned());
    let encircled = encircle_slope(&slope);
    assert_eq!(encircled.to_vec(), vec![
        fin(0),
        fin(0),
        fin(0),
        fin(10000000000),
        fin(-8000000000),
        fin(0),
        fin(-8000000000),
        fin(11000000000),
        fin(0),
        fin(0),
        fin(0),
        fin(0),
        fin(0),
        fin(0),
        fin(0),
        fin(0),
        fin(-12000000000),
        fin(0),
        fin(-6000000000),
        fin(0),
        fin(0),
        fin(0),
        fin(0),
        fin(0),
    ]);
}

#[test]
fn encircled_levels_of_the_toned_spectrum() {
    let slope = get_slope(&toned());
    let flags = encircle_spl(&slope, &encircle_slope(&slope));
    assert_eq!(flags.to_vec(), vec![
        fin(0),
        fin(0),
        fin(0),
        fin(1000000000),
        fin(1000000000),
        fin(1000000000),
        fin(0),
        fin(1000000000),
        fin(0),
        fin(0),
        fin(0),
        fin(1000000000),
        fin(0),
        fin(0),
        fin(1000000000),
        fin(1000000000),
        fin(0),
        fin(0),
        fin(0),
        fin(0),
        fin(0),
        fin(0),
        fin(0),
        fin(0),
    ]);
}

#[test]
fn adjusted_levels_of_the_toned_spectrum() {
    let spl = toned();
    let slope = get_slope(&spl);
    let flags = encircle_spl(&slope, &encircle_slope(&slope));
    let aspl = get_adjusted_spl(&spl, &slope, &flags);
    assert_eq!(aspl.to_vec(), vec![
        fin(70000000000),
        fin(62000000000),
        fin(70000000000),
        fin(76000000000),
        fin(81500000000),
        fin(79000000000),
        fin(76000000000),
        fin(78000000000),
        fin(80000000000),
        fin(79000000000),
        fin(78000000000),
        fin(78000000000),
        fin(78000000000),
        fin(76000000000),
        fin(80500000000),
        fin(79000000000),
        fin(79000000000),
        fin(78000000000),
        fin(71000000000),
        fin(60000000000),
        fin(54000000000),
        fin(45000000000),
        fin(38000000000),
        fin(29000000000),
    ]);
}

#[test]
fn new_slope_of_the_toned_spectrum() {
    let aspl = SPL::from([
        fin(70000000000),
        fin(62000000000),
        fin(70000000000),
        fin(76000000000),
        fin(81500000000),
        fin(79000000000),
        fin(76000000000),
        fin(78000000000),
        fin(80000000000),
        fin(79000000000),
        fin(78000000000),
        fin(78000000000),
        fin(78000000000),
        fin(76000000000),
        fin(80500000000),
        fin(79000000000),
        fin(79000000000),
        fin(78000000000),
        fin(71000000000),
        fin(60000000000),
        fin(54000000000),
        fin(45000000000),
        fin(38000000000),
        fin(29000000000),
    ]);
    let new_slope = get_new_slope(&aspl);
    assert_eq!(slots(&new_slope), vec![
        fin(0),
        fin(0),
        fin(6000000000),
        fin(6000000000),
        fin(5500000000),
        fin(-2500000000),
        fin(-3000000000),
        fin(2000000000),
        fin(2000000000),
        fin(-1000000000),
        fin(-1000000000),
        fin(0),
        fin(0),
        fin(-2000000000),
        fin(4500000000),
        fin(-1500000000),
        fin(0),
        fin(-1000000000),
        fin(-7000000000),
        fin(-11000000000),
        fin(-6000000000),
        fin(-9000000000),
        fin(-7000000000),
        fin(-9000000000),
        fin(-9000000000),
    ]);
}

#[test]
fn averaged_slope_of_the_toned_spectrum() {
    let aspl = SPL::from([
        fin(70000000000),
        fin(62000000000),
        fin(70000000000),
        fin(76000000000),
        fin(81500000000),
        fin(79000000000),
        fin(76000000000),
        fin(78000000000),
        fin(80000000000),
        fin(79000000000),
        fin(78000000000),
        fin(78000000000),
        fin(78000000000),
        fin(76000000000),
        fin(80500000000),
        fin(79000000000),
        fin(79000000000),
        fin(78000000000),
        fin(71000000000),
        fin(60000000000),
        fin(54000000000),
        fin(45000000000),
        fin(38000000000),
        fin(29000000000),
    ]);
    let sb = get_averaged_slope(&get_new_slope(&aspl));
    assert_eq!(sb.to_vec(), vec![
        fin(0),
        fin(2000000000),
        fin(4000000000),
        fin(5833333333),
        fin(3000000000),
        fin(0),
        fin(-1166666667),
        fin(333333333),
        fin(1000000000),
        fin(0),
        fin(-666666667),
        fin(-333333333),
        fin(-666666667),
        fin(833333333),
        fin(333333333),
        fin(1000000000),
        fin(-833333333),
        fin(-2666666667),
        fin(-6333333333),
        fin(-8000000000),
        fin(-8666666667),
        fin(-7333333333),
        fin(-8333333333),
        fin(0),
    ]);
}

#[test]
fn final_levels_of_the_toned_spectrum() {
    let sb = TOBStorage::from([
        fin(0),
        fin(2000000000),
        fin(4000000000),
        fin(5833333333),
        fin(3000000000),
        fin(0),
        fin(-1166666667),
        fin(333333333),
        fin(1000000000),
        fin(0),
        fin(-666666667),
        fin(-333333333),
        fin(-666666667),
        fin(833333333),
        fin(333333333),
        fin(1000000000),
        fin(-833333333),
        fin(-2666666667),
        fin(-6333333333),
        fin(-8000000000),
        fin(-8666666667),
        fin(-7333333333),
        fin(-8333333333),
        fin(0),
    ]);
    let fspl = get_final_spl(&toned(), &sb);
    assert_eq!(fspl.to_vec(), vec![
        fin(0),
        fin(0),
        fin(70000000000),
        fin(74000000000),
        fin(85833333333),
        fin(85000000000),
        fin(83000000000),
        fin(74833333333),
        fin(80333333333),
        fin(81000000000),
        fin(79000000000),
        fin(77333333333),
        fin(79666666667),
        fin(77333333333),
        fin(76833333333),
        fin(79333333333),
        fin(86000000000),
        fin(78166666667),
        fin(75333333333),
        fin(64666666667),
        fin(52000000000),
        fin(45333333333),
        fin(37666666667),
        fin(29666666667),
    ]);
}

#[test]
fn differences_of_the_toned_spectrum() {
    let fspl = SPL::from([
        fin(0),
        fin(0),
        fin(70000000000),
        fin(74000000000),
        fin(85833333333),
        fin(85000000000),
        fin(83000000000),
        fin(74833333333),
        fin(80333333333),
        fin(81000000000),
        fin(79000000000),
        fin(77333333333),
        fin(79666666667),
        fin(77333333333),
        fin(76833333333),
        fin(79333333333),
        fin(86000000000),
        fin(78166666667),
        fin(75333333333),
        fin(64666666667),
        fin(52000000000),
        fin(45333333333),
        fin(37666666667),
        fin(29666666667),
    ]);
    let f = get_differences(&toned(), &fspl);
    assert_eq!(f.to_vec(), vec![
        fin(70000000000),
        fin(62000000000),
        fin(0),
        fin(6000000000),
        fin(-3833333333),
        fin(-2000000000),
        fin(-7000000000),
        fin(5166666667),
        fin(-333333333),
        fin(-2000000000),
        fin(-1000000000),
        fin(2666666667),
        fin(-1666666667),
        fin(-1333333333),
        fin(2166666667),
        fin(5666666667),
        fin(-7000000000),
        fin(-166666667),
        fin(-4333333333),
        fin(-4666666667),
        fin(2000000000),
        fin(-333333333),
        fin(333333333),
        fin(-666666667),
    ]);
}

#[test]
fn tone_corrections_of_the_toned_spectrum() {
    let f = SPL::from([
        fin(70000000000),
        fin(62000000000),
        fin(0),
        fin(6000000000),
        fin(-3833333333),
        fin(-2000000000),
        fin(-7000000000),
        fin(5166666667),
        fin(-333333333),
        fin(-2000000000),
        fin(-1000000000),
        fin(2666666667),
        fin(-1666666667),
        fin(-1333333333),
        fin(2166666667),
        fin(5666666667),
        fin(-7000000000),
        fin(-166666667),
        fin(-4333333333),
        fin(-4666666667),
        fin(2000000000),
        fin(-333333333),
        fin(333333333),
        fin(-666666667),
    ]);
    let c = get_tone_correction(&f);
    assert_eq!(c.to_vec(), vec![
        fin(0),
        fin(0),
        fin(0),
        fin(1000000000),
        fin(0),
        fin(0),
        fin(0),
        fin(861111111),
        fin(0),
        fin(0),
        fin(0),
        fin(388888889),
        fin(0),
        fin(0),
        fin(222222222),
        fin(944444445),
        fin(0),
        fin(0),
        fin(0),
        fin(0),
        fin(166666667),
        fin(0),
        fin(0),
        fin(0),
    ]);
}

#[test]
fn tone_corrected_level_of_the_toned_spectrum() {
    let pnl = PNL::from(whole(90));
    let pnlt = PNLT::from_parts(pnl, toned());
    assert_eq!(*pnlt, fin(91000000000));
}

#[test]
fn slope_of_the_stepped_spectrum() {
    let slope = get_slope(&stepped());
    assert_eq!(slope.to_vec(), vec![
        fin(0),
        fin(0),
        fin(0),
        fin(0),
        fin(0),
        fin(0),
        fin(0),
        fin(0),
        fin(0),
        fin(250000000),
        fin(7250000000),
        fin(-7500000000),
        fin(0),
        fin(0),
        fin(0),
        fin(0),
        fin(0),
        fin(0),
        fin(0),
        fin(0),
        fin(0),
        fin(0),
        fin(5000000000),
        fin(11000000000),
    ]);
}

#[test]
fn encircled_slope_of_the_stepped_spectrum() {
    let slope = get_slope(&stepped());
    let encircled = encircle_slope(&slope);
    assert_eq!(encircled.to_vec(), vec![
        fin(0),
        fin(0),
        fin(0),
        fin(0),
        fin(0),
        fin(0),
        fin(0),
        fin(0),
        fin(0),
        fin(0),
        fin(7000000000),
        fin(-14750000000),
        fin(7500000000),
        fin(0),
        fin(0),
        fin(0),
        fin(0),
        fin(0),
        fin(0),
        fin(0),
        fin(0),
        fin(0),
        fin(0),
        fin(6000000000),
    ]);
}

#[test]
fn encircled_levels_of_the_stepped_spectrum() {
    let slope = get_slope(&stepped());
    let flags = encircle_spl(&slope, &encircle_slope(&slope));
    assert_eq!(flags.to_vec(), vec![
        fin(0),
        fin(0),
        fin(0),
        fin(0),
        fin(0),
        fin(0),
        fin(0),
        fin(0),
        fin(0),
        fin(0),
        fin(1000000000),
        fin(0),
        fin(1000000000),
        fin(0),
        fin(0),
        fin(0),
        fin(0),
        fin(0),
        fin(0),
        fin(0),
        fin(0),
        fin(0),
        fin(0),
        fin(1000000000),
    ]);
}

#[test]
fn adjusted_levels_of_the_stepped_spectrum() {
    let spl = stepped();
    let slope = get_slope(&spl);
    let flags = encircle_spl(&slope, &encircle_slope(&slope));
    let aspl = get_adjusted_spl(&spl, &slope, &flags);
    assert_eq!(aspl.to_vec(), vec![
        fin(40000000000),
        fin(40000000000),
        fin(40000000000),
        fin(40000000000),
        fin(40000000000),
        fin(40000000000),
        fin(40000000000),
        fin(40000000000),
        fin(40000000000),
        fin(40250000000),
        fin(40125000000),
        fin(40000000000),
        fin(40000000000),
        fin(40000000000),
        fin(40000000000),
        fin(40000000000),
        fin(40000000000),
        fin(40000000000),
        fin(40000000000),
        fin(40000000000),
        fin(40000000000),
        fin(40000000000),
        fin(45000000000),
        fin(50000000000),
    ]);
}

#[test]
fn new_slope_of_the_stepped_spectrum() {
    let aspl = SPL::from([
        fin(40000000000),
        fin(40000000000),
        fin(40000000000),
        fin(40000000000),
        fin(40000000000),
        fin(40000000000),
        fin(40000000000),
        fin(40000000000),
        fin(40000000000),
        fin(40250000000),
        fin(40125000000),
        fin(40000000000),
        fin(40000000000),
        fin(40000000000),
        fin(40000000000),
        fin(40000000000),
        fin(40000000000),
        fin(40000000000),
        fin(40000000000),
        fin(40000000000),
        fin(40000000000),
        fin(40000000000),
        fin(45000000000),
        fin(50000000000),
    ]);
    let new_slope = get_new_slope(&aspl);
    assert_eq!(slots(&new_slope), vec![
        fin(0),
        fin(0),
        fin(0),
        fin(0),
        fin(0),
        fin(0),
        fin(0),
        fin(0),
        fin(0),
        fin(250000000),
        fin(-125000000),
        fin(-125000000),
        fin(0),
        fin(0),
        fin(0),
        fin(0),
        fin(0),
        fin(0),
        fin(0),
        fin(0),
        fin(0),
        fin(0),
        fin(5000000000),
        fin(5000000000),
        fin(5000000000),
    ]);
}

#[test]
fn averaged_slope_of_the_stepped_spectrum() {
    let aspl = SPL::from([
        fin(40000000000),
        fin(40000000000),
        fin(40000000000),
        fin(40000000000),
        fin(40000000000),
        fin(40000000000),
        fin(40000000000),
        fin(40000000000),
        fin(40000000000),
        fin(40250000000),
        fin(40125000000),
        fin(40000000000),
        fin(40000000000),
        fin(40000000000),
        fin(40000000000),
        fin(40000000000),
        fin(40000000000),
        fin(40000000000),
        fin(40000000000),
        fin(40000000000),
        fin(40000000000),
        fin(40000000000),
        fin(45000000000),
        fin(50000000000),
    ]);
    let sb = get_averaged_slope(&get_new_slope(&aspl));
    assert_eq!(sb.to_vec(), vec![
        fin(0),
        fin(0),
        fin(0),
        fin(0),
        fin(0),
        fin(0),
        fin(0),
        fin(0),
        fin(83333333),
        fin(41666667),
        fin(0),
        fin(-83333333),
        fin(-41666667),
        fin(0),
        fin(0),
        fin(0),
        fin(0),
        fin(0),
        fin(0),
        fin(0),
        fin(0),
        fin(1666666667),
        fin(3333333333),
        fin(0),
    ]);
}

#[test]
fn final_levels_of_the_stepped_spectrum() {
    let sb = TOBStorage::from([
        fin(0),
        fin(0),
        fin(0),
        fin(0),
        fin(0),
        fin(0),
        fin(0),
        fin(0),
        fin(83333333),
        fin(41666667),
        fin(0),
        fin(-83333333),
        fin(-41666667),
        fin(0),
        fin(0),
        fin(0),
        fin(0),
        fin(0),
        fin(0),
        fin(0),
        fin(0),
        fin(1666666667),
        fin(3333333333),
        fin(0),
    ]);
    let fspl = get_final_spl(&stepped(), &sb);
    assert_eq!(fspl.to_vec(), vec![
        fin(0),
        fin(0),
        fin(40000000000),
        fin(40000000000),
        fin(40000000000),
        fin(40000000000),
        fin(40000000000),
        fin(40000000000),
        fin(40000000000),
        fin(40083333333),
        fin(40291666667),
        fin(47500000000),
        fin(39916666667),
        fin(39958333333),
        fin(40000000000),
        fin(40000000000),
        fin(40000000000),
        fin(40000000000),
        fin(40000000000),
        fin(40000000000),
        fin(40000000000),
        fin(40000000000),
        fin(41666666667),
        fin(48333333333),
    ]);
}

#[test]
fn differences_of_the_stepped_spectrum() {
    let fspl = SPL::from([
        fin(0),
        fin(0),
        fin(40000000000),
        fin(40000000000),
        fin(40000000000),
        fin(40000000000),
        fin(40000000000),
        fin(40000000000),
        fin(40000000000),
        fin(40083333333),
        fin(40291666667),
        fin(47500000000),
        fin(39916666667),
        fin(39958333333),
        fin(40000000000),
        fin(40000000000),
        fin(40000000000),
        fin(40000000000),
        fin(40000000000),
        fin(40000000000),
        fin(40000000000),
        fin(40000000000),
        fin(41666666667),
        fin(48333333333),
    ]);
    let f = get_differences(&stepped(), &fspl);
    assert_eq!(f.to_vec(), vec![
        fin(40000000000),
        fin(40000000000),
        fin(0),
        fin(0),
        fin(0),
        fin(0),
        fin(0),
        fin(0),
        fin(0),
        fin(166666667),
        fin(7208333333),
        fin(-7500000000),
        fin(83333333),
        fin(41666667),
        fin(0),
        fin(0),
        fin(0),
        fin(0),
        fin(0),
        fin(0),
        fin(0),
        fin(0),
        fin(3333333333),
        fin(7666666667),
    ]);
}

#[test]
fn tone_corrections_of_the_stepped_spectrum() {
    let f = SPL::from([
        fin(40000000000),
        fin(40000000000),
        fin(0),
        fin(0),
        fin(0),
        fin(0),
        fin(0),
        fin(0),
        fin(0),
        fin(166666667),
        fin(7208333333),
        fin(-7500000000),
        fin(83333333),
        fin(41666667),
        fin(0),
        fin(0),
        fin(0),
        fin(0),
        fin(0),
        fin(0),
        fin(0),
        fin(0),
        fin(3333333333),
        fin(7666666667),
    ]);
    let c = get_tone_correction(&f);
    assert_eq!(c.to_vec(), vec![
        fin(0),
        fin(0),
        fin(0),
        fin(0),
        fin(0),
        fin(0),
        fin(0),
        fin(0),
        fin(0),
        fin(0),
        fin(1201388889),
        fin(0),
        fin(0),
        fin(0),
        fin(0),
        fin(0),
        fin(0),
        fin(0),
        fin(0),
        fin(0),
        fin(0),
        fin(0),
        fin(555555556),
        fin(1277777778),
    ]);
}

#[test]
fn tone_corrected_level_of_the_stepped_spectrum() {
    let pnl = PNL::from(whole(90));
    let pnlt = PNLT::from_parts(pnl, stepped());
    assert_eq!(*pnlt, fin(91277777778));
}

#[test]
fn first_three_slopes_are_zero_for_every_input() {
    let inputs = [
        toned(),
        stepped(),
        flat(whole(60)),
        flat(NAN),
        flat(INF),
        flat(NEG_INF),
        flat(fin(i64::MAX)),
        SPL::new(),
    ];
    for spl in inputs {
        let slope = get_slope(&spl);
        assert_eq!(slope.get(1), Ok(fin(0)));
        assert_eq!(slope.get(2), Ok(fin(0)));
        assert_eq!(slope.get(3), Ok(fin(0)));
    }
    let mut rising = [fin(0); 24];
    for k in 0..24 {
        rising[k] = whole(10 * k as i32);
    }
    let slope = get_slope(&SPL::from(rising));
    assert_eq!(&slope.to_vec()[..3], &[fin(0); 3]);
    assert_eq!(&slope.to_vec()[3..], &[whole(10); 21]);
}

#[test]
fn flat_spectrum_has_no_tones() {
    for level in [whole(60), whole(0), whole(-20), fin(123_456_789), fin(i64::MAX), fin(i64::MIN)] {
        let spl = flat(level);
        let zeros = vec![fin(0); 24];
        let slope = get_slope(&spl);
        assert_eq!(slope.to_vec(), zeros);
        let encircled = encircle_slope(&slope);
        assert_eq!(encircled.to_vec(), zeros);
        let flags = encircle_spl(&slope, &encircled);
        assert_eq!(flags.to_vec(), zeros);
        let aspl = get_adjusted_spl(&spl, &slope, &flags);
        assert_eq!(aspl, spl);
        let new_slope = get_new_slope(&aspl);
        assert_eq!(slots(&new_slope), vec![fin(0); 25]);
        let sb = get_averaged_slope(&new_slope);
        assert_eq!(sb.to_vec(), zeros);
        let fspl = get_final_spl(&spl, &sb);
        let f = get_differences(&spl, &fspl);
        assert_eq!(&f.to_vec()[2..], &zeros[2..]);
        let c = get_tone_correction(&f);
        assert_eq!(c.to_vec(), zeros);
        for pnl in [whole(73), fin(73_219_280_950), NAN, INF, NEG_INF] {
            assert_eq!(*PNLT::from_parts(PNL::from(pnl), spl), pnl);
        }
    }
}

#[test]
fn bands_1_and_2_have_no_smoothed_level() {
    let spl = flat(whole(60));
    let sb = TOBStorage::from([fin(0); 24]);
    let fspl = get_final_spl(&spl, &sb);
    assert_eq!(fspl.get(1), Ok(fin(0)));
    assert_eq!(fspl.get(2), Ok(fin(0)));
    assert_eq!(fspl.get(3), Ok(whole(60)));
    let f = get_differences(&spl, &fspl);
    assert_eq!(f.get(1), Ok(whole(60)));
    assert_eq!(f.get(2), Ok(whole(60)));
    assert_eq!(f.get(3), Ok(fin(0)));
    // their tone excess of 60 dB earns no correction
    let c = get_tone_correction(&f);
    assert_eq!(c.get(1), Ok(fin(0)));
    assert_eq!(c.get(2), Ok(fin(0)));
}

#[test]
fn encircled_slope_needs_more_than_5_db() {
    let mut slope = TOBStorage::from([fin(0); 24]);
    slope.put(10, whole(5));
    slope.put(15, fin(5_000_000_001));
    slope.put(20, whole(-6));
    let encircled = encircle_slope(&slope);
    // a change of exactly 5 dB is not encircled
    assert_eq!(encircled.get(10), Ok(fin(0)));
    assert_eq!(encircled.get(11), Ok(fin(0)));
    assert_eq!(encircled.get(15), Ok(fin(5_000_000_001)));
    assert_eq!(encircled.get(16), Ok(fin(-5_000_000_001)));
    assert_eq!(encircled.get(20), Ok(whole(-6)));
    assert_eq!(encircled.get(21), Ok(whole(6)));
    assert_eq!(encircled.get(1), Ok(fin(0)));
}

#[test]
fn encircled_slope_of_band_2_and_3_reads_the_slopes_below() {
    let mut slope = TOBStorage::from([fin(0); 24]);
    slope.put(1, whole(8));
    let encircled = encircle_slope(&slope);
    assert_eq!(encircled.get(1), Ok(fin(0)));
    assert_eq!(encircled.get(2), Ok(whole(-8)));
    assert_eq!(encircled.get(3), Ok(fin(0)));
}

#[test]
fn both_conditions_flag_their_band() {
    // condition (a) at band 10 flags band 10; condition (b) at band 12 flags band 11
    let mut slope = TOBStorage::from([fin(0); 24]);
    let mut encircled = TOBStorage::from([fin(0); 24]);
    slope.put(9, whole(2));
    encircled.put(10, whole(6));
    slope.put(11, whole(7));
    encircled.put(12, whole(-8));
    // an encircled slope that does not exceed the slope below flags nothing
    slope.put(19, whole(9));
    encircled.put(20, whole(9));
    let flags = encircle_spl(&slope, &encircled);
    let mut expected = vec![fin(0); 24];
    expected[9] = whole(1);
    expected[10] = whole(1);
    assert_eq!(flags.to_vec(), expected);
}

#[test]
fn zero_encircled_slope_after_a_rise_flags_the_band_before() {
    let mut slope = TOBStorage::from([fin(0); 24]);
    slope.put(4, whole(3));
    let encircled = TOBStorage::from([fin(0); 24]);
    let flags = encircle_spl(&slope, &encircled);
    // condition (b) at band 5: encircled slope 0 <= 0 and slope of band 4 positive
    let mut expected = vec![fin(0); 24];
    expected[3] = whole(1);
    assert_eq!(flags.to_vec(), expected);
    // bands 1 to 3 are looked at by no condition but (b) at band 4
    let mut slope = TOBStorage::from([fin(0); 24]);
    slope.put(1, whole(3));
    slope.put(2, whole(3));
    slope.put(3, whole(3));
    let flags = encircle_spl(&slope, &encircled);
    let mut expected = vec![fin(0); 24];
    expected[2] = whole(1);
    assert_eq!(flags.to_vec(), expected);
}

#[test]
fn adjustment_reads_the_measured_neighbours() {
    let mut levels = [whole(50); 24];
    levels[9] = whole(60);
    levels[10] = whole(70);
    levels[11] = whole(58);
    let spl = SPL::from(levels);
    let slope = TOBStorage::from([fin(0); 24]);
    let mut flags = TOBStorage::from([fin(0); 24]);
    flags.put(10, whole(1));
    flags.put(11, whole(1));
    let aspl = get_adjusted_spl(&spl, &slope, &flags);
    // band 10: (50 + 70) / 2; band 11: (60 + 58) / 2, from the level of band 10 as measured
    assert_eq!(aspl.get(10), Ok(whole(60)));
    assert_eq!(aspl.get(11), Ok(whole(59)));
    assert_eq!(aspl.get(12), Ok(whole(58)));
    assert_eq!(aspl.get(9), Ok(whole(50)));
}

#[test]
fn adjustment_of_band_1_and_24() {
    let mut levels = [whole(50); 24];
    levels[0] = whole(90);
    levels[22] = whole(55);
    levels[23] = whole(80);
    let spl = SPL::from(levels);
    let mut slope = TOBStorage::from([fin(0); 24]);
    slope.put(23, whole(5));
    let flags = TOBStorage::from([whole(1); 24]);
    let aspl = get_adjusted_spl(&spl, &slope, &flags);
    // band 1 is never adjusted; band 24 continues band 23 by its slope
    assert_eq!(aspl.get(1), Ok(whole(90)));
    assert_eq!(aspl.get(2), Ok(whole(70)));
    assert_eq!(aspl.get(23), Ok(whole(65)));
    assert_eq!(aspl.get(24), Ok(whole(60)));
    // a flag that is not positive adjusts nothing
    let flags = TOBStorage::from([fin(0); 24]);
    assert_eq!(get_adjusted_spl(&spl, &slope, &flags), spl);
    let flags = TOBStorage::from([NAN; 24]);
    assert_eq!(get_adjusted_spl(&spl, &slope, &flags), spl);
}

#[test]
fn new_slope_slots_line_up_with_the_bands_above() {
    let mut levels = [fin(0); 24];
    for k in 0..24 {
        levels[k] = whole((k * k) as i32);
    }
    let new_slope = get_new_slope(&SPL::from(levels));
    let s = slots(&new_slope);
    assert_eq!(s.len(), 25);
    assert_eq!(s[0], fin(0));
    assert_eq!(s[1], fin(0));
    // slot k holds the rise from band k to band k + 1: (k^2) - (k - 1)^2 = 2k - 1
    for k in 3..=23 {
        assert_eq!(s[k], whole(2 * k as i32 - 1));
    }
    assert_eq!(s[2], s[3]);
    assert_eq!(s[2], whole(5));
    assert_eq!(s[24], s[23]);
    assert_eq!(s[24], whole(45));
}

#[test]
fn new_slope_has_25_slots() {
    let new_slope = get_new_slope(&flat(whole(1)));
    assert_eq!(new_slope.get(0), Ok(fin(0)));
    assert_eq!(new_slope.get(24), Ok(fin(0)));
    assert_eq!(new_slope.slot(24), fin(0));
    assert_eq!(new_slope.get(25), Err(TOBError::IndexOutOfRange { index: 25 }));
    let built = NewSlope::from([whole(3); 25]);
    assert_eq!(slots(&built), vec![whole(3); 25]);
}

#[test]
fn averaged_slope_slots_line_up_with_the_new_slope() {
    let mut s = [fin(0); 25];
    for k in 0..25 {
        s[k] = whole(3 * (k * k) as i32);
    }
    let sb = get_averaged_slope(&NewSlope::from(s));
    let v = sb.to_vec();
    assert_eq!(v[0], fin(0));
    assert_eq!(v[23], fin(0));
    // slot k: ((k - 1)^2 + k^2 + (k + 1)^2) = 3k^2 + 2
    for k in 1..=22 {
        assert_eq!(v[k], whole((3 * k * k + 2) as i32));
        assert_eq!(sb.get(k + 1), Ok(whole((3 * k * k + 2) as i32)));
    }
}

#[test]
fn averaged_slope_rounds_to_the_nearest_quantum() {
    let mut s = [fin(0); 25];
    s[10] = whole(1);
    s[11] = whole(1);
    let sb = get_averaged_slope(&NewSlope::from(s));
    assert_eq!(sb.to_vec()[9], fin(333_333_333));
    assert_eq!(sb.to_vec()[10], fin(666_666_667));
    assert_eq!(sb.to_vec()[11], fin(666_666_667));
    assert_eq!(sb.to_vec()[12], fin(333_333_333));
    assert_eq!(sb.to_vec()[13], fin(0));
}

#[test]
fn final_level_adds_the_averaged_slope_of_the_band_below() {
    let mut levels = [fin(0); 24];
    let mut slopes = [fin(0); 24];
    for k in 0..24 {
        levels[k] = whole(100 + k as i32);
        slopes[k] = whole(1000 * (k as i32 + 1));
    }
    let fspl = get_final_spl(&SPL::from(levels), &TOBStorage::from(slopes));
    assert_eq!(fspl.get(1), Ok(fin(0)));
    assert_eq!(fspl.get(2), Ok(fin(0)));
    assert_eq!(fspl.get(3), Ok(whole(102)));
    for i in 4..=24 {
        // level of band i - 1 is 100 + i - 2, averaged slope of band i - 1 is 1000 (i - 1)
        assert_eq!(fspl.get(i), Ok(whole(100 + i as i32 - 2 + 1000 * (i as i32 - 1))));
    }
}

#[test]
fn difference_is_taken_band_by_band() {
    let mut a = [fin(0); 24];
    let mut b = [fin(0); 24];
    for k in 0..24 {
        a[k] = whole(10 * k as i32);
        b[k] = whole(k as i32);
    }
    let f = get_differences(&SPL::from(a), &SPL::from(b));
    for i in 1..=24 {
        assert_eq!(f.get(i), Ok(whole(9 * (i as i32 - 1))));
    }
}

#[test]
fn tone_correction_by_excess() {
    let f = whole(1000);
    assert_eq!(tone_correction(f, NEG_INF), fin(0));
    assert_eq!(tone_correction(f, whole(-3)), fin(0));
    assert_eq!(tone_correction(f, fin(0)), fin(0));
    assert_eq!(tone_correction(f, fin(1_499_999_999)), fin(0));
    // 1.5 / 3 - 0.5
    assert_eq!(tone_correction(f, fin(1_500_000_000)), fin(0));
    // 2 / 3 - 0.5
    assert_eq!(tone_correction(f, whole(2)), fin(166_666_667));
    // 2.4 / 3 - 0.5
    assert_eq!(tone_correction(f, fin(2_400_000_000)), fin(300_000_000));
    assert_eq!(tone_correction(f, fin(2_999_999_999)), fin(500_000_000));
    // 3 / 6
    assert_eq!(tone_correction(f, whole(3)), fin(500_000_000));
    assert_eq!(tone_correction(f, whole(10)), fin(1_666_666_667));
    assert_eq!(tone_correction(f, fin(19_999_999_999)), fin(3_333_333_333));
    assert_eq!(tone_correction(f, fin(19_999_999_996)), fin(3_333_333_333));
    assert_eq!(tone_correction(f, fin(19_999_999_990)), fin(3_333_333_332));
    // 3 + 1 / 3
    assert_eq!(tone_correction(f, whole(20)), fin(3_333_333_333));
    assert_eq!(tone_correction(f, whole(50)), fin(3_333_333_333));
    assert_eq!(tone_correction(f, INF), fin(3_333_333_333));
    assert_eq!(tone_correction(f, NAN), fin(3_333_333_333));
}

#[test]
fn tone_correction_is_the_same_at_every_frequency() {
    let frequencies = [
        whole(50),
        fin(499_999_999_999),
        whole(500),
        whole(1000),
        whole(5000),
        fin(5_000_000_000_001),
        whole(10000),
        NAN,
        INF,
    ];
    for excess in [whole(1), whole(2), whole(10), whole(30), NAN] {
        let expected = tone_correction(whole(1000), excess);
        for f in frequencies {
            assert_eq!(tone_correction(f, excess), expected);
        }
    }
}

#[test]
fn tone_corrections_start_at_band_3() {
    let f = flat(whole(30));
    let c = get_tone_correction(&f);
    assert_eq!(c.get(1), Ok(fin(0)));
    assert_eq!(c.get(2), Ok(fin(0)));
    for i in 3..=24 {
        assert_eq!(c.get(i), Ok(fin(3_333_333_333)));
    }
}

#[test]
fn correction_factor_is_the_largest_from_band_3_on() {
    let mut c = [fin(0); 24];
    c[0] = whole(9);
    c[1] = whole(8);
    c[5] = fin(1_250_000_000);
    c[20] = fin(2_500_000_000);
    c[23] = fin(2_000_000_000);
    let pnlt = get_correction_factor(&PNL::from(whole(80)), &SPL::from(c));
    assert_eq!(*pnlt, fin(82_500_000_000));
    c[2] = whole(3);
    let pnlt = get_correction_factor(&PNL::from(whole(80)), &SPL::from(c));
    assert_eq!(*pnlt, whole(83));
    c[23] = whole(4);
    let pnlt = get_correction_factor(&PNL::from(whole(80)), &SPL::from(c));
    assert_eq!(*pnlt, whole(84));
}

#[test]
fn correction_factor_passes_over_nan_corrections() {
    let mut c = [NAN; 24];
    c[10] = whole(1);
    let pnlt = get_correction_factor(&PNL::from(whole(80)), &SPL::from(c));
    assert_eq!(*pnlt, whole(81));
    let pnlt = get_correction_factor(&PNL::from(whole(80)), &SPL::from([NAN; 24]));
    assert_eq!(*pnlt, NAN);
}

#[test]
fn unset_spectrum_flows_through() {
    let spl = SPL::new();
    let slope = get_slope(&spl);
    assert_eq!(&slope.to_vec()[3..], &[NAN; 21]);
    let encircled = encircle_slope(&slope);
    assert_eq!(encircled.to_vec(), vec![fin(0); 24]);
    let flags = encircle_spl(&slope, &encircled);
    assert_eq!(flags.to_vec(), vec![fin(0); 24]);
    let aspl = get_adjusted_spl(&spl, &slope, &flags);
    assert_eq!(aspl.to_vec(), vec![NAN; 24]);
    let f = get_differences(&spl, &get_final_spl(&spl, &get_averaged_slope(&get_new_slope(&aspl))));
    assert_eq!(f.to_vec(), vec![NAN; 24]);
    // an excess that is not a number is below no threshold
    let c = get_tone_correction(&f);
    assert_eq!(&c.to_vec()[2..], &[fin(3_333_333_333); 22]);
    assert_eq!(*PNLT::from_parts(PNL::from(whole(70)), spl), fin(73_333_333_333));
    assert_eq!(*PNLT::from_parts(PNL::from(NAN), spl), NAN);
}

#[test]
fn infinite_flat_spectrum_is_not_flat() {
    let spl = flat(INF);
    let slope = get_slope(&spl);
    assert_eq!(&slope.to_vec()[3..], &[NAN; 21]);
    assert_eq!(*PNLT::from_parts(PNL::from(whole(70)), spl), fin(73_333_333_333));
}

#[test]
fn pnlt_wraps_a_scalar() {
    let pnlt = PNLT::from(whole(91));
    assert_eq!(*pnlt, whole(91));
    assert_eq!(pnlt, PNLT::from(whole(91)));
}

#[test]
fn single_tone_is_corrected() {
    let mut levels = [whole(70); 24];
    levels[11] = whole(80);
    let spl = SPL::from(levels);
    let slope = get_slope(&spl);
    assert_eq!(slope.get(12), Ok(whole(10)));
    assert_eq!(slope.get(13), Ok(whole(-10)));
    let flags = encircle_spl(&slope, &encircle_slope(&slope));
    // band 12 by the rise into it, band 14 by the return of the slope to zero
    let mut expected = vec![fin(0); 24];
    expected[11] = whole(1);
    expected[13] = whole(1);
    assert_eq!(flags.to_vec(), expected);
    let aspl = get_adjusted_spl(&spl, &slope, &flags);
    assert_eq!(aspl, flat(whole(70)));
    // the smoothed spectrum is flat, the tone stands 10 dB out of it: 10 / 6
    assert_eq!(
        *PNLT::from_parts(PNL::from(whole(85)), spl),
        fin(86_666_666_667)
    );
}

fn to_float(s: Scalar) -> f64 {
    match s {
        Scalar::Nan => f64::NAN,
        Scalar::PosInf => f64::INFINITY,
        Scalar::NegInf => f64::NEG_INFINITY,
        Scalar::Finite(n) => n as f64 / 1e9,
    }
}

fn close(exact: &[Scalar], float: &[f64]) -> bool {
    exact.len() == float.len()
        && exact
            .iter()
            .zip(float)
            .all(|(e, f)| (to_float(*e) - f).abs() < 1e-6)
}

/// The ten steps in floating point, on levels that are multiples of half a dB.
fn float_steps(spl: &[f64; 24]) -> (Vec<Vec<f64>>, f64) {
    let at = |v: &[f64], band: usize| v[band - 1];
    let mut slope = vec![0.0; 24];
    for i in 4..=24 {
        slope[i - 1] = at(spl, i) - at(spl, i - 1);
    }
    let mut encircled = vec![0.0; 24];
    for i in 2..=24 {
        let diff = at(&slope, i) - at(&slope, i - 1);
        if diff.abs() > 5.0 {
            encircled[i - 1] = diff;
        }
    }
    let mut flags = vec![0.0; 24];
    for i in 4..=24 {
        if at(&encircled, i) > at(&slope, i - 1).max(0.0) {
            flags[i - 1] = 1.0;
        }
        if at(&encircled, i) <= 0.0 && at(&slope, i - 1) > 0.0 {
            flags[i - 2] = 1.0;
        }
    }
    let mut aspl = spl.to_vec();
    for i in 2..=23 {
        if at(&flags, i) > 0.0 {
            aspl[i - 1] = (at(spl, i - 1) + at(spl, i + 1)) / 2.0;
        }
    }
    if at(&flags, 24) > 0.0 {
        aspl[23] = at(spl, 23) + at(&slope, 23);
    }
    let mut new_slope = vec![0.0; 25];
    for k in 3..24 {
        new_slope[k] = aspl[k] - aspl[k - 1];
    }
    new_slope[2] = new_slope[3];
    new_slope[24] = new_slope[23];
    let mut sb = vec![0.0; 24];
    for k in 1..23 {
        sb[k] = (new_slope[k - 1] + new_slope[k] + new_slope[k + 1]) / 3.0;
    }
    let mut fspl = vec![0.0; 24];
    fspl[2] = at(spl, 3);
    for i in 4..=24 {
        fspl[i - 1] = at(spl, i - 1) + at(&sb, i - 1);
    }
    let f: Vec<f64> = spl.iter().zip(&fspl).map(|(a, b)| a - b).collect();
    let mut c = vec![0.0; 24];
    for i in 3..=24 {
        let fi = at(&f, i);
        c[i - 1] = if fi < 1.5 {
            0.0
        } else if fi < 3.0 {
            fi / 3.0 - 0.5
        } else if fi < 20.0 {
            fi / 6.0
        } else {
            3.0 + 1.0 / 3.0
        };
    }
    let largest = c[2..].iter().cloned().fold(f64::NAN, f64::max);
    (vec![slope, encircled, flags, aspl, new_slope, sb, fspl, f, c], largest)
}

#[test]
fn agrees_with_floating_point_on_many_spectra() {
    let mut state: u64 = 0x2545_f491_4f6c_dd1d;
    for _ in 0..500 {
        let mut levels = [0.0f64; 24];
        let mut exact = [fin(0); 24];
        for k in 0..24 {
            state = state
                .wrapping_mul(6364136223846793005)
                .wrapping_add(1442695040888963407);
            // half-dB steps from 30 to 110 dB
            let halves = 60 + (state >> 33) % 161;
            levels[k] = halves as f64 / 2.0;
            exact[k] = fin(halves as i64 * 500_000_000);
        }
        let (stages, largest) = float_steps(&levels);
        let spl = SPL::from(exact);
        let slope = get_slope(&spl);
        assert!(close(&slope.to_vec(), &stages[0]));
        let encircled = encircle_slope(&slope);
        assert!(close(&encircled.to_vec(), &stages[1]));
        let flags = encircle_spl(&slope, &encircled);
        assert!(close(&flags.to_vec(), &stages[2]));
        let aspl = get_adjusted_spl(&spl, &slope, &flags);
        assert!(close(&aspl.to_vec(), &stages[3]));
        let new_slope = get_new_slope(&aspl);
        assert!(close(&slots(&new_slope), &stages[4]));
        let sb = get_averaged_slope(&new_slope);
        assert!(close(&sb.to_vec(), &stages[5]));
        let fspl = get_final_spl(&spl, &sb);
        assert!(close(&fspl.to_vec(), &stages[6]));
        let f = get_differences(&spl, &fspl);
        assert!(close(&f.to_vec(), &stages[7]));
        let c = get_tone_correction(&f);
        assert!(close(&c.to_vec(), &stages[8]));
        let pnlt = PNLT::from_parts(PNL::from(whole(100)), spl);
        assert!((to_float(*pnlt) - (100.0 + largest)).abs() < 1e-6);
    }
}
