use measure_units::DivUnit;
use measure_units::Measurement;
use measure_units::Rat;
use measure_units::units::Bit;
use measure_units::units::Hour;
use measure_units::units::Kbps;
use measure_units::units::Kilobit;
use measure_units::units::Second;

#[test]
fn test_display() {
    let m1: Measurement<Hour> = Measurement::new(Rat::new(4242, 100));
    assert_eq!("42.42 h", m1.display());
}

#[test]
fn test_display_complex() {
    let m1: Measurement<DivUnit<Kilobit, Second>> = Measurement::new(Rat::new(4242, 100));
    assert_eq!("42.42 Kb/s", m1.display());
}

#[test]
fn test_display_alias() {
    let m1: Measurement<Kbps> = Measurement::new(Rat::new(4242, 100));
    assert_eq!("42.42 Kbps", m1.display());
}

#[test]
fn test_display_integer_and_zero() {
    let whole = Measurement::<Bit>::new(Rat::new(42, 1));
    assert_eq!("42 b", whole.display());

    let zero = Measurement::<Hour>::new(Rat::new(0, 5));
    assert_eq!("0 h", zero.display());
}

#[test]
fn test_display_reduces_magnitude() {
    let m = Measurement::<Hour>::new(Rat::new(4600, 1000));
    assert_eq!("4.6 h", m.display());

    let halves = Measurement::<Hour>::new(Rat::new(-3, 6));
    assert_eq!("-0.5 h", halves.display());
}

#[test]
fn test_display_small_fractions() {
    let m = Measurement::<Hour>::new(Rat::new(1, 20));
    assert_eq!("0.05 h", m.display());

    let m = Measurement::<Second>::new(Rat::new(1, 4));
    assert_eq!("0.25 s", m.display());
}

#[test]
fn test_display_non_decimal_falls_back_to_fraction() {
    let third = Measurement::<Hour>::new(Rat::new(1, 3));
    assert_eq!("1/3 h", third.display());

    let negative = Measurement::<Second>::new(Rat::new(-22, 7));
    assert_eq!("-22/7 s", negative.display());
}
