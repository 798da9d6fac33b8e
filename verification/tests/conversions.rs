use measure_units::DivUnit;
use measure_units::Measurement;
use measure_units::Rat;
use measure_units::units::Bps;
use measure_units::units::Celsius;
use measure_units::units::Fahrenheit;
use measure_units::units::Gbps;
use measure_units::units::Hour;
use measure_units::units::Kbps;
use measure_units::units::Kilobit;
use measure_units::units::Mbps;
use measure_units::units::Megabit;
use measure_units::units::Minute;
use measure_units::units::Tbps;
use measure_units::units::Second;

#[test]
fn test_add_compiles() {
    let m1: Measurement<DivUnit<Kilobit, Second>> = Default::default();
    let m2: Measurement<Kbps> = Default::default();

    let _: Measurement<DivUnit<Kilobit, Second>> = m1 + m1;
    let _: Measurement<DivUnit<Kilobit, Second>> = m1 + m2;
    let _: Measurement<Kbps> = m2 + m2;
    let _: Measurement<Kbps> = m2 + m1;
}

#[test]
fn test_sub_compiles() {
    let m1: Measurement<DivUnit<Kilobit, Second>> = Default::default();
    let m2: Measurement<Kbps> = Default::default();

    let _: Measurement<DivUnit<Kilobit, Second>> = m1 - m1;
    let _: Measurement<DivUnit<Kilobit, Second>> = m1 - m2;
    let _: Measurement<Kbps> = m2 - m2;
    let _: Measurement<Kbps> = m2 - m1;
}

#[test]
fn test_into_unit_compiles() {
    let m1: Measurement<Hour> = Default::default();
    let m2: Measurement<DivUnit<Kilobit, Second>> = Default::default();
    let m3: Measurement<Kbps> = Default::default();

    let _: Measurement<Second> = m1.into_unit();
    let _: Measurement<Kbps> = m2.into_unit();
    let _: Measurement<DivUnit<Kilobit, Second>> = m2.into_unit();
    let _: Measurement<DivUnit<Megabit, Hour>> = m3.into_unit();
}

#[test]
fn test_self_conversion_identity() {
    let h = Measurement::<Hour>::new(Rat::new(42, 5));
    let back: Measurement<Hour> = h.into_unit();
    assert!(back.equals(h));
    assert_eq!("8.4 h", back.display());

    let k = Measurement::<Kbps>::new(Rat::new(7, 3));
    let back: Measurement<Kbps> = k.into_unit();
    assert!(back.equals(k));
}

#[test]
fn test_family_round_trip() {
    let h = Measurement::<Hour>::new(Rat::new(7, 3));
    let m: Measurement<Minute> = h.into_unit();
    let back: Measurement<Hour> = m.into_unit();
    assert!(back.equals(h));

    let kb = Measurement::<Kilobit>::new(Rat::new(-19, 7));
    let mb: Measurement<Megabit> = kb.into_unit();
    let back: Measurement<Kilobit> = mb.into_unit();
    assert!(back.equals(kb));
}

#[test]
fn test_family_conversion_exact() {
    let s = Measurement::<Second>::new(Rat::new(7200, 1));
    let h: Measurement<Hour> = s.into_unit();
    assert!(h.equals(Measurement::<Hour>::new(Rat::new(2, 1))));

    let mb = Measurement::<Megabit>::new(Rat::new(3, 1));
    let kb: Measurement<Kilobit> = mb.into_unit();
    assert!(kb.equals(Measurement::<Kilobit>::new(Rat::new(3000, 1))));
}

#[test]
fn test_sum_unit_follows_left() {
    let a = Measurement::<Hour>::new(Rat::new(2, 1));
    let b = Measurement::<Second>::new(Rat::new(3600, 1));

    let in_hours = a + b;
    assert!(in_hours.equals(Measurement::<Hour>::new(Rat::new(3, 1))));
    assert_eq!("3 h", in_hours.display());

    let in_seconds = b + a;
    assert!(in_seconds.equals(Measurement::<Second>::new(Rat::new(10800, 1))));
    assert_eq!("10800 s", in_seconds.display());
}

#[test]
fn test_sub_mixed_units() {
    let a = Measurement::<Hour>::new(Rat::new(2, 1));
    let b = Measurement::<Second>::new(Rat::new(1800, 1));
    let diff = a - b;
    assert!(diff.equals(Measurement::<Hour>::new(Rat::new(3, 2))));
    assert_eq!("1.5 h", diff.display());
}

#[test]
fn test_ratio_synthesis() {
    let rate1 = Measurement::<DivUnit<Megabit, Hour>>::new(Rat::new(1, 1));
    let rate2 = Measurement::<DivUnit<Kilobit, Second>>::new(Rat::new(1, 1));
    let sum = rate1 + rate2;
    assert!(sum.equals(Measurement::<DivUnit<Megabit, Hour>>::new(Rat::new(23, 5))));
    assert_eq!("4.6 Mb/h", sum.display());
}

#[test]
fn test_alias_transparent_in_arithmetic() {
    let aliased = Measurement::<Kbps>::new(Rat::new(3, 2));
    let underlying = Measurement::<DivUnit<Kilobit, Second>>::new(Rat::new(3, 2));
    let other = Measurement::<DivUnit<Megabit, Hour>>::new(Rat::new(1, 1));

    let via_alias = other + aliased;
    let via_underlying = other + underlying;
    assert!(via_alias.equals(via_underlying));
    assert_eq!(via_alias.display(), via_underlying.display());

    let as_alias: Measurement<Kbps> = underlying.into_unit();
    assert!(as_alias.equals(underlying));
    let as_underlying: Measurement<DivUnit<Kilobit, Second>> = aliased.into_unit();
    assert!(as_underlying.equals(aliased));

    let bps = Measurement::<Bps>::new(Rat::new(2000, 1));
    let as_kbps: Measurement<Kbps> = bps.into_unit();
    assert!(as_kbps.equals(Measurement::<Kbps>::new(Rat::new(2, 1))));
}

#[test]
fn test_rate_alias_family() {
    let g = Measurement::<Gbps>::new(Rat::new(2, 1));
    let as_mbps: Measurement<Mbps> = g.into_unit();
    assert!(as_mbps.equals(Measurement::<Mbps>::new(Rat::new(2000, 1))));
    assert_eq!("2 Gbps", g.display());

    let t = Measurement::<Tbps>::new(Rat::new(1, 2));
    let sum = t + g;
    assert!(sum.equals(Measurement::<Tbps>::new(Rat::new(251, 500))));
    assert_eq!("0.502 Tbps", sum.display());
}

fn rat_same(a: Rat, b: Rat) -> bool {
    a.num * b.den == b.num * a.den
}

#[test]
fn test_nonlinear_pair_exact() {
    let c = Measurement::<Celsius>::new(Rat::new(25, 1));
    let f: Measurement<Fahrenheit> = c.into_unit();
    assert!(rat_same(f.value(), Rat::new(77, 1)));
    assert_eq!("77 F", f.display());

    let freezing = Measurement::<Fahrenheit>::new(Rat::new(32, 1));
    let as_c: Measurement<Celsius> = freezing.into_unit();
    assert!(rat_same(as_c.value(), Rat::new(0, 1)));
}

#[test]
fn test_nonlinear_round_trip_sampled() {
    let samples: Vec<(i128, i128)> = vec![
        (-273, 1),
        (-40, 1),
        (-1, 3),
        (0, 1),
        (1, 7),
        (25, 1),
        (99, 10),
        (451, 1),
        (100000, 17),
    ];
    for (num, den) in samples {
        let c = Measurement::<Celsius>::new(Rat::new(num, den));
        let f: Measurement<Fahrenheit> = c.into_unit();
        let back: Measurement<Celsius> = f.into_unit();
        assert!(rat_same(back.value(), c.value()));

        let f0 = Measurement::<Fahrenheit>::new(Rat::new(num, den));
        let c0: Measurement<Celsius> = f0.into_unit();
        let there: Measurement<Fahrenheit> = c0.into_unit();
        assert!(rat_same(there.value(), f0.value()));
    }
}

#[test]
fn test_scalar_mul_div() {
    let h = Measurement::<Hour>::new(Rat::new(2, 1));
    let scaled = h * Rat::new(3, 2);
    assert!(scaled.equals(Measurement::<Hour>::new(Rat::new(3, 1))));

    let divided = h / Rat::new(-4, 1);
    assert!(divided.equals(Measurement::<Hour>::new(Rat::new(-1, 2))));
    assert_eq!("-0.5 h", divided.display());
}

#[test]
fn test_assign_variants() {
    let mut total = Measurement::<Hour>::new(Rat::new(1, 2));
    total.add_assign(Measurement::<Second>::new(Rat::new(1800, 1)));
    assert!(total.equals(Measurement::<Hour>::new(Rat::new(1, 1))));

    total.sub_assign(Measurement::<Minute>::new(Rat::new(30, 1)));
    assert!(total.equals(Measurement::<Hour>::new(Rat::new(1, 2))));

    total.mul_assign(Rat::new(6, 1));
    assert!(total.equals(Measurement::<Hour>::new(Rat::new(3, 1))));

    total.div_assign(Rat::new(2, 1));
    assert!(total.equals(Measurement::<Hour>::new(Rat::new(3, 2))));
}

#[test]
fn test_comparisons_across_units() {
    let h = Measurement::<Hour>::new(Rat::new(1, 1));
    let s = Measurement::<Second>::new(Rat::new(3601, 1));
    assert!(h.lt(s));
    assert!(h.le(s));
    assert!(!h.equals(s));

    let exact = Measurement::<Second>::new(Rat::new(3600, 1));
    assert!(h.equals(exact));
    assert!(h.le(exact));
    assert!(!h.lt(exact));
    assert!(h.ge(exact));
    assert!(!h.gt(exact));
    assert!(s.gt(h));
    assert!(s.ge(h));
}

#[test]
fn test_value_and_new_round_trip() {
    let r = Rat::new(-21, -6);
    assert_eq!(r, Rat::new(21, 6));
    let m = Measurement::<Minute>::new(r);
    assert_eq!(m.value(), r);
}
