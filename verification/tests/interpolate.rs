use betterjeb::interpolate::Interpolate;

#[test]
fn test_interpolate() {
    let inter = Interpolate::new((0, 4000), (2000, 4000));
    assert_eq!(inter.inter(2000), 3000);

    let inter = Interpolate::new((-4000, 0), (2000, 4000));
    assert_eq!(inter.inter(-2000), 3000);

    let inter = Interpolate::new((-4000, 0), (2000, 4000));
    assert_eq!(inter.inter(-8000), 2000);

    let inter = Interpolate::new((-4000, 0), (2000, 4000));
    assert_eq!(inter.inter(8000), 4000);
}

#[test]
fn clamps_descending_codomain() {
    // The pitch program runs 90 degrees down to 0 as altitude climbs.
    let pitch = Interpolate::new((100_000, 32_000_000), (90_000, 0));
    assert_eq!(pitch.inter(100_000), 90_000);
    assert_eq!(pitch.inter(0), 90_000);
    assert_eq!(pitch.inter(-5_000_000), 90_000);
    assert_eq!(pitch.inter(32_000_000), 0);
    assert_eq!(pitch.inter(64_000_000), 0);
    assert_eq!(pitch.inter(10_000_000), 62_069);
}

#[test]
fn result_never_leaves_codomain_span() {
    let maps = [
        Interpolate::new((0, 1000), (2000, 4000)),
        Interpolate::new((1000, 0), (2000, 4000)),
        Interpolate::new((0, 1000), (4000, 2000)),
        Interpolate::new((-500, 500), (-3000, 3000)),
    ];
    for m in maps.iter() {
        let lo = m.to.0.min(m.to.1);
        let hi = m.to.0.max(m.to.1);
        let mut x: i64 = -10_000;
        while x <= 10_000 {
            let r = m.inter(x);
            assert!(lo <= r && r <= hi);
            x += 250;
        }
    }
}
