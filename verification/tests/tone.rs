use ascii_art::tone::ToneCurve;

#[test]
fn identity_curve_changes_no_level() {
    let curve = ToneCurve::identity();
    for level in 0..=255u8 {
        assert_eq!(curve.apply(level), level);
    }
    assert_eq!(curve.levels(), (0..=255u8).collect::<Vec<u8>>());
}

#[test]
fn table_must_have_256_entries() {
    assert!(ToneCurve::from_levels(vec![]).is_none());
    assert!(ToneCurve::from_levels((0..255u8).collect()).is_none());
    let mut long: Vec<u8> = (0..=255u8).collect();
    long.push(255);
    assert!(ToneCurve::from_levels(long).is_none());
}

#[test]
fn table_must_keep_black_and_white() {
    let mut levels: Vec<u8> = (0..=255u8).collect();
    levels[0] = 1;
    assert!(ToneCurve::from_levels(levels).is_none());
    let mut levels: Vec<u8> = (0..=255u8).collect();
    levels[255] = 254;
    assert!(ToneCurve::from_levels(levels).is_none());
}

#[test]
fn table_must_not_descend() {
    let mut levels: Vec<u8> = (0..=255u8).collect();
    levels[100] = 98;
    assert!(ToneCurve::from_levels(levels).is_none());
}

#[test]
fn square_root_table_is_a_curve() {
    // The power law of gamma 2: 255 * sqrt(level / 255), rounded down.
    let levels: Vec<u8> = (0..=255u32)
        .map(|level| {
            let mut root = 0u32;
            while (root + 1) * (root + 1) <= level * 255 {
                root += 1;
            }
            root as u8
        })
        .collect();
    let curve = ToneCurve::from_levels(levels.clone()).expect("a tone table");
    assert_eq!(curve.apply(0), 0);
    assert_eq!(curve.apply(64), 127);
    assert_eq!(curve.apply(255), 255);
    assert_eq!(curve.levels(), levels);
    assert_eq!(curve.duplicate().levels(), levels);
}
