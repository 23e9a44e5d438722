use ascii_art::glyph::glyph;

#[test]
fn band_boundaries_map_to_the_ramp() {
    let levels: [u8; 8] = [0, 32, 64, 96, 128, 160, 192, 224];
    let expected = ['#', '@', '8', '&', 'o', ':', '*', '.'];
    for i in 0..8 {
        assert_eq!(glyph(levels[i]), expected[i]);
    }
    assert_eq!(glyph(255), '.');
}
