use ascii_art::sampling::{block_origin, mean_level};

#[test]
fn mean_of_one_pixel_is_the_pixel() {
    assert_eq!(mean_level(0, 0, 0, 1), 0);
    assert_eq!(mean_level(255, 255, 255, 1), 255);
    assert_eq!(mean_level(100, 100, 100, 1), 100);
}

#[test]
fn channels_are_weighed() {
    // 0.2126 * 255 = 54.2, 0.7152 * 255 = 182.4, 0.0722 * 255 = 18.4
    assert_eq!(mean_level(255, 0, 0, 1), 54);
    assert_eq!(mean_level(0, 255, 0, 1), 182);
    assert_eq!(mean_level(0, 0, 255, 1), 18);
    // 0.2126 * 10 + 0.7152 * 200 + 0.0722 * 90 = 151.6
    assert_eq!(mean_level(10, 200, 90, 1), 151);
}

#[test]
fn totals_are_divided_by_the_count() {
    assert_eq!(mean_level(200, 200, 200, 2), 100);
    assert_eq!(mean_level(400, 400, 400, 2), 200);
    assert_eq!(mean_level(255 * 6, 255 * 6, 255 * 6, 6), 255);
}

#[test]
fn means_round_down_before_they_are_weighed() {
    // 255 / 4 = 63.75 -> 63 in every channel, so the level is 63.
    assert_eq!(mean_level(255, 255, 255, 4), 63);
    // 0.2126 * 63 = 13.4
    assert_eq!(mean_level(255, 0, 0, 4), 13);
    // Means of 1.5 round down to 1: 0.2126 + 0.7152 + 0.0722 = 1.
    assert_eq!(mean_level(3, 3, 3, 2), 1);
}

#[test]
fn large_blocks_do_not_overflow() {
    let count = u32::MAX as u128 * u32::MAX as u128;
    assert_eq!(mean_level(255 * count, 255 * count, 255 * count, count), 255);
    assert_eq!(mean_level(128 * count, 128 * count, 128 * count, count), 128);
}

#[test]
fn origins_round_down() {
    assert_eq!(block_origin(0, 5, 2), 0);
    assert_eq!(block_origin(1, 5, 2), 2);
    assert_eq!(block_origin(0, 7, 3), 0);
    assert_eq!(block_origin(1, 7, 3), 2);
    assert_eq!(block_origin(2, 7, 3), 4);
}

#[test]
fn origins_repeat_where_cells_outnumber_pixels() {
    assert_eq!(block_origin(0, 2, 4), 0);
    assert_eq!(block_origin(1, 2, 4), 0);
    assert_eq!(block_origin(2, 2, 4), 1);
    assert_eq!(block_origin(3, 2, 4), 1);
    assert_eq!(block_origin(79, 1, 80), 0);
}

#[test]
fn origins_stay_inside_the_largest_source() {
    assert_eq!(block_origin(u32::MAX - 1, u32::MAX, u32::MAX), u32::MAX - 1);
    assert_eq!(block_origin(0, u32::MAX, 1), 0);
    assert_eq!(block_origin(1, u32::MAX, 2), u32::MAX / 2);
}
