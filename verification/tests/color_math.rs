use blade_controlhub::color_math::{
    bin_center_rgb, is_ignored_black, luma8, rgb_bin, sample_coordinate, Rgb, SAMPLE_HEIGHT, SAMPLE_WIDTH,
};

#[test]
fn ambient_black_filter_keeps_dark_saturated_colors() {
    assert!(!is_ignored_black(Rgb { r: 24, g: 0, b: 72 }));
    assert!(is_ignored_black(Rgb { r: 32, g: 32, b: 32 }));
}

#[test]
fn color_math_tests_black_filter_keeps_dark_saturated_colors() {
    assert!(!is_ignored_black(Rgb { r: 24, g: 0, b: 72 }));
    assert!(is_ignored_black(Rgb { r: 32, g: 32, b: 32 }));
}

#[test]
fn ambient_rgb_bin_returns_center_for_same_bucket() {
    let color = Rgb { r: 31, g: 32, b: 33 };
    let center = bin_center_rgb(rgb_bin(color));

    assert_eq!(center, Rgb { r: 24, g: 40, b: 40 });
}

#[test]
fn color_math_tests_rgb_bin_returns_center_for_same_bucket() {
    let color = Rgb { r: 31, g: 32, b: 33 };
    let center = bin_center_rgb(rgb_bin(color));

    assert_eq!(center, Rgb { r: 24, g: 40, b: 40 });
}

#[test]
fn near_black_and_dark_greys_are_ignored_but_bright_colours_are_not() {
    assert!(is_ignored_black(Rgb { r: 16, g: 0, b: 0 }));
    assert!(!is_ignored_black(Rgb { r: 17, g: 0, b: 0 }));
    assert!(is_ignored_black(Rgb { r: 40, g: 38, b: 36 }));
    assert!(!is_ignored_black(Rgb { r: 60, g: 55, b: 50 }), "too bright for a dark grey");
    assert!(!is_ignored_black(Rgb { r: 200, g: 200, b: 200 }));
    assert!(!is_ignored_black(Rgb { r: 81, g: 81, b: 81 }));
}

#[test]
fn luma_weights_green_heaviest() {
    assert_eq!(luma8(Rgb { r: 255, g: 255, b: 255 }), 255);
    assert_eq!(luma8(Rgb { r: 0, g: 0, b: 0 }), 0);
    assert_eq!(luma8(Rgb { r: 0, g: 255, b: 0 }), 182);
    assert_eq!(luma8(Rgb { r: 255, g: 0, b: 0 }), 53);
}

#[test]
fn buckets_are_sixteen_levels_a_channel() {
    assert_eq!(rgb_bin(Rgb { r: 0, g: 0, b: 0 }), 0);
    assert_eq!(rgb_bin(Rgb { r: 255, g: 255, b: 255 }), 4095);
    assert_eq!(bin_center_rgb(4095), Rgb { r: 248, g: 248, b: 248 });
    assert_eq!(bin_center_rgb(0), Rgb { r: 8, g: 8, b: 8 });
}

#[test]
fn samples_sit_at_the_centre_of_their_share_of_the_screen() {
    assert_eq!(sample_coordinate(0, 1920, SAMPLE_WIDTH), 30);
    assert_eq!(sample_coordinate(SAMPLE_WIDTH - 1, 1920, SAMPLE_WIDTH), 1890);
    assert_eq!(sample_coordinate(0, 1080, SAMPLE_HEIGHT), 30);
    assert_eq!(sample_coordinate(SAMPLE_HEIGHT - 1, 1080, SAMPLE_HEIGHT), 1050);
    assert_eq!(sample_coordinate(31, 1, SAMPLE_WIDTH), 0);
}
