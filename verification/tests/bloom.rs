use blade_controlhub::bloom::{
    bloom_tick,
    CENTRE_BLOCK_HEIGHT, CENTRE_BLOCK_WIDTH, QUADRANT_ROWS, band_count, band_for_column, centre_block_columns, changed_rows, in_centre_block, is_key_lit, neighbours,
    AudioBloomEffect, BloomFrames, BloomRng, ThemeColor, MATRIX_COLUMNS, MATRIX_ROWS, RNG_SEED,
};

/// An even width, narrower than `MATRIX_COLUMNS`.
const EVEN_COLUMNS: usize = 14;
/// An odd width, which has a single shared centre column.
const ODD_COLUMNS: usize = 15;

#[test]
fn bands_cover_half_the_keyboard() {
    assert_eq!(band_count(EVEN_COLUMNS), 7);
    assert_eq!(band_count(ODD_COLUMNS), 8);
    // A full-width keyboard addresses columns 0..=18, so 19 columns.
    assert_eq!(band_count(MATRIX_COLUMNS), 10);
}

#[test]
fn low_bands_sit_at_the_centre_and_high_bands_at_both_edges() {
    for columns in [EVEN_COLUMNS, ODD_COLUMNS] {
        let top = band_count(columns) - 1;

        assert_eq!(
            band_for_column(0, columns),
            top,
            "the left edge should carry the highest band at width {columns}"
        );
        assert_eq!(
            band_for_column(columns - 1, columns),
            top,
            "the right edge should carry the highest band at width {columns}"
        );
        assert_eq!(
            band_for_column(columns / 2, columns),
            0,
            "the centre should carry the bass band at width {columns}"
        );
    }
}

#[test]
fn columns_mirror_about_the_vertical_axis() {
    for columns in [EVEN_COLUMNS, ODD_COLUMNS] {
        for column in 0..columns {
            assert_eq!(
                band_for_column(column, columns),
                band_for_column(columns - 1 - column, columns),
                "column {column} is not mirrored at width {columns}"
            );
        }
    }
}

#[test]
fn band_index_rises_monotonically_from_the_centre() {
    let columns = EVEN_COLUMNS;
    let mut previous = band_for_column(columns / 2, columns);
    for column in (columns / 2)..columns {
        let band = band_for_column(column, columns);
        assert!(band >= previous, "band dipped at column {column}");
        previous = band;
    }
}

#[test]
fn stopping_the_effect_disowns_queued_frames() {
    let mut effect = AudioBloomEffect::new();
    effect.stop();
    assert!(!effect.is_active(), "a stopped effect must not own the keyboard");

    effect.stop();
    assert!(!effect.is_active());
}

#[test]
fn only_changed_rows_are_sent() {
    let frame = vec![vec![ThemeColor::new(1, 2, 3); EVEN_COLUMNS]; MATRIX_ROWS];

    // Nothing has been sent yet, so every row is new.
    assert_eq!(changed_rows(&frame, &[], false).len(), MATRIX_ROWS);
    // An identical frame costs nothing.
    assert!(changed_rows(&frame, &frame, false).is_empty());

    let mut moved = frame.clone();
    moved[4][2] = ThemeColor::new(9, 9, 9);
    let changed = changed_rows(&moved, &frame, false);
    assert_eq!(changed.len(), 1);
    assert_eq!(changed[0].0, 4);
}

#[test]
fn a_full_refresh_resends_everything() {
    let frame = vec![vec![ThemeColor::new(1, 2, 3); EVEN_COLUMNS]; MATRIX_ROWS];

    assert_eq!(changed_rows(&frame, &frame, true).len(), MATRIX_ROWS);
}

#[test]
fn a_full_width_keyboard_has_bass_at_its_two_centre_columns_only_when_even() {
    // 19 columns: column 9 alone is the centre.
    assert_eq!(band_for_column(9, MATRIX_COLUMNS), 0);
    assert_eq!(band_for_column(8, MATRIX_COLUMNS), 1);
    // 14 columns: columns 6 and 7 straddle the centre line.
    assert_eq!(band_for_column(6, EVEN_COLUMNS), 0);
    assert_eq!(band_for_column(7, EVEN_COLUMNS), 0);
    assert_eq!(band_for_column(5, EVEN_COLUMNS), 1);
}

#[test]
fn the_centre_block_straddles_the_axis() {
    assert_eq!(centre_block_columns(EVEN_COLUMNS), (5, 9));
    assert_eq!(centre_block_columns(ODD_COLUMNS), (5, 9));
    assert_eq!(centre_block_columns(3), (0, 3));
    assert!(in_centre_block(2, 5, EVEN_COLUMNS));
    assert!(in_centre_block(3, 8, EVEN_COLUMNS));
    assert!(!in_centre_block(1, 6, EVEN_COLUMNS));
    assert!(!in_centre_block(2, 9, EVEN_COLUMNS));
}

#[test]
fn bands_light_outward_from_the_mirror_axis() {
    let columns = EVEN_COLUMNS;
    let mut band_rows = vec![(0usize, 0usize); band_count(columns)];
    band_rows[0] = (1, 2);

    // Column 7 carries band 0: one row above the axis, two below.
    assert!(is_key_lit(2, 7, &band_rows, 0, columns));
    assert!(!is_key_lit(1, 7, &band_rows, 0, columns));
    assert!(is_key_lit(3, 7, &band_rows, 0, columns));
    assert!(is_key_lit(4, 7, &band_rows, 0, columns));
    assert!(!is_key_lit(5, 7, &band_rows, 0, columns));
    // The bar row lights from the left.
    assert!(is_key_lit(6, 0, &band_rows, 3, columns));
    assert!(!is_key_lit(6, 3, &band_rows, 3, columns));
}

#[test]
fn neighbours_stay_on_the_matrix() {
    assert_eq!(neighbours(0, 0, EVEN_COLUMNS), vec![(1, 0), (0, 1)]);
    assert_eq!(neighbours(3, 5, EVEN_COLUMNS), vec![(2, 5), (4, 5), (3, 4), (3, 6)]);
    assert_eq!(neighbours(6, 13, EVEN_COLUMNS), vec![(5, 13), (6, 12)]);
}

#[test]
fn the_side_picker_is_xorshift() {
    let mut rng = BloomRng::new();
    let mut x = RNG_SEED;
    for _ in 0..5 {
        x ^= x << 13;
        x ^= x >> 17;
        x ^= x << 5;
        assert_eq!(rng.next_random(), x);
    }
}

#[test]
fn every_thirtieth_frame_is_a_full_refresh() {
    let frame = vec![vec![ThemeColor::new(1, 2, 3); 4]; MATRIX_ROWS];
    let mut frames = BloomFrames::new();

    let first = frames.next_frame(frame.clone());
    assert!(first.full_refresh);
    assert_eq!(first.rows.len(), MATRIX_ROWS);
    for _ in 1..30 {
        let out = frames.next_frame(frame.clone());
        assert!(!out.full_refresh);
        assert!(out.rows.is_empty());
    }
    let thirtieth = frames.next_frame(frame);
    assert!(thirtieth.full_refresh);
    assert_eq!(thirtieth.rows.len(), MATRIX_ROWS);
}

#[test]
fn a_restarted_effect_owns_the_keyboard_under_a_new_generation() {
    let mut effect = AudioBloomEffect::new();
    let first = effect.start();
    assert!(effect.is_active());
    assert!(effect.is_current(first));

    effect.frame_queued();
    effect.frame_queued();
    assert!(!effect.may_queue_frame(), "two frames in flight is the cap");
    effect.frame_written();
    assert!(effect.may_queue_frame());

    let second = effect.start();
    assert_ne!(first, second);
    assert!(!effect.is_current(first), "the earlier run is superseded");
    assert_eq!(effect.frames_in_flight, 0);

    effect.stop();
    assert!(!effect.is_current(second));
    effect.frame_written();
    effect.frame_written();
    assert_eq!(effect.frames_in_flight, 0, "never counts below zero");
}

#[test]
fn the_centre_block_is_eight_keys_straddling_the_axis() {
    let mut members = Vec::new();
    for row in 0..MATRIX_ROWS {
        for column in 0..EVEN_COLUMNS {
            if in_centre_block(row, column, EVEN_COLUMNS) {
                members.push((row, column));
            }
        }
    }

    assert_eq!(members.len(), CENTRE_BLOCK_WIDTH * CENTRE_BLOCK_HEIGHT);

    // Two rows, one either side of the mirror axis.
    let rows: Vec<usize> = members.iter().map(|(r, _)| *r).collect();
    assert!(rows.iter().all(|r| *r == QUADRANT_ROWS - 1 || *r == QUADRANT_ROWS));
    assert!(rows.contains(&(QUADRANT_ROWS - 1)) && rows.contains(&QUADRANT_ROWS));
}

#[test]
fn the_centre_block_sits_in_the_middle_of_an_even_keyboard() {
    let (start, end) = centre_block_columns(EVEN_COLUMNS);

    // Its centre should land on the keyboard's centre.
    let block_centre = (start + end - 1) as f32 / 2.0;
    let keyboard_centre = (EVEN_COLUMNS - 1) as f32 / 2.0;
    assert!((block_centre - keyboard_centre).abs() < 1e-6);
}

#[test]
fn the_centre_block_fits_inside_a_narrow_keyboard() {
    // Never runs off the end, even if the board is smaller than the block.
    for columns in 1..=MATRIX_COLUMNS {
        let (_, end) = centre_block_columns(columns);
        assert!(end <= columns, "block overruns at width {columns}");
    }
}

#[test]
fn a_frame_is_counted_in_flight_only_when_it_sends_something() {
    let mut effect = AudioBloomEffect::new();
    effect.start();
    let mut frames = BloomFrames::new();
    let frame = vec![vec![ThemeColor::new(1, 2, 3); EVEN_COLUMNS]; MATRIX_ROWS];

    // The first frame is a full refresh and goes out.
    let sent = bloom_tick(&mut effect, &mut frames, frame.clone()).expect("the first frame is sent");
    assert!(sent.full_refresh);
    assert_eq!(sent.rows.len(), MATRIX_ROWS);
    assert_eq!(effect.frames_in_flight, 1);

    // An unchanged frame sends nothing and queues nothing, but is still taken.
    assert!(bloom_tick(&mut effect, &mut frames, frame.clone()).is_none());
    assert_eq!(effect.frames_in_flight, 1);
    assert_eq!(frames.frames, 2);

    let mut moved = frame.clone();
    moved[2][3] = ThemeColor::new(9, 9, 9);
    let sent = bloom_tick(&mut effect, &mut frames, moved.clone()).expect("a changed row is sent");
    assert_eq!(sent.rows.len(), 1);
    assert_eq!(effect.frames_in_flight, 2);

    // With the device's quota full the frame is dropped untouched.
    let mut again = moved.clone();
    again[0][0] = ThemeColor::new(7, 7, 7);
    assert!(bloom_tick(&mut effect, &mut frames, again).is_none());
    assert_eq!(effect.frames_in_flight, 2);
    assert_eq!(frames.frames, 3);
    assert_eq!(frames.previous, moved);
}
