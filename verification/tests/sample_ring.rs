use blade_controlhub::sample_ring::{SampleRing, MAX_WINDOW};

#[test]
fn a_window_ending_now_reads_the_newest_samples_oldest_first() {
    let mut ring = SampleRing::new(0.0f32);
    for step in 1..=5 {
        ring.push(step as f32);
    }

    assert_eq!(ring.written(), 5);
    let window: Vec<f32> = (0..3).map(|index| ring.get_ending(0, 3, index)).collect();
    assert_eq!(window, vec![3.0, 4.0, 5.0]);
}

#[test]
fn a_window_can_end_in_the_past() {
    let mut ring = SampleRing::new(0u32);
    for step in 1..=10u32 {
        ring.push(step);
    }

    let window: Vec<u32> = (0..4).map(|index| ring.get_ending(2, 4, index)).collect();
    assert_eq!(window, vec![5, 6, 7, 8]);
}

#[test]
fn before_anything_is_pushed_the_ring_reads_silence() {
    let ring = SampleRing::new(0u32);
    assert_eq!(ring.get_ending(0, MAX_WINDOW, 0), 0);
    assert_eq!(ring.get_ending(17, 8, 7), 0);
}

#[test]
fn the_ring_wraps_and_keeps_the_last_window() {
    let mut ring = SampleRing::new(0u32);
    for step in 0..(MAX_WINDOW as u32 + 10) {
        ring.push(step);
    }
    assert_eq!(ring.get_ending(0, MAX_WINDOW, 0), 10);
    assert_eq!(ring.get_ending(0, MAX_WINDOW, MAX_WINDOW - 1), MAX_WINDOW as u32 + 9);
}

#[test]
fn silence_is_capped_at_one_ring() {
    let mut ring = SampleRing::new(1u32);
    ring.push(7);
    ring.push_silence(3, 0);
    assert_eq!(ring.written(), 4);
    assert_eq!(ring.get_ending(3, 1, 0), 7);
    ring.push_silence(MAX_WINDOW * 2, 0);
    assert_eq!(ring.written(), 4 + MAX_WINDOW as u64);
}
