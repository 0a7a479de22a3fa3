use blade_controlhub::output_delay::OutputDelay;

/// Pushes every sample, collecting what reaches the analyser.
fn feed(delay: &mut OutputDelay<f32>, samples: &[f32]) -> Vec<f32> {
    samples.iter().filter_map(|sample| delay.push(*sample)).collect()
}

#[test]
fn no_reported_latency_means_no_delay_at_all() {
    let mut delay = OutputDelay::new(0);

    let written = feed(&mut delay, &[0.1, 0.2, 0.3]);

    assert_eq!(written.len(), 3, "samples should pass straight through");
    assert_eq!(written, vec![0.1, 0.2, 0.3]);
}

#[test]
fn a_reported_latency_holds_the_first_samples_back() {
    let mut delay = OutputDelay::new(4);

    let written = feed(&mut delay, &[0.1, 0.2, 0.3, 0.4]);

    assert_eq!(written.len(), 0, "nothing should reach the analyser until the delay has filled");
}

#[test]
fn samples_emerge_in_order_once_the_delay_has_filled() {
    let mut delay = OutputDelay::new(4);

    let steps: Vec<f32> = (1..=7).map(|step| step as f32).collect();
    let written = feed(&mut delay, &steps);

    // Seven in, four held: the first three come out, oldest first.
    assert_eq!(written.len(), 3);
    assert_eq!(written, vec![1.0, 2.0, 3.0]);
    assert_eq!(delay.queue.iter().copied().collect::<Vec<_>>(), vec![4.0, 5.0, 6.0, 7.0]);
}
