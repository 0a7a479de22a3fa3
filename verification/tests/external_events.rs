use blade_controlhub::external_events::{ExternalChangeMonitor, MonitorRunning};

#[test]
fn external_events_stop_clears_external_monitor_running_flag() {
    let mut flag = MonitorRunning { running: true };

    ExternalChangeMonitor::stop(&mut flag);

    assert!(!flag.running);
}

#[test]
fn backend_stop_clears_external_monitor_running_flag() {
    let mut flag = MonitorRunning { running: true };

    ExternalChangeMonitor::stop(&mut flag);

    assert!(!flag.running);
}

#[test]
fn external_events_monitor_initializes_state_from_backend() {
    let monitor = ExternalChangeMonitor::new(1, 1, true, false, 42);

    assert!(monitor.mic_muted);
    assert_eq!(monitor.screen_brightness, 42);
}

#[test]
fn backend_monitor_initializes_state_from_backend() {
    let monitor = ExternalChangeMonitor::new(1, 1, true, false, 42);

    assert!(monitor.mic_muted);
    assert_eq!(monitor.screen_brightness, 42);
}

#[test]
fn external_events_poll_once_dispatches_changed_backend_state() {
    let mut monitor = ExternalChangeMonitor::new(10, 10, false, false, 0);

    let step = monitor.poll_once(0, true, true, 0);

    assert_eq!(step.interval_ms, 0);
    assert_eq!(step.mic_indicator, Some(true));
    assert_eq!(step.speakers_indicator, Some(true));
    assert!(step.query_brightness);
    assert_eq!(monitor.brightness_observed(80), Some(80));
    assert_eq!(monitor.brightness_observed(80), None);
}

#[test]
fn backend_poll_once_dispatches_changed_backend_state() {
    let mut monitor = ExternalChangeMonitor::new(10, 10, false, false, 0);

    let step = monitor.poll_once(0, true, true, 0);

    assert_eq!(step.interval_ms, 0);
    assert_eq!(step.mic_indicator, Some(true));
    assert_eq!(step.speakers_indicator, Some(true));
    assert!(step.query_brightness);
    assert_eq!(monitor.brightness_observed(80), Some(80));
    assert_eq!(monitor.brightness_observed(80), None);
}

#[test]
fn brightness_waits_for_the_slow_interval_and_for_the_apps_own_writes() {
    let mut monitor = ExternalChangeMonitor::new(100, 1000, false, false, 50);

    let step = monitor.poll_once(0, false, false, 0);
    assert!(!step.query_brightness);
    assert_eq!(step.interval_ms, 100);
    assert_eq!(step.mic_indicator, None);

    let step = monitor.poll_once(900, false, false, 1);
    assert!(!step.query_brightness, "never while the app is writing a brightness");
    assert_eq!(step.interval_ms, 1000);

    let step = monitor.poll_once(1000, false, false, 0);
    assert!(step.query_brightness);
    assert_eq!(step.interval_ms, 0);
}

#[test]
fn a_second_start_is_refused() {
    let mut flag = MonitorRunning::default();
    assert!(ExternalChangeMonitor::start(&mut flag));
    assert!(!ExternalChangeMonitor::start(&mut flag));
    assert!(flag.running);
}
