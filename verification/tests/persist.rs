use blade_controlhub::persist::{PersistAction, PersistDebouncer, PersistEvent};

fn message(text: &str) -> PersistEvent {
    PersistEvent::Message(text.to_string())
}

#[test]
fn the_first_write_arms_the_deadline_and_later_ones_do_not() {
    let mut writer = PersistDebouncer::new();

    assert!(matches!(writer.handle(message("a"), true), PersistAction::Wait { arm_deadline: true }));
    assert!(matches!(writer.handle(message("b"), true), PersistAction::Wait { arm_deadline: false }));
}

#[test]
fn a_flush_commits_only_the_latest_write() {
    let mut writer = PersistDebouncer::new();
    writer.handle(message("old"), true);
    writer.handle(message("new"), true);

    match writer.handle(PersistEvent::Timeout, true) {
        PersistAction::Commit(content) => assert_eq!(content, "new"),
        _ => panic!("the waiting content must be committed"),
    }
    assert!(matches!(writer.handle(PersistEvent::Timeout, true), PersistAction::Wait { arm_deadline: false }));
}

#[test]
fn content_already_on_disk_is_not_written_again() {
    let mut writer = PersistDebouncer::new();
    writer.handle(message("{\"screen_lvl\":50}"), true);
    assert!(matches!(writer.handle(PersistEvent::Timeout, true), PersistAction::Commit(_)));

    writer.handle(message("{\"screen_lvl\":50}"), true);
    assert!(matches!(writer.handle(PersistEvent::Timeout, true), PersistAction::Wait { arm_deadline: false }));
}

#[test]
fn drop_flushes_latest_pending_content_only() {
    let mut writer = PersistDebouncer::new();
    writer.handle(message("old"), true);
    writer.handle(message("new"), true);

    match writer.handle(PersistEvent::Disconnected, true) {
        PersistAction::Stop(Some(content)) => assert_eq!(content, "new"),
        _ => panic!("the latest content must be flushed on shutdown"),
    }
}

#[test]
fn shutting_down_with_nothing_waiting_writes_nothing() {
    let mut writer = PersistDebouncer::new();
    assert!(matches!(writer.handle(PersistEvent::Disconnected, true), PersistAction::Stop(None)));
}

#[test]
fn a_disabled_writer_ignores_everything() {
    let mut writer = PersistDebouncer::new();
    assert!(matches!(writer.handle(message("a"), false), PersistAction::Wait { arm_deadline: false }));
    assert!(writer.pending.is_none());
    assert!(matches!(writer.handle(PersistEvent::Timeout, false), PersistAction::Wait { arm_deadline: false }));
}
