use playback_control::controller::{
    Event, EventAction, Session, Status, TimeoutAction, SEEK_TARGET_NS, SEEK_TRIGGER_NS,
};

fn playing_session() -> Session {
    let mut s = Session::new();
    let action = s.handle_event(Event::StatusChanged {
        from_pipeline: true,
        old_status: Status::Paused,
        new_status: Status::Playing,
    });
    assert_eq!(action, EventAction::QuerySeekable);
    s
}

#[test]
fn initial_state_is_all_clear() {
    let s = Session::new();
    assert!(!s.is_playing);
    assert!(!s.terminate);
    assert!(!s.seek_enabled);
    assert!(!s.seek_done);
    assert_eq!(s.duration, None);
    assert!(s.should_continue());
}

#[test]
fn pipeline_entering_playback_queries_seek_capability() {
    let mut s = Session::new();
    let action = s.handle_event(Event::StatusChanged {
        from_pipeline: true,
        old_status: Status::Paused,
        new_status: Status::Playing,
    });
    assert!(s.is_playing);
    assert_eq!(action, EventAction::QuerySeekable);
    s.apply_seek_capability(Some(true));
    assert!(s.seek_enabled);
}

#[test]
fn pipeline_leaving_playback_clears_is_playing() {
    let mut s = playing_session();
    let action = s.handle_event(Event::StatusChanged {
        from_pipeline: true,
        old_status: Status::Playing,
        new_status: Status::Paused,
    });
    assert!(!s.is_playing);
    assert_eq!(action, EventAction::Nothing);
}

#[test]
fn foreign_status_changes_are_ignored() {
    let mut s = playing_session();
    s.apply_seek_capability(Some(true));
    let action = s.handle_event(Event::StatusChanged {
        from_pipeline: false,
        old_status: Status::Playing,
        new_status: Status::Stopped,
    });
    assert_eq!(action, EventAction::Nothing);
    assert!(s.is_playing);
    assert!(s.seek_enabled);
    assert!(!s.terminate);
    assert!(!s.seek_done);
    assert_eq!(s.duration, None);
}

#[test]
fn failed_capability_query_leaves_capability_unchanged() {
    let mut s = playing_session();
    s.apply_seek_capability(None);
    assert!(!s.seek_enabled);
    s.apply_seek_capability(Some(true));
    s.apply_seek_capability(None);
    assert!(s.seek_enabled);
}

#[test]
fn capability_result_is_ignored_while_not_playing() {
    let mut s = Session::new();
    s.apply_seek_capability(Some(true));
    assert!(!s.seek_enabled);
}

#[test]
fn timeout_past_trigger_issues_single_seek() {
    let mut s = playing_session();
    s.apply_seek_capability(Some(true));
    let action = s.handle_timeout(Some(11_000_000_000), None);
    assert_eq!(
        action,
        TimeoutAction::ReportAndSeek {
            position: 11_000_000_000,
            duration: None,
            target: SEEK_TARGET_NS,
        }
    );
    assert!(s.seek_done);
}

#[test]
fn timeout_before_trigger_does_not_seek() {
    let mut s = playing_session();
    s.apply_seek_capability(Some(true));
    let action = s.handle_timeout(Some(9_000_000_000), None);
    assert_eq!(
        action,
        TimeoutAction::Report { position: 9_000_000_000, duration: None }
    );
    assert!(!s.seek_done);
}

#[test]
fn timeout_exactly_at_trigger_does_not_seek() {
    let mut s = playing_session();
    s.apply_seek_capability(Some(true));
    let action = s.handle_timeout(Some(SEEK_TRIGGER_NS), None);
    assert_eq!(
        action,
        TimeoutAction::Report { position: SEEK_TRIGGER_NS, duration: None }
    );
    assert!(!s.seek_done);
}

#[test]
fn seek_fires_at_most_once() {
    let mut s = playing_session();
    s.apply_seek_capability(Some(true));
    let first = s.handle_timeout(Some(11_000_000_000), None);
    assert!(matches!(first, TimeoutAction::ReportAndSeek { .. }));
    let second = s.handle_timeout(Some(35_000_000_000), None);
    assert_eq!(
        second,
        TimeoutAction::Report { position: 35_000_000_000, duration: None }
    );
    assert!(s.seek_done);
}

#[test]
fn seek_needs_capability() {
    let mut s = playing_session();
    s.apply_seek_capability(Some(false));
    let action = s.handle_timeout(Some(11_000_000_000), None);
    assert_eq!(
        action,
        TimeoutAction::Report { position: 11_000_000_000, duration: None }
    );
    assert!(!s.seek_done);
}

#[test]
fn timeout_while_not_playing_is_idle() {
    let mut s = Session::new();
    assert!(!s.needs_position_query());
    let action = s.handle_timeout(Some(11_000_000_000), Some(1));
    assert_eq!(action, TimeoutAction::Idle);
    assert!(!s.seek_done);
    assert_eq!(s.duration, None);
}

#[test]
fn failed_position_query_skips_the_cycle() {
    let mut s = playing_session();
    s.apply_seek_capability(Some(true));
    let action = s.handle_timeout(None, Some(50_000_000_000));
    assert_eq!(action, TimeoutAction::Idle);
    assert!(!s.seek_done);
    assert_eq!(s.duration, Some(50_000_000_000));
}

#[test]
fn duration_is_refined_lazily_and_kept() {
    let mut s = playing_session();
    assert!(s.needs_duration_query());
    let action = s.handle_timeout(Some(1_000_000_000), Some(60_000_000_000));
    assert_eq!(
        action,
        TimeoutAction::Report { position: 1_000_000_000, duration: Some(60_000_000_000) }
    );
    assert_eq!(s.duration, Some(60_000_000_000));
    assert!(!s.needs_duration_query());
    let action = s.handle_timeout(Some(2_000_000_000), None);
    assert_eq!(
        action,
        TimeoutAction::Report { position: 2_000_000_000, duration: Some(60_000_000_000) }
    );
    assert_eq!(s.duration, Some(60_000_000_000));
}

#[test]
fn duration_changed_event_asks_for_a_requery() {
    let mut s = playing_session();
    let action = s.handle_event(Event::DurationChanged);
    assert_eq!(action, EventAction::QueryDuration);
    s.apply_duration(Some(70_000_000_000));
    assert_eq!(s.duration, Some(70_000_000_000));
    s.apply_duration(None);
    assert_eq!(s.duration, Some(70_000_000_000));
    s.apply_duration(Some(71_000_000_000));
    assert_eq!(s.duration, Some(71_000_000_000));
}

#[test]
fn error_event_terminates_the_session() {
    let mut s = playing_session();
    let action = s.handle_event(Event::Error);
    assert_eq!(action, EventAction::Nothing);
    assert!(s.terminate);
    assert!(!s.should_continue());
}

#[test]
fn end_of_stream_terminates_the_session() {
    let mut s = playing_session();
    s.handle_event(Event::EndOfStream);
    assert!(s.terminate);
    assert!(!s.should_continue());
}

#[test]
fn terminated_session_never_changes_again() {
    let mut s = playing_session();
    s.apply_seek_capability(Some(true));
    s.apply_duration(Some(60_000_000_000));
    s.handle_event(Event::Error);

    let action = s.handle_event(Event::StatusChanged {
        from_pipeline: true,
        old_status: Status::Paused,
        new_status: Status::Playing,
    });
    assert_eq!(action, EventAction::Nothing);
    let action = s.handle_event(Event::DurationChanged);
    assert_eq!(action, EventAction::Nothing);
    let action = s.handle_timeout(Some(11_000_000_000), Some(1));
    assert_eq!(action, TimeoutAction::Idle);
    s.apply_seek_capability(Some(false));
    s.apply_duration(Some(1));

    assert!(s.terminate);
    assert!(s.is_playing);
    assert!(s.seek_enabled);
    assert!(!s.seek_done);
    assert_eq!(s.duration, Some(60_000_000_000));
}

#[test]
fn cancel_stops_the_loop_and_nothing_else() {
    let mut s = playing_session();
    s.apply_seek_capability(Some(true));
    s.cancel();
    assert!(s.terminate);
    assert!(!s.should_continue());
    assert!(s.is_playing);
    assert!(s.seek_enabled);
    let action = s.handle_timeout(Some(11_000_000_000), None);
    assert_eq!(action, TimeoutAction::Idle);
    assert!(!s.seek_done);
}

#[test]
fn ignored_events_change_nothing() {
    let mut s = playing_session();
    let action = s.handle_event(Event::Ignored);
    assert_eq!(action, EventAction::Nothing);
    assert!(s.is_playing);
    assert!(!s.terminate);
}
