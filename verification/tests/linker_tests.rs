use playback_control::linker::{category_of, LinkDecision, LinkRegistry, MediaCategory};

#[test]
fn category_parsing_recognizes_raw_audio_and_video() {
    assert_eq!(category_of(b"audio/x-raw"), MediaCategory::Audio);
    assert_eq!(category_of(b"video/x-raw"), MediaCategory::Video);
}

#[test]
fn category_parsing_matches_by_prefix() {
    assert_eq!(category_of(b"audio/x-raw, rate=44100"), MediaCategory::Audio);
    assert_eq!(category_of(b"video/x-raw, format=I420"), MediaCategory::Video);
}

#[test]
fn unrecognized_content_types_are_unsupported() {
    assert_eq!(category_of(b"text/x-raw"), MediaCategory::Unsupported);
    assert_eq!(category_of(b"audio/mpeg"), MediaCategory::Unsupported);
    assert_eq!(category_of(b"audio"), MediaCategory::Unsupported);
    assert_eq!(category_of(b""), MediaCategory::Unsupported);
}

#[test]
fn fresh_registry_attempts_known_categories() {
    let reg = LinkRegistry::new();
    assert!(!reg.audio_linked);
    assert!(!reg.video_linked);
    assert_eq!(reg.decide_link(MediaCategory::Audio), LinkDecision::Attempt);
    assert_eq!(reg.decide_link(MediaCategory::Video), LinkDecision::Attempt);
}

#[test]
fn successful_video_link_marks_only_video() {
    let mut reg = LinkRegistry::new();
    assert_eq!(reg.decide_link(MediaCategory::Video), LinkDecision::Attempt);
    reg.record_link_result(MediaCategory::Video, true);
    assert!(reg.video_linked);
    assert!(!reg.audio_linked);
}

#[test]
fn duplicate_notification_is_ignored() {
    let mut reg = LinkRegistry::new();
    reg.record_link_result(MediaCategory::Audio, true);
    let before = reg;
    assert_eq!(reg.decide_link(MediaCategory::Audio), LinkDecision::AlreadyLinked);
    assert_eq!(reg, before);
    assert_eq!(reg.decide_link(MediaCategory::Video), LinkDecision::Attempt);
}

#[test]
fn unsupported_category_never_mutates_the_registry() {
    let mut reg = LinkRegistry::new();
    assert_eq!(
        reg.decide_link(MediaCategory::Unsupported),
        LinkDecision::NotSupported
    );
    reg.record_link_result(MediaCategory::Unsupported, true);
    reg.record_link_result(MediaCategory::Unsupported, false);
    assert_eq!(reg, LinkRegistry::new());
}

#[test]
fn failed_link_leaves_the_category_open() {
    let mut reg = LinkRegistry::new();
    reg.record_link_result(MediaCategory::Audio, false);
    assert!(!reg.audio_linked);
    assert_eq!(reg.decide_link(MediaCategory::Audio), LinkDecision::Attempt);
    reg.record_link_result(MediaCategory::Audio, true);
    assert_eq!(reg.decide_link(MediaCategory::Audio), LinkDecision::AlreadyLinked);
}
