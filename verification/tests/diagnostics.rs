use cac::native::{
    DEBUG_SEVERITY_HIGH, DEBUG_SEVERITY_LOW, DEBUG_SEVERITY_MEDIUM, DEBUG_SEVERITY_NOTIFICATION,
    DEBUG_SOURCE_API, DEBUG_SOURCE_APPLICATION, DEBUG_SOURCE_OTHER, DEBUG_SOURCE_SHADER_COMPILER,
    DEBUG_SOURCE_THIRD_PARTY, DEBUG_SOURCE_WINDOW_SYSTEM, DEBUG_TYPE_DEPRECATED_BEHAVIOR,
    DEBUG_TYPE_ERROR, DEBUG_TYPE_PERFORMANCE, DEBUG_TYPE_PORTABILITY,
    DEBUG_TYPE_UNDEFINED_BEHAVIOR,
};
use cac::opengl::diagnostics::{
    format_message, is_actionable, kind_name, level, source_name, to_decimal,
    unreadable_message, Diagnostics, Level, LOG_CAPACITY,
};

const DEBUG_TYPE_OTHER: u32 = 0x8251;

#[test]
fn a_full_log_drops_messages_and_warns_once() {
    let capacity = 4;
    let mut log = Diagnostics::with_capacity(capacity);
    let mut warnings = 0;
    for id in 0..capacity as u32 + 5 {
        let record = log.record(
            DEBUG_SOURCE_API,
            DEBUG_TYPE_ERROR,
            id,
            DEBUG_SEVERITY_HIGH,
            "broken",
        );
        assert_eq!(record.message, format!("{id}: ERROR from API: broken"));
        assert_eq!(record.level, Level::Error);
        if record.discarded {
            warnings += 1;
        }
    }
    assert_eq!(warnings, 1);

    let polled = log.poll().unwrap();
    assert_eq!(polled.len(), capacity);
    for (id, message) in polled.iter().enumerate() {
        assert_eq!(message, &format!("{id}: ERROR from API: broken"));
    }
    assert_eq!(log.poll(), None);
}

#[test]
fn the_warning_comes_again_after_the_log_was_drained() {
    let mut log = Diagnostics::with_capacity(1);
    let first = log.record(DEBUG_SOURCE_API, DEBUG_TYPE_ERROR, 1, DEBUG_SEVERITY_HIGH, "a");
    let second = log.record(DEBUG_SOURCE_API, DEBUG_TYPE_ERROR, 2, DEBUG_SEVERITY_HIGH, "b");
    let third = log.record(DEBUG_SOURCE_API, DEBUG_TYPE_ERROR, 3, DEBUG_SEVERITY_HIGH, "c");
    assert!(!first.discarded);
    assert!(second.discarded);
    assert!(!third.discarded);
    assert_eq!(log.poll(), Some(vec!["1: ERROR from API: a".to_owned()]));

    let fourth = log.record(DEBUG_SOURCE_API, DEBUG_TYPE_ERROR, 4, DEBUG_SEVERITY_HIGH, "d");
    let fifth = log.record(DEBUG_SOURCE_API, DEBUG_TYPE_ERROR, 5, DEBUG_SEVERITY_HIGH, "e");
    assert!(!fourth.discarded);
    assert!(fifth.discarded);
    log.clear();
    assert_eq!(log.poll(), None);
}

#[test]
fn only_messages_that_ask_for_action_are_kept() {
    let mut log = Diagnostics::with_capacity(LOG_CAPACITY);
    let record = log.record(
        DEBUG_SOURCE_OTHER,
        DEBUG_TYPE_OTHER,
        9,
        DEBUG_SEVERITY_NOTIFICATION,
        "just saying",
    );
    assert_eq!(record.message, "9: UNKNOWN from OTHER: just saying");
    assert_eq!(record.level, Level::Trace);
    assert!(!record.discarded);
    assert_eq!(log.poll(), None);

    for kind in [
        DEBUG_TYPE_ERROR,
        DEBUG_TYPE_UNDEFINED_BEHAVIOR,
        DEBUG_TYPE_DEPRECATED_BEHAVIOR,
        DEBUG_TYPE_PORTABILITY,
        DEBUG_TYPE_PERFORMANCE,
    ] {
        assert!(is_actionable(kind));
        log.record(DEBUG_SOURCE_API, kind, 1, DEBUG_SEVERITY_LOW, "x");
    }
    assert!(!is_actionable(DEBUG_TYPE_OTHER));
    assert!(!is_actionable(0));
    assert_eq!(
        log.poll(),
        Some(vec![
            "1: ERROR from API: x".to_owned(),
            "1: UNDEFINED BEHAVIOUR from API: x".to_owned(),
            "1: DEPRECATED from API: x".to_owned(),
            "1: PORTABILITY from API: x".to_owned(),
            "1: PERFORMANCE from API: x".to_owned(),
        ])
    );
}

#[test]
fn a_full_log_does_not_warn_for_messages_it_would_not_keep() {
    let mut log = Diagnostics::with_capacity(0);
    let record = log.record(DEBUG_SOURCE_API, DEBUG_TYPE_OTHER, 1, DEBUG_SEVERITY_LOW, "x");
    assert!(!record.discarded);
    let record = log.record(DEBUG_SOURCE_API, DEBUG_TYPE_ERROR, 1, DEBUG_SEVERITY_LOW, "x");
    assert!(record.discarded);
}

#[test]
fn severities_map_to_levels() {
    assert_eq!(level(DEBUG_SEVERITY_HIGH), Level::Error);
    assert_eq!(level(DEBUG_SEVERITY_MEDIUM), Level::Warn);
    assert_eq!(level(DEBUG_SEVERITY_LOW), Level::Info);
    assert_eq!(level(DEBUG_SEVERITY_NOTIFICATION), Level::Trace);
    assert_eq!(level(0), Level::Trace);
    assert_eq!(level(u32::MAX), Level::Trace);
}

#[test]
fn sources_and_kinds_have_names() {
    assert_eq!(source_name(DEBUG_SOURCE_API), "API");
    assert_eq!(source_name(DEBUG_SOURCE_SHADER_COMPILER), "SHADER COMPILER");
    assert_eq!(source_name(DEBUG_SOURCE_WINDOW_SYSTEM), "WINDOW SYSTEM");
    assert_eq!(source_name(DEBUG_SOURCE_OTHER), "OTHER");
    assert_eq!(source_name(DEBUG_SOURCE_APPLICATION), "APPLICATION");
    assert_eq!(source_name(DEBUG_SOURCE_THIRD_PARTY), "THIRD PARTY");
    assert_eq!(source_name(1), "UNKNOWN");
    assert_eq!(kind_name(DEBUG_TYPE_ERROR), "ERROR");
    assert_eq!(kind_name(DEBUG_TYPE_DEPRECATED_BEHAVIOR), "DEPRECATED");
    assert_eq!(kind_name(DEBUG_TYPE_UNDEFINED_BEHAVIOR), "UNDEFINED BEHAVIOUR");
    assert_eq!(kind_name(DEBUG_TYPE_PORTABILITY), "PORTABILITY");
    assert_eq!(kind_name(DEBUG_TYPE_PERFORMANCE), "PERFORMANCE");
    assert_eq!(kind_name(DEBUG_TYPE_OTHER), "UNKNOWN");
}

#[test]
fn numbers_are_written_in_decimal() {
    assert_eq!(to_decimal(0), "0");
    assert_eq!(to_decimal(7), "7");
    assert_eq!(to_decimal(10), "10");
    assert_eq!(to_decimal(1280), "1280");
    assert_eq!(to_decimal(u32::MAX), "4294967295");
    for value in [1u32, 9, 99, 100, 131_185, 4_000_000_000] {
        assert_eq!(to_decimal(value), value.to_string());
    }
}

#[test]
fn messages_are_formatted_with_id_kind_and_source() {
    assert_eq!(
        format_message(
            DEBUG_SOURCE_SHADER_COMPILER,
            DEBUG_TYPE_PERFORMANCE,
            131_218,
            "recompiled"
        ),
        "131218: PERFORMANCE from SHADER COMPILER: recompiled"
    );
    assert_eq!(unreadable_message(), "[FAILED TO READ GL ERROR MESSAGE]");
}
