use cell_spinner::structs::{decimal, DurationHelper, Durations, Message, MessageKind, WindowsState};

#[test]
fn duration_splits_into_parts() {
    let d = DurationHelper::new_from_milliseconds(93_784_005);
    assert_eq!(
        d,
        DurationHelper { days: 1, hours: 2, minutes: 3, seconds: 4, milliseconds: 5 }
    );
    assert_eq!(d.to_milliseconds(), 93_784_005);
}

#[test]
fn duration_of_zero_and_of_one_year() {
    assert_eq!(DurationHelper::new_from_milliseconds(0), DurationHelper::default());
    let year = DurationHelper::new_from_milliseconds(31_536_000_000);
    assert_eq!(
        year,
        DurationHelper { days: 365, hours: 0, minutes: 0, seconds: 0, milliseconds: 0 }
    );
    assert_eq!(year.to_milliseconds(), 31_536_000_000);
}

#[test]
fn duration_round_trip_on_many_values() {
    let values = [
        1u64,
        999,
        1_000,
        59_999,
        60_000,
        3_599_999,
        3_600_000,
        86_399_999,
        86_400_000,
        123_456_789_012,
        u64::MAX,
    ];
    for ms in values.iter() {
        let d = DurationHelper::new_from_milliseconds(*ms);
        assert!(d.hours < 24 && d.minutes < 60 && d.seconds < 60 && d.milliseconds < 1000);
        assert_eq!(d.to_milliseconds(), *ms);
    }
}

#[test]
fn duration_is_replaced_in_place() {
    let mut d = DurationHelper { days: 9, hours: 9, minutes: 9, seconds: 9, milliseconds: 9 };
    d.self_from_milliseconds(61_001);
    assert_eq!(
        d,
        DurationHelper { days: 0, hours: 0, minutes: 1, seconds: 1, milliseconds: 1 }
    );
}

#[test]
fn duration_total_accepts_parts_that_are_not_reduced() {
    let d = DurationHelper { days: 0, hours: 25, minutes: 61, seconds: 61, milliseconds: 1_001 };
    assert_eq!(d.to_milliseconds(), 25 * 3_600_000 + 61 * 60_000 + 61 * 1_000 + 1_001);
}

#[test]
fn duration_total_is_held_at_the_top() {
    let d = DurationHelper { days: u64::MAX, hours: 0, minutes: 0, seconds: 0, milliseconds: 0 };
    assert_eq!(d.to_milliseconds(), u64::MAX);
    let d = DurationHelper { days: 0, hours: 0, minutes: 0, seconds: 0, milliseconds: u64::MAX };
    assert_eq!(d.to_milliseconds(), u64::MAX);
    let d = DurationHelper { days: 0, hours: 0, minutes: 0, seconds: 1, milliseconds: u64::MAX };
    assert_eq!(d.to_milliseconds(), u64::MAX);
}

#[test]
fn duration_label() {
    let d = DurationHelper { days: 1, hours: 2, minutes: 3, seconds: 4, milliseconds: 5 };
    assert_eq!(d.label(), "1d 2h 3min 4s 5ms");
    assert_eq!(DurationHelper::default().label(), "0d 0h 0min 0s 0ms");
    let d = DurationHelper::new_from_milliseconds(31_535_999_999);
    assert_eq!(d.label(), "364d 23h 59min 59s 999ms");
}

#[test]
fn decimal_digits() {
    assert_eq!(decimal(0), "0");
    assert_eq!(decimal(7), "7");
    assert_eq!(decimal(10), "10");
    assert_eq!(decimal(1_234_567_890), "1234567890");
    assert_eq!(decimal(u64::MAX), "18446744073709551615");
}

#[test]
fn defaults_of_the_editing_state() {
    let durations = Durations::default();
    assert_eq!(durations.global_duration, DurationHelper::default());
    assert_eq!(durations.pause_pre_agitation.to_milliseconds(), 0);
    let windows = WindowsState::default();
    assert!(!windows.is_confirmation_dialog_open);
    assert!(!windows.is_error_log_open);
}

#[test]
fn message_keeps_its_parts() {
    let m = Message::new(
        MessageKind::Warning,
        "Emergency stop",
        None,
        Some("Motor 1".to_string()),
        5,
        false,
    );
    assert_eq!(m.kind, MessageKind::Warning);
    assert_eq!(m.message, "Emergency stop");
    assert_eq!(m.error, None);
    assert_eq!(m.origin.as_deref(), Some("Motor 1"));
    assert_eq!(m.duration, 5);
    assert!(!m.is_waiting);
}

#[test]
fn message_line() {
    let plain = Message::new(MessageKind::Info, "Configuration imported!", None, None, 3, false);
    assert_eq!(plain.line(), "Configuration imported!");
    let named = Message::new(
        MessageKind::Success,
        "Idle",
        None,
        Some("Motor 2".to_string()),
        5,
        false,
    );
    assert_eq!(named.line(), "Motor 2: Idle");
    let failed = Message::new(
        MessageKind::Error,
        "Over heat",
        Some("Motor stopped !".to_string()),
        Some("Motor 2".to_string()),
        5,
        false,
    );
    assert_eq!(failed.line(), "Motor 2: Over heat - Motor stopped !");
    let failed = Message::new(
        MessageKind::Error,
        "Error while listing serial ports",
        Some("denied".to_string()),
        None,
        3,
        false,
    );
    assert_eq!(failed.line(), "Error while listing serial ports - denied");
    // a cause on a message that is no error is not shown
    let odd = Message::new(MessageKind::Warning, "Careful", Some("why".to_string()), None, 3, false);
    assert_eq!(odd.line(), "Careful");
}
