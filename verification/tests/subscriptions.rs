use zero2prod::domain::{NewSubscriber, ValidationError};
use zero2prod::routes::{conclude, validate_form, FormData, Outcome, SubscriptionRecord, Timestamp};

fn form(name: &str, email: &str) -> FormData {
    FormData {
        email: email.to_string(),
        name: name.to_string(),
    }
}

fn le_guin() -> NewSubscriber {
    NewSubscriber::try_from(form("le guin", "ursula_le_guin@gmail.com")).unwrap()
}

#[test]
fn a_valid_form_converts_and_keeps_both_fields() {
    let subscriber = le_guin();
    assert_eq!(subscriber.name.as_ref(), "le guin");
    assert_eq!(subscriber.email.as_ref(), "ursula_le_guin@gmail.com");
}

#[test]
fn try_into_converts_as_try_from_does() {
    let subscriber: NewSubscriber = form("le guin", "ursula_le_guin@gmail.com")
        .try_into()
        .unwrap();
    assert_eq!(subscriber.name.as_ref(), "le guin");
    assert_eq!(subscriber.email.as_ref(), "ursula_le_guin@gmail.com");
}

#[test]
fn an_invalid_name_fails_the_conversion() {
    let error = NewSubscriber::try_from(form("le/guin", "ursula_le_guin@gmail.com")).unwrap_err();
    assert_eq!(error, ValidationError::InvalidName);
}

#[test]
fn an_invalid_email_fails_the_conversion() {
    let error = NewSubscriber::try_from(form("le guin", "ursula_le_guin.gmail.com")).unwrap_err();
    assert_eq!(error, ValidationError::InvalidEmail);
}

#[test]
fn the_name_is_judged_first_when_both_fields_are_invalid() {
    let error = NewSubscriber::try_from(form("", "")).unwrap_err();
    assert_eq!(error, ValidationError::InvalidName);
}

#[test]
fn a_valid_form_is_passed_on_for_storing() {
    let subscriber = validate_form(form("le guin", "ursula_le_guin@gmail.com")).unwrap();
    assert_eq!(subscriber.name.as_ref(), "le guin");
    assert_eq!(subscriber.email.as_ref(), "ursula_le_guin@gmail.com");
}

#[test]
fn subscribe_returns_a_400_when_the_name_is_empty() {
    let outcome = validate_form(form("", "ursula_le_guin@gmail.com")).unwrap_err();
    assert_eq!(outcome, Outcome::Rejected);
    assert_eq!(outcome.status_code(), 400);
}

#[test]
fn subscribe_returns_a_400_when_a_field_is_invalid() {
    for (name, email) in [
        ("le guin", ""),
        ("le guin", "definitely-not-an-email"),
        ("   ", "ursula_le_guin@gmail.com"),
        ("le{guin}", "ursula_le_guin@gmail.com"),
        ("", ""),
    ] {
        let outcome = validate_form(form(name, email)).unwrap_err();
        assert_eq!(outcome.status_code(), 400, "{:?} {:?}", name, email);
    }
}

#[test]
fn a_storage_failure_ends_as_a_500() {
    let stored: Result<(), String> = Err("connection refused".to_string());
    let outcome = conclude(&stored);
    assert_eq!(outcome, Outcome::Failed);
    assert_eq!(outcome.status_code(), 500);
}

#[test]
fn a_stored_subscriber_ends_as_a_200() {
    let stored: Result<(), String> = Ok(());
    let outcome = conclude(&stored);
    assert_eq!(outcome, Outcome::Accepted);
    assert_eq!(outcome.status_code(), 200);
}

#[test]
fn a_record_copies_the_subscriber_and_takes_the_id_and_time_given() {
    let at = Timestamp {
        secs: 1_431_648_000,
        nanos: 500,
    };
    let record = SubscriptionRecord::new(&le_guin(), 0x1234_5678_9abc_4def_8123_4567_89ab_cdef, at);
    assert_eq!(record.id, 0x1234_5678_9abc_4def_8123_4567_89ab_cdef);
    assert_eq!(record.email, "ursula_le_guin@gmail.com");
    assert_eq!(record.name, "le guin");
    assert_eq!(record.subscribed_at, at);
}

#[test]
fn an_issued_record_has_a_random_uuid_and_a_clock_reading() {
    let record = SubscriptionRecord::issue(&le_guin());
    assert_eq!((record.id >> 76) & 0xf, 4);
    assert_eq!((record.id >> 62) & 0x3, 2);
    assert_eq!(uuid::Uuid::from_u128(record.id).get_version_num(), 4);
    assert_eq!(record.email, "ursula_le_guin@gmail.com");
    assert_eq!(record.name, "le guin");
    assert!(record.subscribed_at.secs >= 1_600_000_000);
    assert!(record.subscribed_at.nanos < 1_000_000_000);
    let back = chrono::DateTime::from_timestamp(
        record.subscribed_at.secs,
        record.subscribed_at.nanos,
    );
    assert!(back.is_some());
}

#[test]
fn issuing_twice_gives_two_records_with_distinct_ids() {
    let subscriber = le_guin();
    let first = SubscriptionRecord::issue(&subscriber);
    let second = SubscriptionRecord::issue(&subscriber);
    assert_ne!(first.id, second.id);
    assert_eq!(first.email, second.email);
    assert_eq!(first.name, second.name);
    assert!(
        (first.subscribed_at.secs, first.subscribed_at.nanos)
            <= (second.subscribed_at.secs, second.subscribed_at.nanos)
    );
}
