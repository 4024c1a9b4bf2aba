use zero2prod::domain::subscriber_email::{find_char, is_plain_chars, is_valid_domain_from};
use zero2prod::domain::text::chars_of;
use zero2prod::domain::{SubscriberEmail, ValidationError};

fn refused(raw: &str) -> bool {
    match SubscriberEmail::parse(raw.to_string()) {
        Ok(_) => false,
        Err(e) => {
            assert_eq!(e, ValidationError::InvalidEmail);
            true
        }
    }
}

#[test]
fn a_valid_email_is_accepted_and_kept() {
    let email = SubscriberEmail::parse("ursula_le_guin@gmail.com".to_string()).unwrap();
    assert_eq!(email.as_ref(), "ursula_le_guin@gmail.com");
    assert_eq!(email.as_str(), "ursula_le_guin@gmail.com");
}

#[test]
fn case_is_not_changed() {
    let email = SubscriberEmail::parse("Ursula.LeGuin@Example.COM".to_string()).unwrap();
    assert_eq!(email.as_ref(), "Ursula.LeGuin@Example.COM");
}

#[test]
fn an_empty_email_is_refused() {
    assert!(refused(""));
}

#[test]
fn an_email_without_at_is_refused() {
    assert!(refused("ursuladomain.com"));
    assert!(refused("ursula.le.guin"));
}

#[test]
fn an_email_without_local_part_is_refused() {
    assert!(refused("@domain.com"));
}

#[test]
fn an_email_without_domain_is_refused() {
    assert!(refused("ursula@"));
    assert!(refused("@"));
}

#[test]
fn an_email_with_a_dotless_domain_is_refused() {
    assert!(refused("ursula@localhost"));
    assert!(refused("ur.su.la@domain"));
}

#[test]
fn an_email_with_two_ats_is_refused() {
    assert!(refused("ursula@le@guin.com"));
    assert!(refused("ursula@@guin.com"));
    assert!(refused("ursula@guin.com@"));
}

#[test]
fn an_email_with_an_empty_label_is_refused() {
    assert!(refused("ursula@.com"));
    assert!(refused("ursula@gmail."));
    assert!(refused("ursula@gmail..com"));
    assert!(refused("ursula@."));
}

#[test]
fn an_email_with_whitespace_or_control_characters_is_refused() {
    assert!(refused(" ursula@gmail.com"));
    assert!(refused("ursula@gmail.com "));
    assert!(refused("ursula le guin@gmail.com"));
    assert!(refused("ursula@gm\tail.com"));
    assert!(refused("ursula@gmail.com\n"));
    assert!(refused("ursula\u{0}@gmail.com"));
    assert!(refused("ursula\u{7f}@gmail.com"));
    assert!(refused("ursula\u{a0}@gmail.com"));
}

#[test]
fn several_labels_are_accepted() {
    let email = SubscriberEmail::parse("u@mail.example.co.uk".to_string()).unwrap();
    assert_eq!(email.as_ref(), "u@mail.example.co.uk");
    let email = SubscriberEmail::parse("a.b.c@d.e".to_string()).unwrap();
    assert_eq!(email.as_ref(), "a.b.c@d.e");
}

#[test]
fn find_char_gives_the_first_index_from_the_start_given() {
    let chars = chars_of("a@b@c");
    assert_eq!(find_char(&chars, '@', 0), Some(1));
    assert_eq!(find_char(&chars, '@', 1), Some(1));
    assert_eq!(find_char(&chars, '@', 2), Some(3));
    assert_eq!(find_char(&chars, '@', 4), None);
    assert_eq!(find_char(&chars, '@', 5), None);
    assert_eq!(find_char(&chars, 'x', 0), None);
}

#[test]
fn domains_are_judged_from_the_start_given() {
    let chars = chars_of("a.b@c.d");
    assert!(is_valid_domain_from(&chars, 4));
    assert!(!is_valid_domain_from(&chars, 5));
    assert!(!is_valid_domain_from(&chars, 6));
    assert!(!is_valid_domain_from(&chars, 7));
    assert!(is_valid_domain_from(&chars, 0));
}

#[test]
fn plain_means_no_whitespace_and_no_control_character() {
    assert!(is_plain_chars(&chars_of("")));
    assert!(is_plain_chars(&chars_of("ursula@gmail.com")));
    assert!(!is_plain_chars(&chars_of("ursula @gmail.com")));
    assert!(!is_plain_chars(&chars_of("ursula\u{1b}@gmail.com")));
}
