use fake::faker::internet::en::SafeEmail;
use fake::Fake;
use zero2prod::domain::subscriber_email::{SubscriberEmail, ValidationError};

#[test]
fn empty_string_is_rejected() {
    let email = "";
    assert!(SubscriberEmail::parse(email).is_err());
}

#[test]
fn email_missing_at_symbol_is_rejected() {
    let email = "ursuladomain.com";
    assert!(SubscriberEmail::parse(email).is_err());
}

#[test]
fn email_missing_subject_is_rejected() {
    let email = "@domain.com";
    assert!(SubscriberEmail::parse(email).is_err());
}

#[test]
fn valid_emails_are_parsed_successfully_once() {
    let email: String = SafeEmail().fake();
    assert!(SubscriberEmail::parse(&email).is_ok());
}

#[test]
fn generated_emails_round_trip() {
    for _ in 0..200 {
        let email: String = SafeEmail().fake();
        let parsed = SubscriberEmail::parse(&email).expect("generated address rejected");
        assert_eq!(parsed.as_str(), email);
    }
}

#[test]
fn plain_address_round_trips() {
    let parsed = SubscriberEmail::parse("ursula_le_guin@gmail.com").unwrap();
    assert_eq!(parsed.as_str(), "ursula_le_guin@gmail.com");
}

#[test]
fn rejection_is_invalid_email() {
    assert_eq!(
        SubscriberEmail::parse("definitely-not-an-email").unwrap_err(),
        ValidationError::InvalidEmail
    );
}

#[test]
fn strings_without_separator_are_rejected() {
    for s in ["a", "ursula.domain.com", "x y z", "ursula%40gmail.com"] {
        assert_eq!(SubscriberEmail::parse(s).unwrap_err(), ValidationError::InvalidEmail);
    }
}

#[test]
fn empty_local_parts_are_rejected() {
    for s in ["@gmail.com", "@a.b", "@@x.org"] {
        assert!(SubscriberEmail::parse(s).is_err());
    }
}

#[test]
fn domain_without_dot_is_rejected() {
    assert!(SubscriberEmail::parse("ursula@localhost").is_err());
}

#[test]
fn empty_domain_is_rejected() {
    assert!(SubscriberEmail::parse("ursula@").is_err());
}

#[test]
fn two_separators_are_rejected() {
    assert!(SubscriberEmail::parse("ursula@le@guin.com").is_err());
}

#[test]
fn control_character_is_rejected() {
    assert!(SubscriberEmail::parse("ursula\u{7}@gmail.com").is_err());
    assert!(SubscriberEmail::parse("ursula@gmail.com\n").is_err());
}

#[test]
fn syntax_check_rejects_what_the_shape_allows() {
    // The shape holds, but spaces are not part of the address syntax.
    assert!(SubscriberEmail::parse("ursula le guin@gmail.com").is_err());
}

#[test]
fn same_address_compares_text() {
    let a = SubscriberEmail::parse("a@b.com").unwrap();
    let b = SubscriberEmail::parse("a@b.com").unwrap();
    let c = SubscriberEmail::parse("c@b.com").unwrap();
    assert!(a.same_address(&b));
    assert!(!a.same_address(&c));
}

#[test]
fn as_ref_gives_the_address() {
    let parsed = SubscriberEmail::parse("ursula_le_guin@gmail.com").unwrap();
    let text: &str = parsed.as_ref();
    assert_eq!(text, "ursula_le_guin@gmail.com");
}
