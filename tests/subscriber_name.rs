use zero2prod::domain::subscriber_email::ValidationError;
use zero2prod::domain::subscriber_name::SubscriberName;

#[test]
fn a_valid_name_is_parsed_successfully() {
    let name = SubscriberName::parse("Ursula Le Guin").unwrap();
    assert_eq!(name.as_str(), "Ursula Le Guin");
}

#[test]
fn a_256_grapheme_long_name_is_valid() {
    let name = "ё".repeat(256);
    assert!(SubscriberName::parse(&name).is_ok());
}

#[test]
fn a_name_longer_than_256_graphemes_is_rejected() {
    let name = "a".repeat(257);
    assert_eq!(SubscriberName::parse(&name).unwrap_err(), ValidationError::InvalidName);
}

#[test]
fn length_is_counted_after_trimming() {
    let name = format!("  {}\t\n", "a".repeat(256));
    let parsed = SubscriberName::parse(&name).unwrap();
    assert_eq!(parsed.as_str(), name);
}

#[test]
fn length_is_counted_in_graphemes() {
    // Each "a" followed by a combining acute accent is one grapheme of two chars.
    let name = "a\u{301}".repeat(256);
    assert!(SubscriberName::parse(&name).is_ok());
    let longer = "a\u{301}".repeat(257);
    assert!(SubscriberName::parse(&longer).is_err());
}

#[test]
fn whitespace_only_names_are_rejected() {
    for s in [" ", "\t\n", "\u{3000}\u{a0}"] {
        assert_eq!(SubscriberName::parse(s).unwrap_err(), ValidationError::InvalidName);
    }
}

#[test]
fn empty_string_is_rejected_as_name() {
    assert!(SubscriberName::parse("").is_err());
}

#[test]
fn names_containing_an_invalid_character_are_rejected() {
    for c in ['/', '(', ')', '"', '<', '>', '\\', '{', '}'] {
        let name = format!("ursula{}", c);
        assert!(SubscriberName::parse(&name).is_err());
    }
}
