use std::collections::HashSet;
use zero2prod::domain::confirmation_token::{ConfirmationToken, ALPHABET_LEN, TOKEN_LEN};

#[test]
fn generated_tokens_have_the_declared_shape() {
    let token = ConfirmationToken::generate();
    assert_eq!(token.as_str().chars().count(), TOKEN_LEN);
    assert!(token.as_str().chars().all(|c| c.is_ascii_alphanumeric()));
}

#[test]
fn generated_tokens_do_not_collide() {
    let n = 10_000;
    let mut seen = HashSet::new();
    for _ in 0..n {
        let token = ConfirmationToken::generate();
        assert!(token.as_str().chars().all(|c| c.is_ascii_alphanumeric()));
        seen.insert(token.as_str().to_string());
    }
    assert_eq!(seen.len(), n);
}

#[test]
fn draws_spell_the_token() {
    let draws: Vec<usize> = vec![0, 25, 26, 51, 52, 61, 1, 2, 3, 4, 5, 6, 7, 8, 9, 10, 11, 12, 13, 14, 15, 16, 17, 18, 19];
    let token = ConfirmationToken::from_draws(&draws).unwrap();
    assert_eq!(token.as_str(), "AZaz09BCDEFGHIJKLMNOPQRST");
}

#[test]
fn draws_of_the_wrong_length_are_refused() {
    assert!(ConfirmationToken::from_draws(&vec![0; TOKEN_LEN - 1]).is_none());
    assert!(ConfirmationToken::from_draws(&vec![0; TOKEN_LEN + 1]).is_none());
    assert!(ConfirmationToken::from_draws(&vec![]).is_none());
}

#[test]
fn draws_outside_the_alphabet_are_refused() {
    let mut draws = vec![0; TOKEN_LEN];
    draws[7] = ALPHABET_LEN;
    assert!(ConfirmationToken::from_draws(&draws).is_none());
}

#[test]
fn token_matches_its_own_text_only() {
    let token = ConfirmationToken::from_draws(&vec![0; TOKEN_LEN]).unwrap();
    assert!(token.matches("AAAAAAAAAAAAAAAAAAAAAAAAA"));
    assert!(!token.matches("AAAAAAAAAAAAAAAAAAAAAAAAB"));
    assert!(!token.matches(""));
}
