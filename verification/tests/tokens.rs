use streamvault::token::{generate_token, token_char, token_from_indices};

fn is_token_char(c: char) -> bool {
    c.is_ascii_digit() || c.is_ascii_lowercase()
}

#[test]
fn token_characters() {
    assert_eq!(token_char(0), '0');
    assert_eq!(token_char(9), '9');
    assert_eq!(token_char(10), 'a');
    assert_eq!(token_char(35), 'z');
}

#[test]
fn token_alphabet_has_thirty_six_distinct_characters() {
    let mut seen: Vec<char> = (0..36).map(token_char).collect();
    assert!(seen.iter().all(|c| is_token_char(*c)));
    seen.sort();
    seen.dedup();
    assert_eq!(seen.len(), 36);
}

#[test]
fn token_from_indices_spells_each_index() {
    assert_eq!(token_from_indices(&[10, 0, 35, 1, 2, 3, 4, 5]), "a0z12345");
    assert_eq!(token_from_indices(&[]), "");
}

#[test]
fn generated_tokens_are_eight_alphanumerics() {
    for _ in 0..50 {
        let t = generate_token().unwrap();
        assert_eq!(t.chars().count(), 8);
        assert!(t.chars().all(is_token_char), "token {:?}", t);
    }
}

#[test]
fn generated_tokens_differ() {
    let a = generate_token().unwrap();
    let b = generate_token().unwrap();
    assert_ne!(a, b);
}
