//! Password-policy checks: length, digit, letter and punctuation classes.

use authcore::credentials::sanitize;

#[test]
fn policy_accepts_full_mix() {
    assert!(sanitize(&String::from("Passw0rd!")));
}

#[test]
fn policy_rejects_no_digit_no_punctuation() {
    assert!(!sanitize(&String::from("password")));
}

#[test]
fn policy_rejects_too_short() {
    assert!(!sanitize(&String::from("P4ss!")));
}

#[test]
fn policy_rejects_no_punctuation() {
    assert!(!sanitize(&String::from("ALLLETTERS1")));
}

#[test]
fn policy_length_boundary_is_eight_bytes() {
    assert!(sanitize(&String::from("Pass0rd!")));
    assert!(!sanitize(&String::from("Pa0rd!!")));
}

#[test]
fn policy_counts_length_in_bytes() {
    // Six characters, but the umlauts are two bytes each, so the length
    // floor of eight bytes is met.
    assert!(sanitize(&String::from("àé1!aa")));
}

#[test]
fn policy_accepts_non_ascii_letters() {
    assert!(sanitize(&String::from("münch3n!!")));
}

#[test]
fn policy_rejects_empty() {
    assert!(!sanitize(&String::from("")));
}

#[test]
fn policy_rejects_digits_and_punctuation_only() {
    assert!(!sanitize(&String::from("12345678!!")));
}
