use tokensaver::redact::{mask_key, scrub_secret};

#[test]
fn mask_key_keeps_only_last_four_chars() {
    assert_eq!(mask_key("cook-1234-abcd"), "**********abcd");
    assert_eq!(mask_key("abcde"), "*bcde");
}

#[test]
fn mask_key_hides_short_keys_entirely() {
    assert_eq!(mask_key("abcd"), "****");
    assert_eq!(mask_key("ab"), "**");
    assert_eq!(mask_key(""), "");
}

#[test]
fn mask_key_counts_characters_and_not_bytes() {
    assert_eq!(mask_key("ключи"), "*лючи");
    assert_eq!(mask_key("ключ"), "****");
}

#[test]
fn masks_of_keys_with_one_end_are_equal() {
    assert_eq!(mask_key("cook-1234-abcd"), mask_key("bake-9876-abcd"));
    assert_eq!(mask_key("cook"), mask_key("bake"));
}

#[test]
fn masking_a_mask_changes_nothing() {
    for key in ["", "abcd", "abcde", "cook-1234-abcd"] {
        assert_eq!(mask_key(&mask_key(key)), mask_key(key));
    }
}

#[test]
fn scrub_secret_masks_every_occurrence() {
    let scrubbed = scrub_secret(
        "token cook-secret-9999 rejected (cook-secret-9999)",
        "cook-secret-9999",
    );
    assert!(!scrubbed.contains("cook-secret-9999"));
    assert_eq!(
        scrubbed,
        "token ************9999 rejected (************9999)"
    );
}

#[test]
fn scrub_secret_with_empty_secret_is_identity() {
    assert_eq!(scrub_secret("unchanged", ""), "unchanged");
}

#[test]
fn scrub_secret_leaves_a_text_without_the_secret() {
    assert_eq!(scrub_secret("nothing to hide", "cook-1234"), "nothing to hide");
    assert_eq!(scrub_secret("cook", "cook-1234"), "cook");
    assert_eq!(scrub_secret("", "cook-1234"), "");
}

#[test]
fn scrub_secret_replaces_as_the_standard_library_does() {
    for (text, secret) in [
        ("aaaaa", "aa"),
        ("ababab", "abab"),
        ("xabcabcabcx", "abcabc"),
        ("über-schlüssel: schlüssel", "schlüssel"),
        ("abcabc", "abcabc"),
    ] {
        assert_eq!(scrub_secret(text, secret), text.replace(secret, &mask_key(secret)));
    }
}

#[test]
fn scrubbing_keeps_the_length() {
    let text = "cook-1234-abcdcook-1234-abcd!";
    assert_eq!(scrub_secret(text, "cook-1234-abcd"), "**********abcd**********abcd!");
    assert_eq!(scrub_secret(text, "cook-1234-abcd").len(), text.len());
}

#[test]
fn scrubbing_twice_is_scrubbing_once() {
    let once = scrub_secret("key cook-1234-abcd, cook-1234-abcd", "cook-1234-abcd");
    assert_eq!(scrub_secret(&once, "cook-1234-abcd"), once);
}

#[test]
fn secrets_that_overlap_their_masks_can_show_again() {
    // The mask is the secret itself.
    assert_eq!(scrub_secret("**abcd", "**abcd"), "**abcd");
    // The end of the mask and the text behind it make the secret again.
    assert_eq!(scrub_secret("abababab", "ababab"), "**ababab");
    // The text in front and the beginning of the mask make the secret again.
    assert_eq!(scrub_secret("aa*", "a*"), "a**");
}
