use lockbox::crypto::{constant_cmp, generate_random_alphanumeric, get_checksum, hash_sha512};
use lockbox::errors::ApiKeyServiceError;
use lockbox::key::ApiKeyParts;

const SHORT: &str = "abcdefghijkl";
const LONG: &str = "ABCDEFGHIJKLMNOPQRSTUVWX";

fn parts(namespace: &str, tag: Option<&str>) -> ApiKeyParts {
    ApiKeyParts::new(
        namespace.to_string(),
        tag.map(|t| t.to_string()),
        SHORT.to_string(),
        LONG.to_string(),
    )
}

#[test]
fn checksum_of_untagged_key() {
    assert_eq!(parts("apik", None).checksum(), "1s2hAM");
}

#[test]
fn checksum_of_tagged_key() {
    assert_eq!(parts("apik", Some("prod")).checksum(), "3JYvAE");
    assert_eq!(parts("ns", Some("t1")).checksum(), "3vYNeg");
}

#[test]
fn token_without_tag() {
    assert_eq!(
        parts("apik", None).token(),
        "apik_abcdefghijklABCDEFGHIJKLMNOPQRSTUVWX1s2hAM"
    );
}

#[test]
fn token_with_tag() {
    assert_eq!(
        parts("apik", Some("prod")).token(),
        "apik_prod_abcdefghijklABCDEFGHIJKLMNOPQRSTUVWX3JYvAE"
    );
}

#[test]
fn parse_untagged_token() {
    let p = ApiKeyParts::from_token("apik_abcdefghijklABCDEFGHIJKLMNOPQRSTUVWX1s2hAM").unwrap();
    assert_eq!(p.namespace, "apik");
    assert_eq!(p.tag, None);
    assert_eq!(p.short_key, SHORT);
    assert_eq!(p.long_key, LONG);
}

#[test]
fn parse_tagged_token() {
    let p = ApiKeyParts::from_token("ns_t1_abcdefghijklABCDEFGHIJKLMNOPQRSTUVWX3vYNeg").unwrap();
    assert_eq!(p.namespace, "ns");
    assert_eq!(p.tag.as_deref(), Some("t1"));
    assert_eq!(p.short_key, SHORT);
    assert_eq!(p.long_key, LONG);
}

#[test]
fn token_round_trip_of_generated_parts() {
    for tag in [None, Some("x"), Some("prod")] {
        let p = ApiKeyParts::generate("apik", tag);
        let q = ApiKeyParts::from_token(&p.token()).unwrap();
        assert_eq!(q.namespace, p.namespace);
        assert_eq!(q.tag, p.tag);
        assert_eq!(q.short_key, p.short_key);
        assert_eq!(q.long_key, p.long_key);
    }
}

#[test]
fn parsed_token_renders_back_to_itself() {
    let t = "apik_prod_abcdefghijklABCDEFGHIJKLMNOPQRSTUVWX3JYvAE";
    assert_eq!(ApiKeyParts::from_token(t).unwrap().token(), t);
}

#[test]
fn wrong_checksum_is_invalid() {
    let r = ApiKeyParts::from_token("apik_abcdefghijklABCDEFGHIJKLMNOPQRSTUVWX1s2hAN");
    assert!(matches!(r, Err(ApiKeyServiceError::InvalidKey)));
}

#[test]
fn wrong_piece_count_is_invalid() {
    assert!(matches!(
        ApiKeyParts::from_token("abcdefghijklABCDEFGHIJKLMNOPQRSTUVWX1s2hAM"),
        Err(ApiKeyServiceError::InvalidKey)
    ));
    assert!(matches!(
        ApiKeyParts::from_token("a_b_c_abcdefghijklABCDEFGHIJKLMNOPQRSTUVWX1s2hAM"),
        Err(ApiKeyServiceError::InvalidKey)
    ));
}

#[test]
fn wrong_blob_length_is_invalid() {
    assert!(matches!(
        ApiKeyParts::from_token("apik_abcdefghijklABCDEFGHIJKLMNOPQRSTUVWX1s2hA"),
        Err(ApiKeyServiceError::InvalidKey)
    ));
}

#[test]
fn generated_keys_have_their_lengths() {
    let p = ApiKeyParts::generate("apik", None);
    assert_eq!(p.short_key.len(), 12);
    assert_eq!(p.long_key.len(), 24);
    assert!(p.short_key.chars().all(|c| c.is_ascii_alphanumeric()));
    assert!(p.long_key.chars().all(|c| c.is_ascii_alphanumeric()));
    assert_eq!(p.token().len(), "apik_".len() + 42);
}

#[test]
fn random_alphanumeric_has_the_length_asked() {
    let s = generate_random_alphanumeric(40);
    assert_eq!(s.len(), 40);
    assert!(s.chars().all(|c| c.is_ascii_alphanumeric()));
    assert_eq!(generate_random_alphanumeric(0), "");
}

#[test]
fn checksum_is_padded_to_six() {
    // The CRC-32 of the empty input is 0, which renders as a single digit.
    assert_eq!(get_checksum(&[]), "000000");
    assert_eq!(get_checksum(&["apik", "", SHORT, LONG]), "1s2hAM");
}

#[test]
fn sha512_is_lowercase_hex() {
    assert_eq!(
        hash_sha512("hello"),
        "9b71d224bd62f3785d96d46ad3ea3d73319bfbc2890caadae2dff72519673ca72323c3d99ba5c11d7c7acc6e14b8c5da0c4663475c2e5c3adef46f73bcdec043"
    );
    assert_eq!(hash_sha512("").len(), 128);
}

#[test]
fn constant_comparison() {
    assert!(constant_cmp("abc", "abc"));
    assert!(!constant_cmp("abc", "abd"));
    assert!(!constant_cmp("abc", "abcd"));
    assert!(constant_cmp("", ""));
}
