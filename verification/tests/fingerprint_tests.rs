use k8s_ai_operator::fingerprint::{create_hash, hex_encode, FINGERPRINT_LEN};
use k8s_ai_operator::text::{copy_strings, same_text};

#[test]
fn fingerprint_of_demo_hello_is_sha256_of_joined_text() {
    assert_eq!(
        create_hash("demo", "Hello".to_string()),
        "1c61f5f70cda2a7724b5ea78772624e96775122f4f196133e8b362c90209f97a"
    );
}

#[test]
fn fingerprint_is_stable_across_calls() {
    let first = create_hash("demo", "Hello".to_string());
    let second = create_hash("demo", "Hello".to_string());
    assert_eq!(first, second);
}

#[test]
fn fingerprint_changes_with_the_prompt() {
    assert_eq!(
        create_hash("demo", "Hello!".to_string()),
        "fec80f136080c9787c933dfedbceb1a2260d520860113fac79fd6fae9db7debc"
    );
    assert_ne!(
        create_hash("demo", "Hello".to_string()),
        create_hash("demo", "Hello!".to_string())
    );
}

#[test]
fn fingerprint_changes_with_the_name() {
    assert_ne!(
        create_hash("demo", "Hello".to_string()),
        create_hash("demo2", "Hello".to_string())
    );
}

#[test]
fn fingerprint_of_empty_name_and_prompt_hashes_the_hyphen() {
    assert_eq!(
        create_hash("", String::new()),
        "3973e022e93220f9212c18d0d0c543ae7c309e46640da93a4a0314de999f5112"
    );
}

#[test]
fn fingerprint_hashes_utf8_bytes() {
    assert_eq!(
        create_hash("né", "ü".to_string()),
        "2267980ac421da4a04bb73a4e5beb1ab396dabbda543b3f80298e5535abc3b72"
    );
}

#[test]
fn fingerprint_has_sixty_four_lower_case_hex_characters() {
    let digest = create_hash("a", "b".to_string());
    assert_eq!(digest, "d44362d67d921091c7b9674d752e9e23c1f9ec8a4f0b82741bf01364eb97c830");
    assert_eq!(digest.len(), FINGERPRINT_LEN);
    assert!(digest.chars().all(|c| c.is_ascii_digit() || ('a'..='f').contains(&c)));
}

#[test]
fn hex_encode_writes_two_digits_a_byte() {
    assert_eq!(hex_encode(&[]), "");
    assert_eq!(hex_encode(&[0x00]), "00");
    assert_eq!(hex_encode(&[0x0f, 0xf0]), "0ff0");
    assert_eq!(hex_encode(&[0xab, 0xcd, 0xef, 0x01, 0x23]), "abcdef0123");
    assert_eq!(hex_encode(&[0x9a, 0xff]), "9aff");
}

#[test]
fn hex_encode_covers_every_byte() {
    for byte in 0u8..=255 {
        assert_eq!(hex_encode(&[byte]), format!("{:02x}", byte));
    }
}

#[test]
fn same_text_compares_characters() {
    assert!(same_text("", ""));
    assert!(same_text("state_hash", "state_hash"));
    assert!(!same_text("state_hash", "state_hasH"));
    assert!(!same_text("abc", "abcd"));
    assert!(!same_text("abcd", "abc"));
    assert!(same_text("né-ü", "né-ü"));
    assert!(!same_text("né", "ne"));
}

#[test]
fn copy_strings_copies_entry_by_entry() {
    let list = vec!["a".to_string(), String::new(), "aioperator/finalizer".to_string()];
    assert_eq!(copy_strings(&list), list);
    assert_eq!(copy_strings(&Vec::new()), Vec::<String>::new());
}
