use mc_updater::hashing::{check_bytes_hash, check_file_hash, str_eq};

#[test]
fn digest_of_known_bytes() {
    assert!(check_bytes_hash(b"abc", "a9993e364706816aba3e25717850c26c9cd0d89d"));
    assert!(check_bytes_hash(b"", "da39a3ee5e6b4b0d3255bfef95601890afd80709"));
}

#[test]
fn digest_comparison_is_case_sensitive() {
    assert!(!check_bytes_hash(b"abc", "A9993E364706816ABA3E25717850C26C9CD0D89D"));
}

#[test]
fn wrong_digest_is_rejected() {
    assert!(!check_bytes_hash(b"abc", "da39a3ee5e6b4b0d3255bfef95601890afd80709"));
    assert!(!check_bytes_hash(b"abc", ""));
}

#[test]
fn wrapper_agrees_with_direct_hashing() {
    let bytes = b"some file contents";
    let expected = hex::encode(<sha1::Sha1 as sha1::Digest>::digest(bytes));
    assert!(check_bytes_hash(bytes, &expected));
}

#[test]
fn file_hash_of_readable_contents() {
    let contents = Some(b"abc".to_vec());
    assert!(check_file_hash(&contents, "a9993e364706816aba3e25717850c26c9cd0d89d"));
    assert!(!check_file_hash(&contents, "da39a3ee5e6b4b0d3255bfef95601890afd80709"));
}

#[test]
fn missing_file_is_not_verified() {
    assert!(!check_file_hash(&None, "a9993e364706816aba3e25717850c26c9cd0d89d"));
}

#[test]
fn string_equality() {
    assert!(str_eq("abc", "abc"));
    assert!(!str_eq("abc", "abd"));
    assert!(!str_eq("abc", "ABC"));
}
