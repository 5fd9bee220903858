use mfa_agent::crypto::{decrypt, encrypt, encrypt_with_nonce, try_decrypt, NONCE_SEPARATOR};

const TEST_KEY: &str = "super-secret-key-fdsfsdfddfddddd";

#[test]
pub fn test_encrypt() {
    let plain_text = "allooooooo";
    let encrypted_string = encrypt(plain_text, TEST_KEY);
    assert!(!encrypted_string.is_empty());
    assert!(encrypted_string.contains(NONCE_SEPARATOR));
}

#[test]
pub fn test_decrypt() {
    let cipher_text = "/kOLv7RYVgpbnWtDp1XQXMT7+VhsjLFIhabRqgz/AUY=:xc5xHJiBkVE=";
    let plain_text = decrypt(cipher_text, TEST_KEY);
    assert_eq!("allooooooo", plain_text);
}

#[test]
fn encryption_with_a_known_nonce() {
    let nonce = base64::decode("xc5xHJiBkVE=").unwrap();
    let sealed = encrypt_with_nonce("allooooooo", TEST_KEY, &nonce);
    assert_eq!(sealed, "/kOLv7RYVgpbnWtDp1XQXMT7+VhsjLFIhabRqgz/AUY=:xc5xHJiBkVE=");
}

#[test]
fn decrypt_undoes_encrypt() {
    for text in ["", "a", "allooooooo", "héllo wörld ✓", "with:colons:inside"] {
        let sealed = encrypt(text, TEST_KEY);
        assert_eq!(decrypt(&sealed, TEST_KEY), text);
    }
}

#[test]
fn sealed_text_layout() {
    let sealed = encrypt("allooooooo", TEST_KEY);
    let parts: Vec<&str> = sealed.split(NONCE_SEPARATOR).collect();
    assert_eq!(parts.len(), 2);
    assert_eq!(parts[1].len(), 12);
    assert_eq!(base64::decode(parts[1]).unwrap().len(), 8);
}

#[test]
fn missing_separator_is_refused() {
    assert_eq!(try_decrypt("invalid", TEST_KEY), None);
}

#[test]
fn two_separators_are_refused() {
    assert_eq!(try_decrypt("invalid:ciphertext:ok?", TEST_KEY), None);
}

#[test]
fn wrong_key_is_refused() {
    let cipher_text = "/kOLv7RYVgpbnWtDp1XQXMT7+VhsjLFIhabRqgz/AUY=:xc5xHJiBkVE=";
    assert_eq!(try_decrypt(cipher_text, "super-secret-key-ddddddddddddddd"), None);
}

#[test]
fn key_of_wrong_length_is_refused() {
    let cipher_text = "/kOLv7RYVgpbnWtDp1XQXMT7+VhsjLFIhabRqgz/AUY=:xc5xHJiBkVE=";
    assert_eq!(try_decrypt(cipher_text, "key-with-invalid-length"), None);
}

#[test]
fn valid_text_is_accepted_by_try_decrypt() {
    let cipher_text = "/kOLv7RYVgpbnWtDp1XQXMT7+VhsjLFIhabRqgz/AUY=:xc5xHJiBkVE=";
    assert_eq!(try_decrypt(cipher_text, TEST_KEY), Some("allooooooo".to_string()));
}

#[test]
fn nonce_of_wrong_length_is_refused() {
    assert_eq!(try_decrypt("/kOLv7RYVgpbnWtDp1XQXMT7+VhsjLFIhabRqgz/AUY=:xc5x", TEST_KEY), None);
}

#[test]
fn body_that_is_no_base64_is_refused() {
    assert_eq!(try_decrypt("!!!!:xc5xHJiBkVE=", TEST_KEY), None);
}
