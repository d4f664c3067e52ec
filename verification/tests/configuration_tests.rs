use bosca_server::configurations::{decode_decrypted, decrypt_value, derive_key, encrypt_value, CipherError, ConfigurationCache};
use sha2::Digest;

#[test]
fn key_is_the_sha256_of_the_security_key() {
    let k = derive_key("secret");
    assert_eq!(k.len(), 32);
    assert_eq!(k, sha2::Sha256::digest(b"secret").to_vec());
    assert_ne!(derive_key("secret"), derive_key("other"));
}

#[test]
fn encrypted_values_decrypt_to_their_text() {
    let (ciphertext, nonce) = encrypt_value("secret", "{\"a\":1}").unwrap();
    assert_eq!(nonce.len(), 12);
    assert_ne!(ciphertext, b"{\"a\":1}".to_vec());
    assert_eq!(decrypt_value("secret", &ciphertext, &nonce), Ok("{\"a\":1}".to_string()));
}

#[test]
fn wrong_key_or_tampered_text_fails() {
    let (mut ciphertext, nonce) = encrypt_value("secret", "value").unwrap();
    assert_eq!(decrypt_value("other", &ciphertext, &nonce), Err(CipherError::DecryptionFailed));
    ciphertext[0] ^= 1;
    assert_eq!(decrypt_value("secret", &ciphertext, &nonce), Err(CipherError::DecryptionFailed));
}

#[test]
fn decryption_results_decode_as_utf8() {
    assert_eq!(decode_decrypted(None), Err(CipherError::DecryptionFailed));
    assert_eq!(decode_decrypted(Some(vec![0xff, 0xfe])), Err(CipherError::InvalidUtf8));
    assert_eq!(decode_decrypted(Some("é!".as_bytes().to_vec())), Ok("é!".to_string()));
}

#[test]
fn configuration_cache_reads_back_what_was_stored() {
    let mut cache = ConfigurationCache::new(100);
    assert_eq!(cache.lookup("k", 50, 200), None);
    cache.store("k", "v1".to_string());
    assert_eq!(cache.lookup("k", 100, 200), Some("v1".to_string()));
    cache.store("k", "v2".to_string());
    assert_eq!(cache.lookup("k", 90, 200), Some("v2".to_string()));
    cache.invalidate("k");
    assert_eq!(cache.lookup("k", 90, 200), None);
}

#[test]
fn configuration_cache_clears_after_a_change() {
    let mut cache = ConfigurationCache::new(100);
    cache.store("a", "1".to_string());
    cache.store("b", "2".to_string());
    assert_eq!(cache.lookup("a", 101, 300), None);
    assert_eq!(cache.lookup("b", 150, 300), None);
}

#[test]
fn every_short_value_is_encrypted() {
    for text in ["", "x", "{\"nested\":{\"a\":[1,2,3]}}"] {
        let (ciphertext, nonce) = encrypt_value("k", text).unwrap();
        assert_eq!(nonce.len(), 12);
        assert_eq!(ciphertext.len(), text.len() + 16);
        assert_eq!(decrypt_value("k", &ciphertext, &nonce), Ok(text.to_string()));
    }
}
