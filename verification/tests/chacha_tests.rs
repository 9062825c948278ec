use rcli::{
    decrypt_message, encrypt_message, generate_encrypt_key, get_decrypt_key, CryptError,
    TextEncryptFormat,
};

#[test]
fn text_chacha20_test_encode() {
    let key = generate_encrypt_key();
    let message = b"plaintext message";

    let encrypted_message = encrypt_message(&key, message).unwrap();
    let decrypted_message = decrypt_message(&key, &encrypted_message).unwrap();

    assert_eq!(decrypted_message, message);
}

#[test]
fn encrypt_decrypt_round_trip_various_lengths() {
    let key = generate_encrypt_key();
    for plaintext in [&b""[..], &b"x"[..], &b"a longer plaintext, well over one block"[..]] {
        let payload = encrypt_message(&key, plaintext).unwrap();
        assert_eq!(payload.len(), plaintext.len() + 28);
        assert_eq!(decrypt_message(&key, &payload).unwrap(), plaintext);
    }
}

#[test]
fn decrypt_with_wrong_key_fails() {
    let key = generate_encrypt_key();
    let other = generate_encrypt_key();
    let payload = encrypt_message(&key, b"plaintext message").unwrap();
    assert_eq!(
        decrypt_message(&other, &payload),
        Err(CryptError::DecryptionFailure)
    );
}

#[test]
fn encrypt_twice_differs() {
    let key = generate_encrypt_key();
    let one = encrypt_message(&key, b"same plaintext").unwrap();
    let two = encrypt_message(&key, b"same plaintext").unwrap();
    assert_ne!(one, two);
    assert_ne!(one[0..12], two[0..12]);
}

#[test]
fn decrypt_rejects_tampered_payload() {
    let key = generate_encrypt_key();
    let payload = encrypt_message(&key, b"plaintext message").unwrap();
    for i in 0..payload.len() {
        let mut bad = payload.clone();
        bad[i] ^= 0x01;
        assert_eq!(
            decrypt_message(&key, &bad),
            Err(CryptError::DecryptionFailure)
        );
    }
}

#[test]
fn decrypt_rejects_truncated_payload() {
    let key = generate_encrypt_key();
    assert_eq!(
        decrypt_message(&key, b"short"),
        Err(CryptError::DecryptionFailure)
    );
    assert_eq!(decrypt_message(&key, b""), Err(CryptError::DecryptionFailure));
}

#[test]
fn encrypt_rejects_short_and_long_keys() {
    for key in [vec![1u8; 31], vec![1u8; 33]] {
        assert_eq!(
            encrypt_message(&key, b"hello"),
            Err(CryptError::InvalidKeyLength)
        );
        assert_eq!(
            decrypt_message(&key, &[0u8; 40]),
            Err(CryptError::InvalidKeyLength)
        );
        assert_eq!(get_decrypt_key(&key), Err(CryptError::InvalidKeyLength));
    }
}

#[test]
fn get_decrypt_key_passes_through() {
    let key = generate_encrypt_key();
    assert_eq!(get_decrypt_key(&key).unwrap(), key);
}

#[test]
fn encrypt_does_not_trim_plaintext() {
    let key = generate_encrypt_key();
    let payload = encrypt_message(&key, b"  spaced  ").unwrap();
    assert_eq!(decrypt_message(&key, &payload).unwrap(), b"  spaced  ");
}

#[test]
fn parse_encrypt_format_names() {
    assert_eq!(
        rcli::text_chacha20::parse_format("chacha20-poly1305").unwrap(),
        TextEncryptFormat::ChaCha20Poly1305
    );
    assert_eq!(
        rcli::text_chacha20::parse_format("ChaCha20-Poly1305").unwrap(),
        TextEncryptFormat::ChaCha20Poly1305
    );
    assert!(rcli::text_chacha20::parse_format("aes-gcm").is_err());
}
