use base64::Engine;
use rcli::{gen_pass, generate_key, sign, verify, CryptError, Ed25519Sign, TextSignFormat};

#[test]
fn text_test_sign() {
    let input = b"hello";
    let key = gen_pass(32, true, true, true, true).unwrap();
    let format = TextSignFormat::Blake3;
    let out = sign(input, key.as_bytes(), format);
    let signature = out.unwrap();
    let ok = verify(input, key.as_bytes(), format, signature.as_str());
    assert!(ok.is_ok());
    assert_eq!(ok.unwrap(), true);
}

#[test]
fn sign_verify_round_trip_blake3_fresh_key() {
    let key = generate_key(TextSignFormat::Blake3).unwrap();
    assert_eq!(key.len(), 32);
    let msg = b"a message of no particular shape";
    let sig = sign(msg, &key, TextSignFormat::Blake3).unwrap();
    assert_eq!(verify(msg, &key, TextSignFormat::Blake3, &sig).unwrap(), true);
}

#[test]
fn sign_verify_round_trip_ed25519() {
    let seed = [7u8; 32];
    let msg = b"a message of no particular shape";
    let sig = sign(msg, &seed, TextSignFormat::Ed25519).unwrap();
    assert_eq!(sig.len(), 86);
    let pk = Ed25519Sign::try_new(&seed).unwrap().public_key();
    assert_eq!(verify(msg, &pk, TextSignFormat::Ed25519, &sig).unwrap(), true);
}

#[test]
fn sign_fixed_key_reproducible() {
    // key = 32 zero bytes, message = "hello": a fixed, reproducible digest.
    let key = [0u8; 32];
    let sig1 = sign(b"hello", &key, TextSignFormat::Blake3).unwrap();
    let sig2 = sign(b"hello", &key, TextSignFormat::Blake3).unwrap();
    assert_eq!(sig1, sig2);
    assert_eq!(sig1.len(), 43);
    assert_eq!(
        verify(b"hello", &key, TextSignFormat::Blake3, &sig1).unwrap(),
        true
    );
    assert_eq!(
        verify(b"hello!", &key, TextSignFormat::Blake3, &sig1).unwrap(),
        false
    );
}

#[test]
fn sign_trims_whitespace() {
    let key = [0u8; 32];
    let plain = sign(b"hello", &key, TextSignFormat::Blake3).unwrap();
    let padded = sign(b"  hello\n", &key, TextSignFormat::Blake3).unwrap();
    assert_eq!(plain, padded);
    assert_eq!(
        verify(b"\thello ", &key, TextSignFormat::Blake3, &plain).unwrap(),
        true
    );
}

#[test]
fn verify_rejects_tampered_signature_blake3() {
    let key = [0u8; 32];
    let sig = sign(b"hello", &key, TextSignFormat::Blake3).unwrap();
    let raw = rcli::decode(&sig, rcli::Format::UrlSafe).unwrap();
    assert_eq!(raw.len(), 32);
    for i in 0..raw.len() {
        let mut bad = raw.clone();
        bad[i] ^= 0x01;
        let bad_text = base64::engine::general_purpose::URL_SAFE_NO_PAD.encode(&bad);
        assert_eq!(
            verify(b"hello", &key, TextSignFormat::Blake3, &bad_text).unwrap(),
            false
        );
    }
}

#[test]
fn verify_rejects_tampered_signature_ed25519() {
    let seed = [9u8; 32];
    let sig = sign(b"hello", &seed, TextSignFormat::Ed25519).unwrap();
    let pk = Ed25519Sign::try_new(&seed).unwrap().public_key();
    let raw = rcli::decode(&sig, rcli::Format::UrlSafe).unwrap();
    assert_eq!(raw.len(), 64);
    for i in 0..raw.len() {
        let mut bad = raw.clone();
        bad[i] ^= 0x01;
        let bad_text = base64::engine::general_purpose::URL_SAFE_NO_PAD.encode(&bad);
        assert_eq!(
            verify(b"hello", &pk, TextSignFormat::Ed25519, &bad_text).unwrap(),
            false
        );
    }
}

#[test]
fn sign_rejects_short_and_long_keys() {
    for key in [vec![1u8; 31], vec![1u8; 33]] {
        assert_eq!(
            sign(b"hello", &key, TextSignFormat::Blake3),
            Err(CryptError::InvalidKeyLength)
        );
        assert_eq!(
            sign(b"hello", &key, TextSignFormat::Ed25519),
            Err(CryptError::InvalidKeyLength)
        );
    }
}

#[test]
fn verify_rejects_short_and_long_keys() {
    let good = [0u8; 32];
    let sig_blake3 = sign(b"hello", &good, TextSignFormat::Blake3).unwrap();
    let sig_ed = sign(b"hello", &good, TextSignFormat::Ed25519).unwrap();
    for key in [vec![1u8; 31], vec![1u8; 33]] {
        assert_eq!(
            verify(b"hello", &key, TextSignFormat::Blake3, &sig_blake3),
            Err(CryptError::InvalidKeyLength)
        );
        assert_eq!(
            verify(b"hello", &key, TextSignFormat::Ed25519, &sig_ed),
            Err(CryptError::InvalidKeyLength)
        );
    }
}

#[test]
fn verify_rejects_malformed_signature_text() {
    let key = [0u8; 32];
    assert_eq!(
        verify(b"hello", &key, TextSignFormat::Blake3, "!!!"),
        Err(CryptError::EncodingError)
    );
    // Canonical base64 of the wrong length is also a hard error.
    let short = base64::engine::general_purpose::URL_SAFE_NO_PAD.encode([1u8, 2, 3]);
    assert_eq!(
        verify(b"hello", &key, TextSignFormat::Blake3, &short),
        Err(CryptError::EncodingError)
    );
    assert_eq!(
        verify(b"hello", &key, TextSignFormat::Ed25519, &short),
        Err(CryptError::EncodingError)
    );
}

#[test]
fn generate_key_blake3_is_32_bytes() {
    let k1 = generate_key(TextSignFormat::Blake3).unwrap();
    let k2 = generate_key(TextSignFormat::Blake3).unwrap();
    assert_eq!(k1.len(), 32);
    assert_eq!(k2.len(), 32);
    assert_ne!(k1, k2);
}

#[test]
fn generate_key_ed25519_unimplemented() {
    assert_eq!(
        generate_key(TextSignFormat::Ed25519),
        Err(CryptError::NotImplemented)
    );
}

#[test]
fn parse_sign_format_names() {
    assert_eq!(
        rcli::text::parse_format("blake3").unwrap(),
        TextSignFormat::Blake3
    );
    assert_eq!(
        rcli::text::parse_format("Blake3").unwrap(),
        TextSignFormat::Blake3
    );
    assert_eq!(
        rcli::text::parse_format("ED25519").unwrap(),
        TextSignFormat::Ed25519
    );
    assert!(rcli::text::parse_format("sha256").is_err());
}
