use rcli::{decode, encode, CryptError, Format};

#[test]
fn encode_standard_known_value() {
    assert_eq!(encode("hello", Format::Standard), "aGVsbG8=");
    assert_eq!(encode(">>>", Format::Standard), "Pj4+");
}

#[test]
fn encode_url_safe_known_value() {
    // The url-safe encode side keeps padding; only the alphabet differs.
    assert_eq!(encode(">>>", Format::UrlSafe), "Pj4-");
    assert_eq!(encode("hello", Format::UrlSafe), "aGVsbG8=");
}

#[test]
fn decode_standard_known_value() {
    assert_eq!(decode("aGVsbG8=", Format::Standard).unwrap(), b"hello");
    assert_eq!(decode("Pj4+", Format::Standard).unwrap(), b">>>");
}

#[test]
fn decode_url_safe_reads_unpadded_text() {
    // The url-safe decode side expects the unpadded form used for signatures
    // and payloads.
    assert_eq!(decode("aGVsbG8", Format::UrlSafe).unwrap(), b"hello");
    assert_eq!(decode("Pj4-", Format::UrlSafe).unwrap(), b">>>");
}

#[test]
fn decode_url_safe_rejects_padding() {
    assert_eq!(
        decode("aGVsbG8=", Format::UrlSafe),
        Err(CryptError::EncodingError)
    );
}

#[test]
fn decode_rejects_invalid_alphabet() {
    assert_eq!(decode("!!!", Format::Standard), Err(CryptError::EncodingError));
    assert_eq!(decode("!!!", Format::UrlSafe), Err(CryptError::EncodingError));
}

#[test]
fn decode_rejects_invalid_length() {
    // A single leftover character can never be a canonical encoding.
    assert_eq!(decode("A", Format::UrlSafe), Err(CryptError::EncodingError));
    assert_eq!(decode("AAAAA", Format::Standard), Err(CryptError::EncodingError));
}

#[test]
fn encode_decode_standard_round_trip() {
    let text = "round trip me";
    let framed = encode(text, Format::Standard);
    assert_eq!(decode(&framed, Format::Standard).unwrap(), text.as_bytes());
}

#[test]
fn parse_b64_format_names() {
    assert_eq!(rcli::b64::parse_format("standard").unwrap(), Format::Standard);
    assert_eq!(rcli::b64::parse_format("URL_safe").unwrap(), Format::UrlSafe);
    assert!(rcli::b64::parse_format("hex").is_err());
}
