//! Authenticated symmetric encryption of byte streams.
//!
//! One fixed cipher construction: chacha20-poly1305 under a 32-byte key.
//! An encrypted payload is the concatenation of a fresh 12-byte nonce and
//! the ciphertext with its appended 16-byte authentication tag.  No
//! whitespace trimming is applied to plaintexts.  Decryption reports a single
//! `DecryptionFailure` for every malformed or tampered payload, so that the
//! caller cannot tell which internal check rejected it.

use crate::errors::CryptError;
use chacha20poly1305::aead::{Aead, OsRng};
use chacha20poly1305::{AeadCore, ChaCha20Poly1305, Key, KeyInit, Nonce};
use vstd::string::StringSliceAdditionalSpecFns;
use vstd::prelude::*;

verus! {

/// The ciphertext (with appended tag) that chacha20-poly1305 produces for a
/// key, nonce and plaintext.
pub uninterp spec fn chacha_seal(key: Seq<u8>, nonce: Seq<u8>, plaintext: Seq<u8>) -> Seq<u8>;

/// What chacha20-poly1305 decryption returns for a key, nonce and ciphertext:
/// the plaintext when the tag authenticates, nothing otherwise.
pub uninterp spec fn chacha_open(key: Seq<u8>, nonce: Seq<u8>, ciphertext: Seq<u8>) -> Option<
    Seq<u8>,
>;

/// Relies on `ChaCha20Poly1305::generate_key` with `OsRng`: 32 bytes from the
/// operating system's entropy source; nothing is promised of their values.
#[verifier::external_body]
fn chacha_generate_key() -> (r: Vec<u8>)
    ensures
        r@.len() == 32,
{
    ChaCha20Poly1305::generate_key(&mut OsRng).to_vec()
}

/// Relies on `AeadCore::generate_nonce` with `OsRng`: 12 bytes from the
/// operating system's entropy source; nothing is promised of their values.
#[verifier::external_body]
fn chacha_generate_nonce() -> (r: Vec<u8>)
    ensures
        r@.len() == 12,
{
    ChaCha20Poly1305::generate_nonce(&mut OsRng).to_vec()
}

/// Relies on `chacha20poly1305`'s `Aead::encrypt`: deterministic in the key,
/// nonce and plaintext, 16 bytes longer than the plaintext, and decrypted
/// back to the plaintext by `Aead::decrypt` under the same key and nonce.
/// It fails only when the plaintext reaches the ChaCha20 block-counter
/// limit of 64 * (2^32 - 1) bytes, so success below that bound is promised.
#[verifier::external_body]
fn chacha_encrypt(key: &[u8], nonce: &[u8], plaintext: &[u8]) -> (r: Result<Vec<u8>, CryptError>)
    requires
        key@.len() == 32,
        nonce@.len() == 12,
    ensures
        plaintext@.len() < 0x3fffffffc0 ==> r is Ok,
        r matches Ok(c) ==> c@ == chacha_seal(key@, nonce@, plaintext@) && c@.len() == plaintext@.len()
            + 16 && chacha_open(key@, nonce@, c@) == Some(plaintext@),
        r matches Err(e) ==> e == CryptError::EncryptionFailure,
{
    let cipher = ChaCha20Poly1305::new(Key::from_slice(key));
    match cipher.encrypt(Nonce::from_slice(nonce), plaintext) {
        Ok(c) => Ok(c),
        Err(_) => Err(CryptError::EncryptionFailure),
    }
}

/// Relies on `chacha20poly1305`'s `Aead::decrypt`: deterministic in the key,
/// nonce and ciphertext, returning the plaintext exactly when the
/// authentication tag agrees with them.
#[verifier::external_body]
fn chacha_decrypt(key: &[u8], nonce: &[u8], ciphertext: &[u8]) -> (r: Result<Vec<u8>, CryptError>)
    requires
        key@.len() == 32,
        nonce@.len() == 12,
    ensures
        r matches Ok(p) ==> chacha_open(key@, nonce@, ciphertext@) == Some(p@),
        r matches Err(e) ==> e == CryptError::DecryptionFailure && chacha_open(
            key@,
            nonce@,
            ciphertext@,
        ) is None,
{
    let cipher = ChaCha20Poly1305::new(Key::from_slice(key));
    match cipher.decrypt(Nonce::from_slice(nonce), ciphertext) {
        Ok(p) => Ok(p),
        Err(_) => Err(CryptError::DecryptionFailure),
    }
}

/// The closed set of encryption algorithms.
#[derive(Debug, Clone, Copy, PartialEq, Eq, Structural)]
pub enum TextEncryptFormat {
    ChaCha20Poly1305,
}

/// The byte sequence `"chacha20-poly1305"`.
pub open spec fn chacha20_poly1305_name() -> Seq<u8> {
    seq![
        99u8,
        104u8,
        97u8,
        99u8,
        104u8,
        97u8,
        50u8,
        48u8,
        45u8,
        112u8,
        111u8,
        108u8,
        121u8,
        49u8,
        51u8,
        48u8,
        53u8,
    ]
}

/// Parses an encryption-format name, ignoring ASCII case.
pub fn parse_format(s: &str) -> (r: Result<TextEncryptFormat, &'static str>)
    ensures
        crate::ascii::lower_bytes(s.spec_bytes()) == chacha20_poly1305_name() ==> r == Ok::<
            TextEncryptFormat,
            &'static str,
        >(TextEncryptFormat::ChaCha20Poly1305),
        crate::ascii::lower_bytes(s.spec_bytes()) != chacha20_poly1305_name() ==> r matches Err(_),
{
    let b = s.as_bytes();
    let name_text: Vec<u8> = vec![
        99u8,
        104u8,
        97u8,
        99u8,
        104u8,
        97u8,
        50u8,
        48u8,
        45u8,
        112u8,
        111u8,
        108u8,
        121u8,
        49u8,
        51u8,
        48u8,
        53u8,
    ];
    proof {
        assert(name_text@ =~= chacha20_poly1305_name());
        assert(crate::ascii::lower_bytes(chacha20_poly1305_name()) =~= chacha20_poly1305_name());
    }
    if crate::ascii::eq_ignore_ascii_case(b, name_text.as_slice()) {
        Ok(TextEncryptFormat::ChaCha20Poly1305)
    } else {
        Err("Invalid file format")
    }
}

/// Produces a fresh 32-byte encryption key from the secure random source.
pub fn generate_encrypt_key() -> (r: Vec<u8>)
    ensures
        r@.len() == 32,
{
    chacha_generate_key()
}

/// Validates key material for decryption: exactly 32 bytes pass through
/// unchanged, every other length is an `InvalidKeyLength` error.
pub fn get_decrypt_key(key: &[u8]) -> (r: Result<Vec<u8>, CryptError>)
    ensures
        key@.len() == 32 ==> (r matches Ok(k) && k@ == key@),
        key@.len() != 32 ==> r == Err::<Vec<u8>, CryptError>(CryptError::InvalidKeyLength),
{
    if key.len() == 32 {
        Ok(vstd::slice::slice_to_vec(key))
    } else {
        Err(CryptError::InvalidKeyLength)
    }
}

/// What a successful [`encrypt_message`] promises of its payload: 12 bytes of
/// nonce followed by the sealed plaintext, which opens back to the plaintext
/// under the same key and nonce.
pub open spec fn encrypt_output(key: Seq<u8>, plaintext: Seq<u8>, c: Seq<u8>) -> bool {
    &&& c.len() == plaintext.len() + 28
    &&& c.subrange(12, c.len() as int) == chacha_seal(key, c.subrange(0, 12), plaintext)
    &&& chacha_open(key, c.subrange(0, 12), c.subrange(12, c.len() as int)) == Some(plaintext)
}

/// What [`decrypt_message`] returns, as a function of its inputs: a key of
/// the wrong length is an `InvalidKeyLength` error; a payload shorter than a
/// nonce, or one whose remainder does not authenticate, a `DecryptionFailure`;
/// anything else opens to its plaintext.
pub open spec fn decrypt_spec(key: Seq<u8>, payload: Seq<u8>) -> Result<Seq<u8>, CryptError> {
    if key.len() != 32 {
        Err(CryptError::InvalidKeyLength)
    } else if payload.len() < 12 {
        Err(CryptError::DecryptionFailure)
    } else {
        match chacha_open(key, payload.subrange(0, 12), payload.subrange(
            12,
            payload.len() as int,
        )) {
            Some(p) => Ok(p),
            None => Err(CryptError::DecryptionFailure),
        }
    }
}

/// Encrypts a plaintext under a 32-byte key: draws a fresh 12-byte nonce and
/// returns `nonce || ciphertext-with-tag`.
///
/// The key length is checked before the cipher is constructed.  Success is
/// promised for every plaintext below the cipher's block-counter limit; an
/// `EncryptionFailure` can come only from the cipher itself.
pub fn encrypt_message(key: &[u8], message: &[u8]) -> (r: Result<Vec<u8>, CryptError>)
    ensures
        key@.len() != 32 ==> r == Err::<Vec<u8>, CryptError>(CryptError::InvalidKeyLength),
        key@.len() == 32 && message@.len() < 0x3fffffffc0 ==> r is Ok,
        key@.len() == 32 ==> (r matches Ok(c) ==> encrypt_output(key@, message@, c@)),
        key@.len() == 32 ==> (r matches Err(e) ==> e == CryptError::EncryptionFailure),
{
    if key.len() != 32 {
        return Err(CryptError::InvalidKeyLength);
    }
    let nonce = chacha_generate_nonce();
    let mut ct = match chacha_encrypt(key, nonce.as_slice(), message) {
        Ok(c) => c,
        Err(e) => { return Err(e) },
    };
    let ghost nonce_seq = nonce@;
    let ghost ct_seq = ct@;
    let mut out = nonce;
    out.append(&mut ct);
    proof {
        assert(out@.subrange(0, 12) =~= nonce_seq);
        assert(out@.subrange(12, out@.len() as int) =~= ct_seq);
    }
    Ok(out)
}

/// Decrypts an encrypted payload under a 32-byte key, returning exactly what
/// [`decrypt_spec`] describes; no partial plaintext is ever returned on
/// failure.
pub fn decrypt_message(key: &[u8], encrypted_message: &[u8]) -> (r: Result<Vec<u8>, CryptError>)
    ensures
        r matches Ok(p) ==> decrypt_spec(key@, encrypted_message@) == Ok::<Seq<u8>, CryptError>(p@),
        r matches Err(e) ==> decrypt_spec(key@, encrypted_message@) == Err::<Seq<u8>, CryptError>(
            e,
        ),
{
    if key.len() != 32 {
        return Err(CryptError::InvalidKeyLength);
    }
    if encrypted_message.len() < 12 {
        return Err(CryptError::DecryptionFailure);
    }
    let nonce = vstd::slice::slice_subrange(encrypted_message, 0, 12);
    let ciphertext = vstd::slice::slice_subrange(encrypted_message, 12, encrypted_message.len());
    chacha_decrypt(key, nonce, ciphertext)
}

/// Encryption round trip: every payload that [`encrypt_message`] can return
/// for a 32-byte key and a plaintext decrypts, under the same key, back to
/// exactly that plaintext.
pub proof fn lemma_encrypt_decrypt_round_trip(key: Seq<u8>, plaintext: Seq<u8>, c: Seq<u8>)
    requires
        key.len() == 32,
        encrypt_output(key, plaintext, c),
    ensures
        decrypt_spec(key, c) == Ok::<Seq<u8>, CryptError>(plaintext),
{
    assert(c.len() >= 12);
}

} // verus!
