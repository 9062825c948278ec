//! Detached text signatures under interchangeable algorithms.
//!
//! A signature engine is selected by the closed tag [`TextSignFormat`]: a
//! blake3 keyed hash (a MAC under a 32-byte secret) or an ed25519 signature
//! (a 64-byte deterministic signature under a 32-byte seed, verified against
//! a 32-byte public key).  Messages are stripped of leading and trailing
//! whitespace before they are signed or verified; plaintexts handed to the
//! encryption path are not, and both behaviours are part of the contract.
//! Signatures travel as url-safe base64 without padding.

use crate::ascii::lower_bytes;
use crate::b64::{b64_url_nopad, decode_url_safe_no_pad, encode_url_safe_no_pad};
use crate::errors::CryptError;
use ed25519_dalek::{Signer, Verifier};
use vstd::prelude::*;
use vstd::string::StringSliceAdditionalSpecFns;

verus! {

// ---------------------------------------------------------------------------
// Whitespace trimming
// ---------------------------------------------------------------------------

/// Whether a byte is ASCII whitespace (tab, newline, vertical tab, form
/// feed, carriage return or space).
pub open spec fn is_wsp(b: u8) -> bool {
    b == 9 || b == 10 || b == 11 || b == 12 || b == 13 || b == 32
}

/// The sequence without its leading whitespace.
pub open spec fn trim_front(s: Seq<u8>) -> Seq<u8>
    decreases s.len(),
{
    if s.len() > 0 && is_wsp(s[0]) {
        trim_front(s.drop_first())
    } else {
        s
    }
}

/// The sequence without its trailing whitespace.
pub open spec fn trim_back(s: Seq<u8>) -> Seq<u8>
    decreases s.len(),
{
    if s.len() > 0 && is_wsp(s[s.len() - 1]) {
        trim_back(s.drop_last())
    } else {
        s
    }
}

/// The sequence without leading and trailing whitespace: the form in which a
/// message is fed to the signing and verifying pipeline.
pub open spec fn trimmed(s: Seq<u8>) -> Seq<u8> {
    trim_back(trim_front(s))
}

proof fn lemma_trim_front_at(s: Seq<u8>, i: int)
    requires
        0 <= i <= s.len(),
        forall|k: int| 0 <= k < i ==> is_wsp(s[k]),
        i == s.len() || !is_wsp(s[i]),
    ensures
        trim_front(s) =~= s.subrange(i, s.len() as int),
    decreases i,
{
    if i == 0 {
        assert(trim_front(s) =~= s.subrange(0, s.len() as int));
    } else {
        let t = s.drop_first();
        assert(is_wsp(s[0]));
        lemma_trim_front_at(t, i - 1);
        assert(t.subrange(i - 1, t.len() as int) =~= s.subrange(i, s.len() as int));
    }
}

proof fn lemma_trim_back_at(s: Seq<u8>, j: int)
    requires
        0 <= j <= s.len(),
        forall|k: int| j <= k < s.len() ==> is_wsp(s[k]),
        j == 0 || !is_wsp(s[j - 1]),
    ensures
        trim_back(s) =~= s.subrange(0, j),
    decreases s.len() - j,
{
    if j == s.len() {
        assert(trim_back(s) =~= s.subrange(0, j));
    } else {
        let t = s.drop_last();
        assert(is_wsp(s[s.len() - 1]));
        lemma_trim_back_at(t, j);
        assert(t.subrange(0, j) =~= s.subrange(0, j));
    }
}

fn is_wsp_exec(b: u8) -> (r: bool)
    ensures
        r == is_wsp(b),
{
    b == 9 || b == 10 || b == 11 || b == 12 || b == 13 || b == 32
}

/// Strips leading and trailing ASCII whitespace from a byte sequence.
pub fn trim_bytes(v: &[u8]) -> (r: Vec<u8>)
    ensures
        r@ == trimmed(v@),
{
    let mut start: usize = 0;
    while start < v.len() && is_wsp_exec(v[start])
        invariant
            start <= v@.len(),
            forall|k: int| 0 <= k < start ==> is_wsp(v@[k]),
        decreases v@.len() - start,
    {
        start += 1;
    }
    let mut end: usize = v.len();
    while end > start && is_wsp_exec(v[end - 1])
        invariant
            start <= end <= v@.len(),
            forall|k: int| end <= k < v@.len() ==> is_wsp(v@[k]),
        decreases end,
    {
        end -= 1;
    }
    let mut r: Vec<u8> = Vec::new();
    let mut i: usize = start;
    while i < end
        invariant
            start <= i <= end <= v@.len(),
            r@ == v@.subrange(start as int, i as int),
        decreases end - i,
    {
        r.push(v[i]);
        assert(v@.subrange(start as int, i + 1 as int) =~= v@.subrange(start as int, i as int)
            .push(v@[i as int]));
        i += 1;
    }
    proof {
        lemma_trim_front_at(v@, start as int);
        let f = v@.subrange(start as int, v@.len() as int);
        lemma_trim_back_at(f, end - start as int);
        assert(f.subrange(0, end - start as int) =~= v@.subrange(start as int, end as int));
    }
    r
}

// ---------------------------------------------------------------------------
// Trusted views of the cryptographic primitives
// ---------------------------------------------------------------------------

/// The 32-byte digest computed by blake3's keyed hash for a key and message.
pub uninterp spec fn blake3_mac(key: Seq<u8>, msg: Seq<u8>) -> Seq<u8>;

/// The 64-byte signature computed by ed25519 for a seed and message.
pub uninterp spec fn ed25519_signature(seed: Seq<u8>, msg: Seq<u8>) -> Seq<u8>;

/// The 32-byte verifying key derived from an ed25519 seed.
pub uninterp spec fn ed25519_public_key(seed: Seq<u8>) -> Seq<u8>;

/// Whether 32 bytes parse as an ed25519 verifying key.
pub uninterp spec fn ed25519_key_valid(pk: Seq<u8>) -> bool;

/// Whether ed25519 verification accepts a signature over a message under a
/// verifying key.
pub uninterp spec fn ed25519_accepts(pk: Seq<u8>, msg: Seq<u8>, sig: Seq<u8>) -> bool;

/// Relies on `blake3::keyed_hash`: a 32-byte digest that depends on the key
/// and message alone.
#[verifier::external_body]
fn keyed_hash(key: &[u8], message: &[u8]) -> (r: Vec<u8>)
    requires
        key@.len() == 32,
    ensures
        r@ == blake3_mac(key@, message@),
        r@.len() == 32,
{
    let key32: &[u8; 32] = key.try_into().unwrap();
    blake3::keyed_hash(key32, message).as_bytes().to_vec()
}

/// Relies on `blake3::keyed_hash` and the constant-time equality of
/// `blake3::Hash`: true exactly when the candidate equals the digest of the
/// key and message.
#[verifier::external_body]
fn keyed_hash_eq(key: &[u8], message: &[u8], candidate: &[u8]) -> (r: bool)
    requires
        key@.len() == 32,
        candidate@.len() == 32,
    ensures
        r == (candidate@ == blake3_mac(key@, message@)),
{
    let key32: &[u8; 32] = key.try_into().unwrap();
    let cand: [u8; 32] = candidate.try_into().unwrap();
    blake3::keyed_hash(key32, message) == blake3::Hash::from_bytes(cand)
}

/// Relies on `ed25519_dalek::SigningKey::{from_bytes, sign}`: a deterministic
/// 64-byte signature that the seed's own verifying key accepts.
#[verifier::external_body]
fn ed25519_sign_bytes(seed: &[u8], message: &[u8]) -> (r: Vec<u8>)
    requires
        seed@.len() == 32,
    ensures
        r@ == ed25519_signature(seed@, message@),
        r@.len() == 64,
        ed25519_accepts(ed25519_public_key(seed@), message@, r@),
{
    let sk = ed25519_dalek::SigningKey::from_bytes(seed.try_into().unwrap());
    sk.sign(message).to_bytes().to_vec()
}

/// Relies on `ed25519_dalek::SigningKey::verifying_key`: the 32-byte public
/// key belonging to a seed, always a parseable curve point.
#[verifier::external_body]
fn ed25519_derive_public_key(seed: &[u8]) -> (r: Vec<u8>)
    requires
        seed@.len() == 32,
    ensures
        r@ == ed25519_public_key(seed@),
        r@.len() == 32,
        ed25519_key_valid(r@),
{
    let sk = ed25519_dalek::SigningKey::from_bytes(seed.try_into().unwrap());
    sk.verifying_key().to_bytes().to_vec()
}

/// Relies on `ed25519_dalek::VerifyingKey::from_bytes`: whether the bytes
/// decompress to a curve point.
#[verifier::external_body]
fn ed25519_parse_public_key(pk: &[u8]) -> (r: bool)
    requires
        pk@.len() == 32,
    ensures
        r == ed25519_key_valid(pk@),
{
    ed25519_dalek::VerifyingKey::from_bytes(pk.try_into().unwrap()).is_ok()
}

/// Relies on `ed25519_dalek::VerifyingKey::{from_bytes, verify}` and
/// `Signature::from_bytes`: deterministic acceptance of a signature over a
/// message under a parseable verifying key.
#[verifier::external_body]
fn ed25519_verify_bytes(pk: &[u8], message: &[u8], sig: &[u8]) -> (r: bool)
    requires
        pk@.len() == 32,
        sig@.len() == 64,
        ed25519_key_valid(pk@),
    ensures
        r == ed25519_accepts(pk@, message@, sig@),
{
    let key = ed25519_dalek::VerifyingKey::from_bytes(pk.try_into().unwrap()).unwrap();
    let sig = ed25519_dalek::Signature::from_bytes(sig.try_into().unwrap());
    key.verify(message, &sig).is_ok()
}

/// Relies on `rand::rngs::OsRng` through `RngCore::fill_bytes`: bytes drawn
/// from the operating system's entropy source; nothing is promised of their
/// values.
#[verifier::external_body]
fn random_bytes(len: usize) -> (r: Vec<u8>)
    ensures
        r@.len() == len,
{
    let mut buf = vec![0u8; len];
    rand::RngCore::fill_bytes(&mut rand::rngs::OsRng, &mut buf);
    buf
}

// ---------------------------------------------------------------------------
// Engines
// ---------------------------------------------------------------------------

/// A capability to produce a detached signature over a byte stream.
pub trait TextSign {
    /// Well-formedness of the engine's key material.
    spec fn wf(&self) -> bool;

    /// What this engine's `sign` promises of its result.
    spec fn sign_ens(&self, msg: Seq<u8>, r: Result<Vec<u8>, CryptError>) -> bool;

    fn sign(&self, message: &[u8]) -> (r: Result<Vec<u8>, CryptError>)
        requires
            self.wf(),
        ensures
            self.sign_ens(message@, r),
    ;
}

/// A capability to check a detached signature over a byte stream.
pub trait TextVerify {
    /// Well-formedness of the engine's key material.
    spec fn wf(&self) -> bool;

    /// What this engine's `verify` promises of its result.
    spec fn verify_ens(&self, msg: Seq<u8>, sig: Seq<u8>, r: Result<bool, CryptError>) -> bool;

    fn verify(&self, message: &[u8], signature: Vec<u8>) -> (r: Result<bool, CryptError>)
        requires
            self.wf(),
        ensures
            self.verify_ens(message@, signature@, r),
    ;
}

/// The blake3 keyed-hash engine: signs and verifies under one 32-byte secret.
pub struct Blake3 {
    key: Vec<u8>,
}

impl Blake3 {
    /// The engine's key bytes.
    pub closed spec fn key_spec(&self) -> Seq<u8> {
        self.key@
    }

    /// Builds the engine from exactly 32 key bytes; any other length is an
    /// `InvalidKeyLength` error.
    pub fn try_new(key: &[u8]) -> (r: Result<Self, CryptError>)
        ensures
            key@.len() == 32 ==> (r matches Ok(b) && b.key_spec().len() == 32 && b.key_spec() == key@),
            key@.len() != 32 ==> r == Err::<Blake3, CryptError>(CryptError::InvalidKeyLength),
    {
        if key.len() == 32 {
            Ok(Blake3 { key: vstd::slice::slice_to_vec(key) })
        } else {
            Err(CryptError::InvalidKeyLength)
        }
    }

    /// Builds the engine from a 32-byte key.
    pub fn new(key: Vec<u8>) -> (r: Self)
        requires
            key@.len() == 32,
        ensures
            r.key_spec().len() == 32,
            r.key_spec() == key@,
    {
        Blake3 { key }
    }
}

impl TextSign for Blake3 {
    open spec fn wf(&self) -> bool {
        self.key_spec().len() == 32
    }

    open spec fn sign_ens(&self, msg: Seq<u8>, r: Result<Vec<u8>, CryptError>) -> bool {
        r matches Ok(s) && s@ == blake3_mac(self.key_spec(), trimmed(msg)) && s@.len() == 32
    }

    fn sign(&self, message: &[u8]) -> (r: Result<Vec<u8>, CryptError>) {
        let t = trim_bytes(message);
        Ok(keyed_hash(self.key.as_slice(), t.as_slice()))
    }
}

impl TextVerify for Blake3 {
    open spec fn wf(&self) -> bool {
        self.key_spec().len() == 32
    }

    open spec fn verify_ens(&self, msg: Seq<u8>, sig: Seq<u8>, r: Result<bool, CryptError>) -> bool {
        if sig.len() == 32 {
            r == Ok::<bool, CryptError>(sig == blake3_mac(self.key_spec(), trimmed(msg)))
        } else {
            r == Err::<bool, CryptError>(CryptError::EncodingError)
        }
    }

    fn verify(&self, message: &[u8], signature: Vec<u8>) -> (r: Result<bool, CryptError>) {
        if signature.len() != 32 {
            return Err(CryptError::EncodingError);
        }
        let t = trim_bytes(message);
        Ok(keyed_hash_eq(self.key.as_slice(), t.as_slice(), signature.as_slice()))
    }
}

/// The ed25519 signing engine, keyed by a 32-byte seed.
pub struct Ed25519Sign {
    key: Vec<u8>,
}

impl Ed25519Sign {
    /// The engine's seed bytes.
    pub closed spec fn key_spec(&self) -> Seq<u8> {
        self.key@
    }

    /// Builds the engine from exactly 32 seed bytes.
    pub fn try_new(key: &[u8]) -> (r: Result<Self, CryptError>)
        ensures
            key@.len() == 32 ==> (r matches Ok(b) && b.key_spec().len() == 32 && b.key_spec() == key@),
            key@.len() != 32 ==> r == Err::<Ed25519Sign, CryptError>(CryptError::InvalidKeyLength),
    {
        if key.len() == 32 {
            Ok(Ed25519Sign { key: vstd::slice::slice_to_vec(key) })
        } else {
            Err(CryptError::InvalidKeyLength)
        }
    }

    /// The verifying key that accepts this signer's signatures.
    pub fn public_key(&self) -> (r: Vec<u8>)
        requires
            self.wf(),
        ensures
            r@ == ed25519_public_key(self.key_spec()),
            r@.len() == 32,
            ed25519_key_valid(r@),
    {
        ed25519_derive_public_key(self.key.as_slice())
    }
}

impl TextSign for Ed25519Sign {
    open spec fn wf(&self) -> bool {
        self.key_spec().len() == 32
    }

    open spec fn sign_ens(&self, msg: Seq<u8>, r: Result<Vec<u8>, CryptError>) -> bool {
        r matches Ok(s) && s@ == ed25519_signature(self.key_spec(), trimmed(msg)) && s@.len() == 64
            && ed25519_accepts(ed25519_public_key(self.key_spec()), trimmed(msg), s@)
    }

    fn sign(&self, message: &[u8]) -> (r: Result<Vec<u8>, CryptError>) {
        let t = trim_bytes(message);
        Ok(ed25519_sign_bytes(self.key.as_slice(), t.as_slice()))
    }
}

/// The ed25519 verifying engine, keyed by a 32-byte public key.
pub struct Ed25519Verify {
    key: Vec<u8>,
}

impl Ed25519Verify {
    /// The engine's public-key bytes.
    pub closed spec fn key_spec(&self) -> Seq<u8> {
        self.key@
    }

    /// Builds the engine from exactly 32 public-key bytes.  Whether the bytes
    /// decompress to a curve point is checked by `verify`.
    pub fn try_new(key: &[u8]) -> (r: Result<Self, CryptError>)
        ensures
            key@.len() == 32 ==> (r matches Ok(b) && b.key_spec().len() == 32 && b.key_spec() == key@),
            key@.len() != 32 ==> r == Err::<Ed25519Verify, CryptError>(
                CryptError::InvalidKeyLength,
            ),
    {
        if key.len() == 32 {
            Ok(Ed25519Verify { key: vstd::slice::slice_to_vec(key) })
        } else {
            Err(CryptError::InvalidKeyLength)
        }
    }
}

impl TextVerify for Ed25519Verify {
    open spec fn wf(&self) -> bool {
        self.key_spec().len() == 32
    }

    open spec fn verify_ens(&self, msg: Seq<u8>, sig: Seq<u8>, r: Result<bool, CryptError>) -> bool {
        if sig.len() != 64 {
            r == Err::<bool, CryptError>(CryptError::EncodingError)
        } else if !ed25519_key_valid(self.key_spec()) {
            r == Err::<bool, CryptError>(CryptError::InvalidKeyLength)
        } else {
            r == Ok::<bool, CryptError>(ed25519_accepts(self.key_spec(), trimmed(msg), sig))
        }
    }

    fn verify(&self, message: &[u8], signature: Vec<u8>) -> (r: Result<bool, CryptError>) {
        if signature.len() != 64 {
            return Err(CryptError::EncodingError);
        }
        if !ed25519_parse_public_key(self.key.as_slice()) {
            return Err(CryptError::InvalidKeyLength);
        }
        let t = trim_bytes(message);
        Ok(ed25519_verify_bytes(self.key.as_slice(), t.as_slice(), signature.as_slice()))
    }
}

// ---------------------------------------------------------------------------
// Format selection and the top-level operations
// ---------------------------------------------------------------------------

/// The closed set of signing algorithms.
#[derive(Debug, Clone, Copy, PartialEq, Eq, Structural)]
pub enum TextSignFormat {
    Blake3,
    Ed25519,
}

/// The byte sequence `"blake3"`.
pub open spec fn blake3_name() -> Seq<u8> {
    seq![98u8, 108u8, 97u8, 107u8, 101u8, 51u8]
}

/// The byte sequence `"ed25519"`.
pub open spec fn ed25519_name() -> Seq<u8> {
    seq![101u8, 100u8, 50u8, 53u8, 53u8, 49u8, 57u8]
}

/// Parses a signing-format name, ignoring ASCII case.
pub fn parse_format(s: &str) -> (r: Result<TextSignFormat, &'static str>)
    ensures
        lower_bytes(s.spec_bytes()) == blake3_name() ==> r == Ok::<TextSignFormat, &'static str>(
            TextSignFormat::Blake3,
        ),
        lower_bytes(s.spec_bytes()) == ed25519_name() ==> r == Ok::<TextSignFormat, &'static str>(
            TextSignFormat::Ed25519,
        ),
        lower_bytes(s.spec_bytes()) != blake3_name() && lower_bytes(s.spec_bytes())
            != ed25519_name() ==> r matches Err(_),
{
    let b = s.as_bytes();
    let blake3_text: Vec<u8> = vec![98u8, 108u8, 97u8, 107u8, 101u8, 51u8];
    let ed25519_text: Vec<u8> = vec![101u8, 100u8, 50u8, 53u8, 53u8, 49u8, 57u8];
    proof {
        assert(blake3_text@ =~= blake3_name());
        assert(ed25519_text@ =~= ed25519_name());
        assert(lower_bytes(blake3_name()) =~= blake3_name());
        assert(lower_bytes(ed25519_name()) =~= ed25519_name());
    }
    if crate::ascii::eq_ignore_ascii_case(b, blake3_text.as_slice()) {
        Ok(TextSignFormat::Blake3)
    } else if crate::ascii::eq_ignore_ascii_case(b, ed25519_text.as_slice()) {
        Ok(TextSignFormat::Ed25519)
    } else {
        Err("Invalid file format")
    }
}

/// The blake3 signature over a message: the keyed digest of its trimmed form.
pub open spec fn keyed_sig(key: Seq<u8>, msg: Seq<u8>) -> Seq<u8> {
    blake3_mac(key, trimmed(msg))
}

/// The ed25519 signature over a message: the deterministic signature of its
/// trimmed form under the seed.
pub open spec fn ed25519_sig(seed: Seq<u8>, msg: Seq<u8>) -> Seq<u8> {
    ed25519_signature(seed, trimmed(msg))
}

/// What [`sign`] promises of its text output for the blake3 format and a
/// 32-byte key: the text is the framed keyed digest, and nothing else frames
/// to it.
pub open spec fn keyed_sign_output(key: Seq<u8>, msg: Seq<u8>, s: Seq<char>) -> bool {
    &&& s == b64_url_nopad(keyed_sig(key, msg))
    &&& keyed_sig(key, msg).len() == 32
    &&& forall|b: Seq<u8>| b64_url_nopad(b) == s ==> b == keyed_sig(key, msg)
}

/// What [`sign`] promises of its text output for the ed25519 format and a
/// 32-byte seed: the text is the framed signature, nothing else frames to it,
/// and the seed's own verifying key accepts the signature.
pub open spec fn ed25519_sign_output(seed: Seq<u8>, msg: Seq<u8>, s: Seq<char>) -> bool {
    &&& s == b64_url_nopad(ed25519_sig(seed, msg))
    &&& ed25519_sig(seed, msg).len() == 64
    &&& forall|b: Seq<u8>| b64_url_nopad(b) == s ==> b == ed25519_sig(seed, msg)
    &&& ed25519_accepts(ed25519_public_key(seed), trimmed(msg), ed25519_sig(seed, msg))
}

/// What [`verify`] promises for the blake3 format: malformed framing or a
/// digest of the wrong length is an `EncodingError`, a key of the wrong
/// length an `InvalidKeyLength`, and otherwise the result says exactly
/// whether the framed bytes are the keyed digest of the trimmed message.
pub open spec fn keyed_verify_result(
    key: Seq<u8>,
    msg: Seq<u8>,
    sig_text: Seq<char>,
    r: Result<bool, CryptError>,
) -> bool {
    &&& (forall|b: Seq<u8>| b64_url_nopad(b) != sig_text) ==> r == Err::<bool, CryptError>(
        CryptError::EncodingError,
    )
    &&& (forall|b: Seq<u8>|
        b64_url_nopad(b) == sig_text && b.len() != 32 ==> r == Err::<bool, CryptError>(
            CryptError::EncodingError,
        ))
    &&& (exists|b: Seq<u8>| b64_url_nopad(b) == sig_text && b.len() == 32) && key.len() != 32
        ==> r == Err::<bool, CryptError>(CryptError::InvalidKeyLength)
    &&& key.len() == 32 ==> (forall|b: Seq<u8>|
        b64_url_nopad(b) == sig_text && b.len() == 32 ==> r == Ok::<bool, CryptError>(
            b == keyed_sig(key, msg),
        ))
}

/// What [`verify`] promises for the ed25519 format; a public key that does
/// not decompress to a curve point is reported as `InvalidKeyLength`.
pub open spec fn ed25519_verify_result(
    pk: Seq<u8>,
    msg: Seq<u8>,
    sig_text: Seq<char>,
    r: Result<bool, CryptError>,
) -> bool {
    &&& (forall|b: Seq<u8>| b64_url_nopad(b) != sig_text) ==> r == Err::<bool, CryptError>(
        CryptError::EncodingError,
    )
    &&& (forall|b: Seq<u8>|
        b64_url_nopad(b) == sig_text && b.len() != 64 ==> r == Err::<bool, CryptError>(
            CryptError::EncodingError,
        ))
    &&& (exists|b: Seq<u8>| b64_url_nopad(b) == sig_text && b.len() == 64) && pk.len() != 32 ==> r
        == Err::<bool, CryptError>(CryptError::InvalidKeyLength)
    &&& (exists|b: Seq<u8>| b64_url_nopad(b) == sig_text && b.len() == 64) && pk.len() == 32
        && !ed25519_key_valid(pk) ==> r == Err::<bool, CryptError>(CryptError::InvalidKeyLength)
    &&& pk.len() == 32 && ed25519_key_valid(pk) ==> (forall|b: Seq<u8>|
        b64_url_nopad(b) == sig_text && b.len() == 64 ==> r == Ok::<bool, CryptError>(
            ed25519_accepts(pk, trimmed(msg), b),
        ))
}

/// Signs a message under the selected algorithm and frames the signature as
/// url-safe base64 without padding.
///
/// The key must be exactly 32 bytes (a blake3 secret or an ed25519 seed);
/// any other length is an `InvalidKeyLength` error.  The blake3 output frames
/// a 32-byte digest into 43 characters, the ed25519 output a 64-byte
/// signature into 86 characters.
pub fn sign(message: &[u8], key: &[u8], format: TextSignFormat) -> (r: Result<String, CryptError>)
    ensures
        key@.len() != 32 ==> r == Err::<String, CryptError>(CryptError::InvalidKeyLength),
        format == TextSignFormat::Blake3 && key@.len() == 32 ==> (r matches Ok(s)
            && keyed_sign_output(key@, message@, s@) && s@.len() == 43),
        format == TextSignFormat::Ed25519 && key@.len() == 32 ==> (r matches Ok(s)
            && ed25519_sign_output(key@, message@, s@) && s@.len() == 86),
{
    match format {
        TextSignFormat::Blake3 => {
            let signer = match Blake3::try_new(key) {
                Ok(b) => b,
                Err(e) => { return Err(e) },
            };
            let sig = match signer.sign(message) {
                Ok(s) => s,
                Err(e) => { return Err(e) },
            };
            Ok(encode_url_safe_no_pad(sig.as_slice()))
        },
        TextSignFormat::Ed25519 => {
            let signer = match Ed25519Sign::try_new(key) {
                Ok(b) => b,
                Err(e) => { return Err(e) },
            };
            let sig = match signer.sign(message) {
                Ok(s) => s,
                Err(e) => { return Err(e) },
            };
            Ok(encode_url_safe_no_pad(sig.as_slice()))
        },
    }
}

/// Checks a framed signature over a message under the selected algorithm.
///
/// A mismatch is the answer `Ok(false)`, not an error; errors are reserved
/// for text that is not canonical base64, a framed signature of the wrong
/// length, and key material of the wrong shape.
pub fn verify(message: &[u8], key: &[u8], format: TextSignFormat, signature: &str) -> (r: Result<
    bool,
    CryptError,
>)
    ensures
        format == TextSignFormat::Blake3 ==> keyed_verify_result(key@, message@, signature@, r),
        format == TextSignFormat::Ed25519 ==> ed25519_verify_result(key@, message@, signature@, r),
{
    let sig = match decode_url_safe_no_pad(signature) {
        Ok(v) => v,
        Err(e) => { return Err(e) },
    };
    match format {
        TextSignFormat::Blake3 => {
            if sig.len() != 32 {
                return Err(CryptError::EncodingError);
            }
            let verifier = match Blake3::try_new(key) {
                Ok(b) => b,
                Err(e) => { return Err(e) },
            };
            verifier.verify(message, sig)
        },
        TextSignFormat::Ed25519 => {
            if sig.len() != 64 {
                return Err(CryptError::EncodingError);
            }
            let verifier = match Ed25519Verify::try_new(key) {
                Ok(b) => b,
                Err(e) => { return Err(e) },
            };
            verifier.verify(message, sig)
        },
    }
}

/// Produces fresh key material for the selected algorithm: 32 bytes from the
/// operating system's entropy source for blake3.  Ed25519 key generation is a
/// documented capability gap.
pub fn generate_key(format: TextSignFormat) -> (r: Result<Vec<u8>, CryptError>)
    ensures
        format == TextSignFormat::Blake3 ==> (r matches Ok(k) && k@.len() == 32),
        format == TextSignFormat::Ed25519 ==> r == Err::<Vec<u8>, CryptError>(
            CryptError::NotImplemented,
        ),
{
    match format {
        TextSignFormat::Blake3 => Ok(random_bytes(32)),
        TextSignFormat::Ed25519 => Err(CryptError::NotImplemented),
    }
}

// ---------------------------------------------------------------------------
// Laws
// ---------------------------------------------------------------------------

/// Round trip for the keyed-hash engine: whatever [`verify`] answers for a
/// text that [`sign`] produced over the same 32-byte key and message, the
/// answer is `Ok(true)`.
pub proof fn lemma_keyed_sign_verify_round_trip(
    key: Seq<u8>,
    msg: Seq<u8>,
    s: Seq<char>,
    r: Result<bool, CryptError>,
)
    requires
        key.len() == 32,
        keyed_sign_output(key, msg, s),
        keyed_verify_result(key, msg, s, r),
    ensures
        r == Ok::<bool, CryptError>(true),
{
    let b0 = keyed_sig(key, msg);
    assert(b64_url_nopad(b0) == s && b0.len() == 32);
    assert(r == Ok::<bool, CryptError>(b0 == keyed_sig(key, msg)));
}

/// Tamper sensitivity for the keyed-hash engine: a framed 32-byte value that
/// differs anywhere from the signature of the key and message makes
/// [`verify`] answer `Ok(false)` — never an altered acceptance.
pub proof fn lemma_keyed_verify_rejects_altered_signature(
    key: Seq<u8>,
    msg: Seq<u8>,
    b: Seq<u8>,
    s: Seq<char>,
    r: Result<bool, CryptError>,
)
    requires
        key.len() == 32,
        b.len() == 32,
        b != keyed_sig(key, msg),
        b64_url_nopad(b) == s,
        keyed_verify_result(key, msg, s, r),
    ensures
        r == Ok::<bool, CryptError>(false),
{
    assert(r == Ok::<bool, CryptError>(b == keyed_sig(key, msg)));
}

/// Key-length enforcement for the keyed-hash engine: a text that frames a
/// 32-byte signature, presented with a key of any other length, makes
/// [`verify`] answer `InvalidKeyLength`.
pub proof fn lemma_keyed_verify_rejects_wrong_key_length(
    key: Seq<u8>,
    msg: Seq<u8>,
    b: Seq<u8>,
    s: Seq<char>,
    r: Result<bool, CryptError>,
)
    requires
        key.len() != 32,
        b.len() == 32,
        b64_url_nopad(b) == s,
        keyed_verify_result(key, msg, s, r),
    ensures
        r == Err::<bool, CryptError>(CryptError::InvalidKeyLength),
{
    assert(exists|b2: Seq<u8>| b64_url_nopad(b2) == s && b2.len() == 32) by {
        assert(b64_url_nopad(b) == s && b.len() == 32);
    }
}

/// Key-length enforcement for the ed25519 engine: a text that frames a
/// 64-byte signature, presented with a key of any other length, makes
/// [`verify`] answer `InvalidKeyLength`.
pub proof fn lemma_ed25519_verify_rejects_wrong_key_length(
    pk: Seq<u8>,
    msg: Seq<u8>,
    b: Seq<u8>,
    s: Seq<char>,
    r: Result<bool, CryptError>,
)
    requires
        pk.len() != 32,
        b.len() == 64,
        b64_url_nopad(b) == s,
        ed25519_verify_result(pk, msg, s, r),
    ensures
        r == Err::<bool, CryptError>(CryptError::InvalidKeyLength),
{
    assert(exists|b2: Seq<u8>| b64_url_nopad(b2) == s && b2.len() == 64) by {
        assert(b64_url_nopad(b) == s && b.len() == 64);
    }
}

/// Round trip for the ed25519 engine: whatever [`verify`] answers, under the
/// seed's own verifying key, for a text that [`sign`] produced over the same
/// message, the answer is `Ok(true)`.
pub proof fn lemma_ed25519_sign_verify_round_trip(
    seed: Seq<u8>,
    pk: Seq<u8>,
    msg: Seq<u8>,
    s: Seq<char>,
    r: Result<bool, CryptError>,
)
    requires
        seed.len() == 32,
        pk == ed25519_public_key(seed),
        pk.len() == 32,
        ed25519_key_valid(pk),
        ed25519_sign_output(seed, msg, s),
        ed25519_verify_result(pk, msg, s, r),
    ensures
        r == Ok::<bool, CryptError>(true),
{
    let b0 = ed25519_sig(seed, msg);
    assert(b64_url_nopad(b0) == s && b0.len() == 64);
    assert(r == Ok::<bool, CryptError>(ed25519_accepts(pk, trimmed(msg), b0)));
}

} // verus!
