//! Reversible textual framing of binary blobs.
//!
//! Three base64 dialects appear in the tool: the padded standard and url-safe
//! alphabets offered by the `encode`/`decode` text commands, and the url-safe
//! no-padding form in which signatures, encrypted payloads and encryption keys
//! are persisted.  The encodings themselves are performed by the `base64`
//! crate; their outputs are named by uninterpreted functions, and every
//! contract below is stated over those names.

use crate::errors::CryptError;
use base64::Engine;
use vstd::prelude::*;
use vstd::string::StringSliceAdditionalSpecFns;

verus! {

/// The text produced for a byte sequence by base64's `STANDARD` engine
/// (padded, canonical on decode).
pub uninterp spec fn b64_standard(b: Seq<u8>) -> Seq<char>;

/// The text produced for a byte sequence by base64's `URL_SAFE` engine
/// (padded).
pub uninterp spec fn b64_url(b: Seq<u8>) -> Seq<char>;

/// The text produced for a byte sequence by base64's `URL_SAFE_NO_PAD`
/// engine.
pub uninterp spec fn b64_url_nopad(b: Seq<u8>) -> Seq<char>;

/// Relies on `base64::engine::general_purpose::STANDARD.encode`: canonical
/// padded base64, four characters for every three bytes.
#[verifier::external_body]
fn encode_standard(b: &[u8]) -> (r: String)
    ensures
        r@ == b64_standard(b@),
        r@.len() == 4 * ((b@.len() + 2) / 3),
{
    base64::engine::general_purpose::STANDARD.encode(b)
}

/// Relies on `base64::engine::general_purpose::URL_SAFE.encode`: canonical
/// padded url-safe base64, four characters for every three bytes.
#[verifier::external_body]
fn encode_url_safe(b: &[u8]) -> (r: String)
    ensures
        r@ == b64_url(b@),
        r@.len() == 4 * ((b@.len() + 2) / 3),
{
    base64::engine::general_purpose::URL_SAFE.encode(b)
}

/// Relies on `base64::engine::general_purpose::URL_SAFE_NO_PAD.encode`: an
/// unpadded url-safe encoding; it is decodable, so distinct byte sequences
/// encode to distinct texts.
#[verifier::external_body]
pub(crate) fn encode_url_safe_no_pad(b: &[u8]) -> (r: String)
    ensures
        r@ == b64_url_nopad(b@),
        r@.len() == (4 * b@.len() + 2) / 3,
        forall|b2: Seq<u8>| b64_url_nopad(b2) == r@ ==> b2 == b@,
{
    base64::engine::general_purpose::URL_SAFE_NO_PAD.encode(b)
}

/// Relies on `base64::engine::general_purpose::STANDARD.decode`: it accepts
/// exactly the canonical padded encodings (canonical padding required,
/// trailing bits refused) and inverts `encode` on them.
#[verifier::external_body]
fn decode_standard(s: &str) -> (r: Result<Vec<u8>, CryptError>)
    ensures
        r matches Ok(b) ==> b64_standard(b@) == s@,
        r matches Err(e) ==> e == CryptError::EncodingError && (forall|b: Seq<u8>|
            b64_standard(b) != s@),
{
    match base64::engine::general_purpose::STANDARD.decode(s.as_bytes()) {
        Ok(v) => Ok(v),
        Err(_) => Err(CryptError::EncodingError),
    }
}

/// Relies on `base64::engine::general_purpose::URL_SAFE_NO_PAD.decode`: it
/// accepts exactly the canonical unpadded url-safe encodings (padding and
/// trailing bits refused), and returns the unique byte sequence that encodes
/// to its input.
#[verifier::external_body]
pub(crate) fn decode_url_safe_no_pad(s: &str) -> (r: Result<Vec<u8>, CryptError>)
    ensures
        r matches Ok(b) ==> b64_url_nopad(b@) == s@ && (forall|b2: Seq<u8>|
            b64_url_nopad(b2) == s@ ==> b2 == b@),
        r matches Err(e) ==> e == CryptError::EncodingError && (forall|b: Seq<u8>|
            b64_url_nopad(b) != s@),
{
    match base64::engine::general_purpose::URL_SAFE_NO_PAD.decode(s.as_bytes()) {
        Ok(v) => Ok(v),
        Err(_) => Err(CryptError::EncodingError),
    }
}

/// The base64 dialect selected by the `encode`/`decode` text commands.
#[derive(Debug, Clone, Copy, PartialEq, Eq, Structural)]
pub enum Format {
    Standard,
    UrlSafe,
}

/// The byte sequence `"standard"`.
pub open spec fn standard_name() -> Seq<u8> {
    seq![115u8, 116u8, 97u8, 110u8, 100u8, 97u8, 114u8, 100u8]
}

/// The byte sequence `"url_safe"`.
pub open spec fn url_safe_name() -> Seq<u8> {
    seq![117u8, 114u8, 108u8, 95u8, 115u8, 97u8, 102u8, 101u8]
}

/// Parses a base64 dialect name, ignoring ASCII case.
pub fn parse_format(s: &str) -> (r: Result<Format, &'static str>)
    ensures
        crate::ascii::lower_bytes(s.spec_bytes()) == standard_name() ==> r == Ok::<
            Format,
            &'static str,
        >(Format::Standard),
        crate::ascii::lower_bytes(s.spec_bytes()) == url_safe_name() ==> r == Ok::<
            Format,
            &'static str,
        >(Format::UrlSafe),
        crate::ascii::lower_bytes(s.spec_bytes()) != standard_name() && crate::ascii::lower_bytes(
            s.spec_bytes(),
        ) != url_safe_name() ==> r matches Err(_),
{
    let b = s.as_bytes();
    let standard_text: Vec<u8> = vec![115u8, 116u8, 97u8, 110u8, 100u8, 97u8, 114u8, 100u8];
    let url_safe_text: Vec<u8> = vec![117u8, 114u8, 108u8, 95u8, 115u8, 97u8, 102u8, 101u8];
    proof {
        assert(standard_text@ =~= standard_name());
        assert(url_safe_text@ =~= url_safe_name());
        assert(crate::ascii::lower_bytes(standard_name()) =~= standard_name());
        assert(crate::ascii::lower_bytes(url_safe_name()) =~= url_safe_name());
    }
    if crate::ascii::eq_ignore_ascii_case(b, standard_text.as_slice()) {
        Ok(Format::Standard)
    } else if crate::ascii::eq_ignore_ascii_case(b, url_safe_text.as_slice()) {
        Ok(Format::UrlSafe)
    } else {
        Err("Invalid format")
    }
}

/// Frames text as base64.
///
/// Note the asymmetry: `Format::UrlSafe` encodes with padding, while
/// [`decode`] under the same selector reads the unpadded url-safe form in
/// which signatures, payloads and keys are persisted.
pub fn encode(input: &str, format: Format) -> (r: String)
    ensures
        format == Format::Standard ==> r@ == b64_standard(input.spec_bytes()),
        format == Format::UrlSafe ==> r@ == b64_url(input.spec_bytes()),
{
    match format {
        Format::Standard => encode_standard(input.as_bytes()),
        Format::UrlSafe => encode_url_safe(input.as_bytes()),
    }
}

/// Unframes base64 text into the bytes it encodes.
///
/// Succeeds exactly on canonical encodings of the selected dialect; any other
/// text is an `EncodingError`.
pub fn decode(input: &str, format: Format) -> (r: Result<Vec<u8>, CryptError>)
    ensures
        format == Format::Standard ==> {
            &&& r matches Ok(b) ==> b64_standard(b@) == input@
            &&& r matches Err(e) ==> e == CryptError::EncodingError && (forall|b: Seq<u8>|
                b64_standard(b) != input@)
        },
        format == Format::UrlSafe ==> {
            &&& r matches Ok(b) ==> b64_url_nopad(b@) == input@
            &&& r matches Err(e) ==> e == CryptError::EncodingError && (forall|b: Seq<u8>|
                b64_url_nopad(b) != input@)
        },
{
    match format {
        Format::Standard => decode_standard(input),
        Format::UrlSafe => decode_url_safe_no_pad(input),
    }
}

} // verus!
