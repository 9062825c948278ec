//! The claims carried by a JSON web token.
//!
//! Only the construction of the claims set is modelled here: parsing the
//! expiration offset and anchoring it at the current time.  Serialising the
//! claims into a signed token runs through serde and belongs to the calling
//! binary.

use crate::errors::CryptError;
use vstd::prelude::*;

verus! {

/// The number of seconds denoted by a duration expression such as `"1d"`,
/// when `duration_str` accepts it.
pub uninterp spec fn duration_seconds(text: Seq<char>) -> Option<u64>;

/// Relies on `duration_str::parse`: a deterministic parse of a duration
/// expression, reported here in whole seconds.
#[verifier::external_body]
fn parse_duration_seconds(text: &str) -> (r: Result<u64, CryptError>)
    ensures
        r matches Ok(secs) ==> duration_seconds(text@) == Some(secs),
        r matches Err(e) ==> e == CryptError::EncodingError && duration_seconds(text@) is None,
{
    match duration_str::parse(text) {
        Ok(d) => Ok(d.as_secs()),
        Err(_) => Err(CryptError::EncodingError),
    }
}

/// Relies on `jsonwebtoken::get_current_timestamp`: the current UTC time in
/// seconds; nothing is promised of its value.  The callee expects a system
/// clock at or after the Unix epoch and aborts on one before it, an
/// environment fault of the same class as entropy exhaustion.
#[verifier::external_body]
fn current_timestamp() -> (r: u64) {
    jsonwebtoken::get_current_timestamp()
}

/// A JSON web token's claims: audience, expiration time (as a UTC timestamp
/// in seconds) and subject.
#[derive(Debug, Clone)]
pub struct Claims {
    pub aud: String,
    pub exp: u64,
    pub sub: String,
}

impl Claims {
    /// Assembles a claims set from its fields.
    pub fn new(aud: String, exp: u64, sub: String) -> (r: Self)
        ensures
            r.aud == aud,
            r.exp == exp,
            r.sub == sub,
    {
        Self { aud, exp, sub }
    }

    /// Builds a claims set whose expiration lies the given duration after the
    /// current time.  A duration expression that `duration_str` rejects is an
    /// `EncodingError`, as is an expiration beyond the range of `u64`.
    pub fn try_new(aud: String, exp: &str, sub: String) -> (r: Result<Self, CryptError>)
        ensures
            duration_seconds(exp@) is None ==> r == Err::<Claims, CryptError>(
                CryptError::EncodingError,
            ),
            r matches Ok(c) ==> c.aud == aud && c.sub == sub && (duration_seconds(exp@)
                matches Some(d) && d <= c.exp),
            r matches Err(e) ==> e == CryptError::EncodingError,
    {
        let duration = match parse_duration_seconds(exp) {
            Ok(d) => d,
            Err(e) => { return Err(e) },
        };
        let now = current_timestamp();
        match duration.checked_add(now) {
            Some(exp_secs) => Ok(Self::new(aud, exp_secs, sub)),
            None => Err(CryptError::EncodingError),
        }
    }
}

} // verus!
