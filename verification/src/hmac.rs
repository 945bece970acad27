//! Normalisation of the message-signing MAC key.
//!
//! A key arrives either as a byte buffer or as a string. The string `none`
//! stands for the absence of a key; every other string is read as base64.

use vstd::prelude::*;
use vstd::string::*;

verus! {

/// Number of bytes in a MAC key.
pub const MAC_KEY_LEN: usize = 32;

/// The word that stands for "no key".
pub const NO_KEY: &'static str = "none";

/// Report text for a buffer of the wrong length.
pub const BYTE_LENGTH_TEXT: &'static str = "hmac key invalid: byte length must equal 32";

/// Report text for a string that is not the base64 form of a key.
pub const NOT_BASE64_TEXT: &'static str = "hmac key invalid: string must be base64 encoded";

/// A MAC key as the caller supplies it.
#[derive(Clone, Debug, PartialEq, Eq)]
pub enum HmacKey {
    /// The key bytes themselves.
    Buf(Vec<u8>),
    /// The word `none`, or the base64 form of the key bytes.
    Str(String),
}

/// Why a supplied key was refused.
#[derive(Clone, Copy, Debug, PartialEq, Eq, Structural)]
pub enum KeyFormatError {
    /// A buffer whose length is not 32.
    ByteLength,
    /// A string that is neither `none` nor the base64 form of 32 bytes.
    NotBase64,
}

impl KeyFormatError {
    /// The text of the report for this error.
    pub open spec fn text(self) -> Seq<char> {
        match self {
            KeyFormatError::ByteLength => BYTE_LENGTH_TEXT@,
            KeyFormatError::NotBase64 => NOT_BASE64_TEXT@,
        }
    }

    /// Renders the error for a report.
    pub fn message(&self) -> (r: String)
        ensures
            r@ == self.text(),
    {
        match self {
            KeyFormatError::ByteLength => String::from_str(BYTE_LENGTH_TEXT),
            KeyFormatError::NotBase64 => String::from_str(NOT_BASE64_TEXT),
        }
    }
}

/// The 32 bytes that a string decodes to as base64, where it is the padded
/// base64 form of 32 bytes, as `ssb_crypto::NetworkKey::from_base64` decides.
pub uninterp spec fn base64_key(s: Seq<char>) -> Option<Seq<u8>>;

/// Calls `ssb_crypto::NetworkKey::from_slice` and copies the key out. The
/// outside function accepts a slice exactly when it has 32 bytes, and the key
/// then holds those bytes.
#[verifier::external_body]
fn key_from_slice(bytes: &[u8]) -> (r: Option<Vec<u8>>)
    ensures
        r is Some <==> bytes@.len() == MAC_KEY_LEN,
        r matches Some(k) ==> k@ == bytes@,
{
    ssb_crypto::NetworkKey::from_slice(bytes).map(|key| key.0.to_vec())
}

/// Calls `ssb_crypto::NetworkKey::from_base64` and copies the key out. The
/// result depends on the string alone; a key that comes back has 32 bytes.
#[verifier::external_body]
fn key_from_base64(s: &str) -> (r: Option<Vec<u8>>)
    ensures
        r is Some <==> base64_key(s@) is Some,
        r matches Some(k) ==> base64_key(s@) == Some(k@) && k@.len() == MAC_KEY_LEN,
{
    ssb_crypto::NetworkKey::from_base64(s).map(|key| key.0.to_vec())
}

/// What a supplied key normalises to: no key, 32 key bytes, or a refusal.
pub open spec fn key_outcome(key: HmacKey) -> Result<Option<Seq<u8>>, KeyFormatError> {
    match key {
        HmacKey::Buf(bytes) => {
            if bytes@.len() == MAC_KEY_LEN {
                Ok(Some(bytes@))
            } else {
                Err(KeyFormatError::ByteLength)
            }
        },
        HmacKey::Str(s) => {
            if s@ == NO_KEY@ {
                Ok(None)
            } else {
                match base64_key(s@) {
                    Some(k) => Ok(Some(k)),
                    None => Err(KeyFormatError::NotBase64),
                }
            }
        },
    }
}

/// The bytes of an optional key.
pub open spec fn key_bytes(key: Option<Vec<u8>>) -> Option<Seq<u8>> {
    match key {
        Some(k) => Some(k@),
        None => None,
    }
}

/// Whether an optional key, if present, has the length of a MAC key.
pub open spec fn well_sized(key: Option<Seq<u8>>) -> bool {
    key matches Some(k) ==> k.len() == MAC_KEY_LEN
}

/// Normalises a supplied key. A buffer is accepted exactly when it holds 32
/// bytes. The string `none` means that no key is used, whatever else it may
/// decode to; any other string must be the base64 form of 32 bytes.
pub fn is_valid_hmac_key(hmac_key: HmacKey) -> (r: Result<Option<Vec<u8>>, KeyFormatError>)
    ensures
        match r {
            Ok(key) => key_outcome(hmac_key) == Ok::<Option<Seq<u8>>, KeyFormatError>(
                key_bytes(key),
            ) && well_sized(key_bytes(key)),
            Err(e) => key_outcome(hmac_key) == Err::<Option<Seq<u8>>, KeyFormatError>(e),
        },
{
    match hmac_key {
        HmacKey::Buf(bytes) => {
            match key_from_slice(bytes.as_slice()) {
                Some(key) => Ok(Some(key)),
                None => Err(KeyFormatError::ByteLength),
            }
        },
        HmacKey::Str(s) => {
            let sentinel = String::from_str(NO_KEY);
            if s == sentinel {
                Ok(None)
            } else {
                match key_from_base64(s.as_str()) {
                    Some(key) => Ok(Some(key)),
                    None => Err(KeyFormatError::NotBase64),
                }
            }
        },
    }
}

} // verus!
