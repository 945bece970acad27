//! Signature verification of message values, with or without a MAC key.
//!
//! The cryptographic check is made by `ssb_verify_signatures`. Before a
//! message is handed to it, its shape is checked here: it must be UTF-8, and
//! the signature token of its `signature` field must be regular (see `scan`).

use crate::hmac::key_bytes;
use crate::key::batch_bytes;
use crate::locate::{faultless, is_first_fault};
use crate::scan::{has_irregular_signature, irregular_signature};
use crate::text::is_text;
use vstd::prelude::*;
use vstd::string::*;
use vstd::utf8::*;

verus! {

/// Cause reported for a message that is not UTF-8.
pub const NOT_TEXT_CAUSE: &'static str = "Message bytes are not valid utf8";

/// Cause reported for a message that parses, but not as an object.
pub const NOT_OBJECT_CAUSE: &'static str = "Message is not a JSON object";

/// Cause reported for a message with a signature token that is not regular.
pub const IRREGULAR_CAUSE: &'static str =
    "Signature string does not encode a canonical ed25519 signature";

/// A message whose signature did not verify, with the cause in words.
#[derive(Clone, Debug, PartialEq, Eq)]
pub struct SignatureError {
    /// The cause, as reported by the check that failed.
    pub detail: String,
}

impl View for SignatureError {
    type V = Seq<char>;

    open spec fn view(&self) -> Seq<char> {
        self.detail@
    }
}

/// The characters of an optional string.
pub open spec fn option_text(o: Option<String>) -> Option<Seq<char>> {
    match o {
        Some(s) => Some(s@),
        None => None,
    }
}

/// What `ssb_verify_signatures::verify_message_value` decides of a message
/// and an optional MAC key: nothing when the signature verifies, else the
/// text of the error it returns.
pub uninterp spec fn signature_verdict(msg: Seq<u8>, mac: Option<Seq<u8>>) -> Option<Seq<char>>;

/// How a message reads as JSON.
#[derive(Clone, Debug, PartialEq, Eq)]
pub enum Envelope {
    /// The message does not parse.
    Unreadable,
    /// The message parses, but not as an object.
    NotObject,
    /// The message is an object; with it, the string in its `signature`
    /// field, if the field holds a string.
    Object(Option<String>),
}

/// How a message reads as JSON, as mathematics.
pub enum EnvelopeView {
    /// The message does not parse.
    Unreadable,
    /// The message parses, but not as an object.
    NotObject,
    /// The message is an object; with it, the string in its `signature`
    /// field, if the field holds a string.
    Object(Option<Seq<char>>),
}

impl View for Envelope {
    type V = EnvelopeView;

    open spec fn view(&self) -> EnvelopeView {
        match self {
            Envelope::Unreadable => EnvelopeView::Unreadable,
            Envelope::NotObject => EnvelopeView::NotObject,
            Envelope::Object(field) => EnvelopeView::Object(option_text(*field)),
        }
    }
}

/// How a message reads as JSON when `ssb_legacy_msg_data` parses it as a
/// `Value`.
pub uninterp spec fn envelope_of(msg: Seq<u8>) -> EnvelopeView;

/// Whether a verifier must not be handed the message. That is so where the
/// message parses as anything but an object, and where it is an object
/// whose `signature` field holds a leftmost signature token that is not
/// regular.
pub open spec fn unsafe_signature(msg: Seq<u8>) -> bool {
    match envelope_of(msg) {
        EnvelopeView::Unreadable => false,
        EnvelopeView::NotObject => true,
        EnvelopeView::Object(field) => field is Some && irregular_signature(encode_utf8(field->0)),
    }
}

/// Parses a message with `ssb_legacy_msg_data::json::from_slice` as a
/// `Value`, tells an object from any other value, and looks up the entry
/// `signature` of an object. The result depends on the message alone.
#[verifier::external_body]
fn outside_envelope(msg: &[u8]) -> (r: Envelope)
    ensures
        r@ == envelope_of(msg@),
{
    match ssb_legacy_msg_data::json::from_slice::<ssb_legacy_msg_data::value::Value>(msg) {
        Ok(ssb_legacy_msg_data::value::Value::Object(fields)) => match fields.get("signature") {
            Some(ssb_legacy_msg_data::value::Value::String(s)) => Envelope::Object(Some(s.clone())),
            _ => Envelope::Object(None),
        },
        Ok(_) => Envelope::NotObject,
        Err(_) => Envelope::Unreadable,
    }
}

/// Calls `ssb_verify_signatures::verify_message_value` and renders its error
/// as text. The result depends on the message and the key alone.
///
/// The outside function begins with the parse that `outside_envelope` makes
/// and returns an error where it fails. It then reads the signature and the
/// author with a second parser, which takes them from an object by name and
/// from an array by position, and panics where the leftmost signature token
/// of what it read encodes a last byte with one of its three highest bits
/// set. For an object the two parsers read the same string, or the second
/// fails. The precondition leaves out every message that is no object, and
/// every object whose token is not regular.
#[verifier::external_body]
fn outside_verify(msg: &[u8], mac: &Option<Vec<u8>>) -> (r: Option<String>)
    requires
        !unsafe_signature(msg@),
    ensures
        option_text(r) == signature_verdict(msg@, key_bytes(*mac)),
{
    match ssb_verify_signatures::verify_message_value(msg, mac.as_deref()) {
        Ok(()) => None,
        Err(e) => Some(e.to_string()),
    }
}

/// Calls `ssb_verify_signatures::par_verify_message_values` with its default
/// chunk size and renders its error as text. The outside function reads each
/// message as `verify_message_value` does and verifies the signatures chunk
/// by chunk, with random coefficients. Its outcome on a batch that holds a
/// message need not agree with the checks of the messages alone, in either
/// direction, so only this is stated: a batch without messages has no chunk
/// and passes. The outside function panics as `verify_message_value` does.
#[verifier::external_body]
pub(crate) fn outside_verify_all(msgs: &Vec<Vec<u8>>, mac: &Option<Vec<u8>>) -> (r: Option<String>)
    requires
        forall|i: int| 0 <= i < msgs@.len() ==> !unsafe_signature(#[trigger] msgs@[i]@),
    ensures
        msgs@.len() == 0 ==> r is None,
{
    match ssb_verify_signatures::par_verify_message_values(msgs.as_slice(), mac.as_deref(), None) {
        Ok(()) => None,
        Err(e) => Some(e.to_string()),
    }
}

/// The fault in the shape of a message, if any: bytes that are not UTF-8,
/// JSON that is no object, or a `signature` field whose signature token is
/// not regular.
pub open spec fn shape_fault(msg: Seq<u8>) -> Option<Seq<char>> {
    if !valid_utf8(msg) {
        Some(NOT_TEXT_CAUSE@)
    } else if envelope_of(msg) is NotObject {
        Some(NOT_OBJECT_CAUSE@)
    } else if unsafe_signature(msg) {
        Some(IRREGULAR_CAUSE@)
    } else {
        None
    }
}

/// The fault of a message's signature, if any: a fault in its shape, or else
/// what the cryptographic check decides.
pub open spec fn signature_fault(msg: Seq<u8>, mac: Option<Seq<u8>>) -> Option<Seq<char>> {
    match shape_fault(msg) {
        Some(cause) => Some(cause),
        None => signature_verdict(msg, mac),
    }
}

/// The shape faults of a batch, message by message.
pub open spec fn shape_faults(msgs: Seq<Seq<u8>>) -> Seq<Option<Seq<char>>> {
    Seq::new(msgs.len(), |i: int| shape_fault(msgs[i]))
}

/// The signature faults of a batch, message by message.
pub open spec fn signature_faults(msgs: Seq<Seq<u8>>, mac: Option<Seq<u8>>) -> Seq<
    Option<Seq<char>>,
> {
    Seq::new(msgs.len(), |i: int| signature_fault(msgs[i], mac))
}

/// Checks the shape of one message.
pub fn check_shape(msg: &[u8]) -> (r: Option<String>)
    ensures
        option_text(r) == shape_fault(msg@),
{
    if !is_text(msg) {
        return Some(String::from_str(NOT_TEXT_CAUSE));
    }
    match outside_envelope(msg) {
        Envelope::Unreadable => None,
        Envelope::NotObject => Some(String::from_str(NOT_OBJECT_CAUSE)),
        Envelope::Object(None) => None,
        Envelope::Object(Some(field)) => {
            if has_irregular_signature(field.as_str().as_bytes()) {
                Some(String::from_str(IRREGULAR_CAUSE))
            } else {
                None
            }
        },
    }
}

/// Verifies the signature of one message. With a key, the signed bytes are
/// passed through the keyed MAC before the signature is checked.
pub fn verify(msg: &[u8], mac: &Option<Vec<u8>>) -> (r: Result<(), SignatureError>)
    ensures
        match r {
            Ok(()) => signature_fault(msg@, key_bytes(*mac)) is None,
            Err(e) => signature_fault(msg@, key_bytes(*mac)) == Some(e@),
        },
{
    match check_shape(msg) {
        Some(detail) => Err(SignatureError { detail }),
        None => match outside_verify(msg, mac) {
            Some(detail) => Err(SignatureError { detail }),
            None => Ok(()),
        },
    }
}

/// Finds the first message of a batch with a fault in its shape, and the
/// cause.
pub fn first_shape_fault(msgs: &Vec<Vec<u8>>) -> (r: Option<(usize, String)>)
    ensures
        match r {
            Some((i, cause)) => is_first_fault(shape_faults(batch_bytes(msgs@)), i as int)
                && shape_fault(msgs@[i as int]@) == Some(cause@),
            None => faultless(shape_faults(batch_bytes(msgs@))),
        },
{
    let ghost faults = shape_faults(batch_bytes(msgs@));
    let mut i: usize = 0;
    while i < msgs.len()
        invariant
            i <= msgs.len(),
            faults == shape_faults(batch_bytes(msgs@)),
            forall|j: int| 0 <= j < i ==> (#[trigger] faults[j]) is None,
        decreases msgs.len() - i,
    {
        assert(faults[i as int] == shape_fault(msgs@[i as int]@));
        match check_shape(msgs[i].as_slice()) {
            Some(cause) => {
                return Some((i, cause));
            },
            None => {},
        }
        i = i + 1;
    }
    None
}

/// Finds the first message among the first `limit` of a batch whose
/// signature does not verify, and the cause. None of those messages may have
/// a fault in its shape.
pub fn first_signature_fault(msgs: &Vec<Vec<u8>>, mac: &Option<Vec<u8>>, limit: usize) -> (r:
    Option<(usize, String)>)
    requires
        limit <= msgs@.len(),
        forall|j: int| 0 <= j < limit ==> (#[trigger] shape_faults(batch_bytes(msgs@))[j]) is None,
    ensures
        match r {
            Some((i, cause)) => i < limit && is_first_fault(
                signature_faults(batch_bytes(msgs@), key_bytes(*mac)),
                i as int,
            ) && signature_fault(msgs@[i as int]@, key_bytes(*mac)) == Some(cause@),
            None => forall|j: int|
                0 <= j < limit ==> (#[trigger] signature_faults(
                    batch_bytes(msgs@),
                    key_bytes(*mac),
                )[j]) is None,
        },
{
    let ghost faults = signature_faults(batch_bytes(msgs@), key_bytes(*mac));
    let mut i: usize = 0;
    while i < limit
        invariant
            i <= limit <= msgs@.len(),
            forall|j: int|
                0 <= j < limit ==> (#[trigger] shape_faults(batch_bytes(msgs@))[j]) is None,
            faults == signature_faults(batch_bytes(msgs@), key_bytes(*mac)),
            forall|j: int| 0 <= j < i ==> (#[trigger] faults[j]) is None,
        decreases limit - i,
    {
        proof {
            assert(shape_faults(batch_bytes(msgs@))[i as int] is None);
            assert(faults[i as int] == signature_fault(msgs@[i as int]@, key_bytes(*mac)));
        }
        match outside_verify(msgs[i].as_slice(), mac) {
            Some(cause) => {
                return Some((i, cause));
            },
            None => {},
        }
        i = i + 1;
    }
    None
}

} // verus!
