//! Messages as text: UTF-8 validity of message bytes and the text quoted in
//! error reports.

use vstd::prelude::*;
use vstd::string::*;
use vstd::utf8::*;

verus! {

broadcast use encode_utf8_decode_utf8, encode_utf8_valid_utf8;

/// `core::str::Utf8Error`, carried through without inspection.
#[verifier::external_type_specification]
#[verifier::external_body]
pub struct ExUtf8Error(core::str::Utf8Error);

/// `core::str::from_utf8` succeeds exactly on well-formed UTF-8, and the
/// string slice it returns has the bytes it was given.
pub assume_specification<'a>[ core::str::from_utf8 ](v: &'a [u8]) -> (r: Result<
    &'a str,
    core::str::Utf8Error,
>)
    ensures
        r is Ok <==> valid_utf8(v@),
        r matches Ok(s) ==> s.spec_bytes() == v@,
;

/// Text quoted in place of a message whose bytes are not UTF-8.
pub const UNDECODABLE: &'static str =
    "unable to convert invalid message bytes to string slice; not valid utf8";

/// The text a message is quoted as: its bytes decoded as UTF-8, or the fixed
/// diagnostic when they do not decode.
pub open spec fn text_of(bytes: Seq<u8>) -> Seq<char> {
    if valid_utf8(bytes) {
        decode_utf8(bytes)
    } else {
        UNDECODABLE@
    }
}

/// Whether `bytes` is well-formed UTF-8.
pub fn is_text(bytes: &[u8]) -> (r: bool)
    ensures
        r == valid_utf8(bytes@),
{
    core::str::from_utf8(bytes).is_ok()
}

/// Renders a message for an error report.
pub fn message_text(bytes: &[u8]) -> (r: String)
    ensures
        r@ == text_of(bytes@),
{
    match core::str::from_utf8(bytes) {
        Ok(s) => {
            assert(decode_utf8(encode_utf8(s@)) == s@);
            String::from_str(s)
        },
        Err(_) => String::from_str(UNDECODABLE),
    }
}

} // verus!
