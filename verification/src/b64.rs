//! Base64 text of byte strings, through the `base64` crate.
use base64::engine::general_purpose::{STANDARD, URL_SAFE_NO_PAD};
use base64::Engine;
use vstd::prelude::*;

verus! {

/// The declared outside error type of base64 decoding.
#[verifier::external_type_specification]
#[verifier::external_body]
pub struct ExDecodeError(base64::DecodeError);

/// What `URL_SAFE_NO_PAD.encode` returns for `bytes`.
pub uninterp spec fn b64u_text(bytes: Seq<u8>) -> Seq<char>;

/// What `URL_SAFE_NO_PAD.decode` gives for `text`: the bytes, or `None` on a
/// decode error.
pub uninterp spec fn b64u_bytes(text: Seq<char>) -> Option<Seq<u8>>;

/// What `STANDARD.encode` returns for `bytes`.
pub uninterp spec fn b64_std_text(bytes: Seq<u8>) -> Seq<char>;

/// What `STANDARD.decode` gives for `text`: the bytes, or `None` on a decode
/// error.
pub uninterp spec fn b64_std_bytes(text: Seq<char>) -> Option<Seq<u8>>;

/// The characters of the URL-safe base64 alphabet.
pub open spec fn is_b64u_char(c: char) -> bool {
    ('A' <= c && c <= 'Z') || ('a' <= c && c <= 'z') || ('0' <= c && c <= '9') || c == '-'
        || c == '_'
}

/// Wraps `URL_SAFE_NO_PAD.encode` of the `base64` crate. The contract
/// names the text and states two facts of the crate's documentation: the
/// text uses only the URL-safe alphabet (no padding), and decoding it with
/// the same engine gives the bytes back.
#[verifier::external_body]
pub(crate) fn b64u_encode(bytes: &[u8]) -> (res: String)
    ensures
        res@ == b64u_text(bytes@),
        forall|i: int| 0 <= i < res@.len() ==> is_b64u_char(#[trigger] res@[i]),
        b64u_bytes(res@) == Some(bytes@),
{
    URL_SAFE_NO_PAD.encode(bytes)
}

/// Wraps `URL_SAFE_NO_PAD.decode` of the `base64` crate; a decode error
/// becomes `None`.
#[verifier::external_body]
pub(crate) fn b64u_decode(text: &str) -> (res: Option<Vec<u8>>)
    ensures
        res matches Some(v) ==> b64u_bytes(text@) == Some(v@),
        res is None <==> b64u_bytes(text@) is None,
{
    match URL_SAFE_NO_PAD.decode(text) {
        Ok(v) => Some(v),
        Err(_) => None,
    }
}

/// Wraps `STANDARD.encode` of the `base64` crate. The contract names the
/// text and states the documented round trip: decoding it with the same
/// engine gives the bytes back.
#[verifier::external_body]
pub(crate) fn b64_std_encode(bytes: &[u8]) -> (res: String)
    ensures
        res@ == b64_std_text(bytes@),
        b64_std_bytes(res@) == Some(bytes@),
{
    STANDARD.encode(bytes)
}

/// Wraps `STANDARD.decode` of the `base64` crate, which fails with the
/// crate's own error type.
#[verifier::external_body]
pub(crate) fn b64_std_decode(text: &str) -> (res: Result<Vec<u8>, base64::DecodeError>)
    ensures
        res matches Ok(v) ==> b64_std_bytes(text@) == Some(v@),
        res is Err <==> b64_std_bytes(text@) is None,
{
    STANDARD.decode(text)
}

} // verus!
