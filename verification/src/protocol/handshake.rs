//! The handshake an agent presents when it connects: a JSON document,
//! base64-encoded (URL-safe alphabet, no padding) into an HTTP header.
use vstd::prelude::*;
use vstd::string::StringSliceAdditionalSpecFns;

use crate::system_info::SystemInfo;

verus! {

/// The HTTP header that carries the handshake.
pub const CONNECT_HANDSHAKE_HEADER_KEY: &'static str = "X-MxLite-ConnectHandshake";

/// Who is connecting, and from what host.
#[derive(Debug, Clone)]
pub struct ConnectHandshake {
    pub version: u32,
    pub host_id: String,
    pub session_id: String,
    pub envs: Vec<String>,
    pub controller_url: String,
    pub system_info: SystemInfo,
}

#[verifier::external_type_specification]
#[verifier::external_body]
pub struct ExDecodeError(base64::DecodeError);

/// The URL-safe, unpadded base64 text of `bytes`, as the `base64` crate's
/// `URL_SAFE_NO_PAD` engine writes it.
pub uninterp spec fn base64_url_nopad(bytes: Seq<u8>) -> Seq<char>;

/// A character of the URL-safe base64 alphabet: a letter, a digit, `-` or `_`.
pub open spec fn url_safe_char(c: char) -> bool {
    ||| 'A' <= c <= 'Z'
    ||| 'a' <= c <= 'z'
    ||| '0' <= c <= '9'
    ||| c == '-'
    ||| c == '_'
}

/// Text made of URL-safe base64 characters only (so with no `=` padding).
pub open spec fn url_safe_text(s: Seq<char>) -> bool {
    forall|i: int| 0 <= i < s.len() ==> url_safe_char(#[trigger] s[i])
}

/// Encodes `bytes` with the `URL_SAFE_NO_PAD` engine.
///
/// Calls `base64::Engine::encode` on `base64::engine::general_purpose::URL_SAFE_NO_PAD`;
/// the contract names its result, which depends on the bytes alone, and
/// states that it is written in the URL-safe alphabet without padding, as
/// that engine's alphabet and configuration make it.
#[verifier::external_body]
fn encode_url_nopad(bytes: &[u8]) -> (text: String)
    ensures
        text@ == base64_url_nopad(bytes@),
        url_safe_text(text@),
{
    base64::Engine::encode(&base64::engine::general_purpose::URL_SAFE_NO_PAD, bytes)
}

/// Decodes `text` with the `URL_SAFE_NO_PAD` engine.
///
/// Calls `base64::Engine::decode` on `base64::engine::general_purpose::URL_SAFE_NO_PAD`.
/// The contract claims that decoding undoes encoding: the text the engine
/// writes for some bytes decodes to exactly those bytes, and any text that
/// decodes is the engine's text for what it decodes to (the engine requires
/// canonical trailing bits and no padding). What error a failure carries is
/// left unsaid.
#[verifier::external_body]
fn decode_url_nopad(text: &str) -> (bytes: Result<Vec<u8>, base64::DecodeError>)
    ensures
        match bytes {
            Ok(v) => base64_url_nopad(v@) == text@ && forall|b: Seq<u8>|
                base64_url_nopad(b) == text@ ==> b == v@,
            Err(_) => forall|b: Seq<u8>| base64_url_nopad(b) != text@,
        },
{
    base64::Engine::decode(&base64::engine::general_purpose::URL_SAFE_NO_PAD, text)
}

/// Why a handshake could not be read.
#[derive(Debug, Clone, Copy, PartialEq, Eq)]
pub enum HandshakeError {
    /// The header is not URL-safe unpadded base64.
    Base64Error,
    /// The decoded text is not a handshake document.
    JsonError,
}

/// The header value for a handshake document: its UTF-8 bytes in URL-safe
/// unpadded base64.
pub fn encode_handshake(document: &str) -> (header: String)
    ensures
        header@ == base64_url_nopad(document.spec_bytes()),
        url_safe_text(header@),
{
    encode_url_nopad(document.as_bytes())
}

/// The handshake document bytes carried by a header value. A header made
/// from a document decodes to exactly that document.
pub fn decode_handshake(header: &str) -> (document: Result<Vec<u8>, HandshakeError>)
    ensures
        match document {
            Ok(v) => base64_url_nopad(v@) == header@,
            Err(e) => e == HandshakeError::Base64Error && forall|b: Seq<u8>|
                base64_url_nopad(b) != header@,
        },
        forall|b: Seq<u8>|
            base64_url_nopad(b) == header@ ==> (document matches Ok(v) && v@ == b),
{
    match decode_url_nopad(header) {
        Ok(v) => Ok(v),
        Err(_) => Err(HandshakeError::Base64Error),
    }
}

} // verus!
