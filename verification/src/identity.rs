//! Reading the user's identity out of an identity token.
//!
//! A token is three segments separated by dots. Only the middle one, the
//! payload, is read: it is base64url text without padding that encodes a
//! UTF-8 JSON document with a text member `userId`. No signature is checked:
//! whoever hands a token to this module vouches for it.

use base64::Engine;
use vstd::prelude::*;
use crate::error::WorkspaceError;
use crate::text::{split, split_on, text_of, utf8_text};

verus! {

/// `base64::DecodeError`, the error of the base64 decoder; nothing in it is
/// read.
#[verifier::external_type_specification]
#[verifier::external_body]
pub struct ExDecodeError(base64::DecodeError);

/// `serde_json::Error`, the error of the JSON parser; nothing in it is read.
#[verifier::external_type_specification]
#[verifier::external_body]
pub struct ExJsonError(serde_json::Error);

/// The bytes that `text` stands for in base64 with the URL-safe alphabet and
/// no padding, as the `base64` crate decodes it; `None` where it refuses the
/// text.
pub uninterp spec fn base64url_decoding(text: Seq<char>) -> Option<Seq<u8>>;

/// The text that the JSON document `document` holds under `key` at its top
/// level, as `serde_json` reads it; `None` where `document` is no JSON
/// document, is no object, has no such member, or has one that is not a
/// string.
pub uninterp spec fn json_text_member(document: Seq<char>, key: Seq<char>) -> Option<Seq<char>>;

/// Calls `Engine::decode` of the `base64` crate on its engine
/// `URL_SAFE_NO_PAD`. Nothing is claimed of the decoding but that it is the
/// one named `base64url_decoding`: the same text always gives the same
/// answer.
#[verifier::external_body]
fn decode_base64url(segment: &str) -> (r: Result<Vec<u8>, base64::DecodeError>)
    ensures
        r is Ok <==> base64url_decoding(segment@) is Some,
        r matches Ok(bytes) ==> base64url_decoding(segment@) == Some(bytes@),
{
    base64::engine::general_purpose::URL_SAFE_NO_PAD.decode(segment)
}

/// Parses `document` with `serde_json::from_str` into a `serde_json::Value`,
/// indexes the value by `key` and asks it `as_str`. The answer is a text
/// exactly where `json_text_member` names one, and is that text. A document
/// that does not parse and a member that is missing or no string are not
/// told apart by the contract.
#[verifier::external_body]
fn read_json_text_member(document: &str, key: &str) -> (r: Result<
    Option<String>,
    serde_json::Error,
>)
    ensures
        r matches Ok(Some(_)) <==> json_text_member(document@, key@) is Some,
        r matches Ok(Some(s)) ==> json_text_member(document@, key@) == Some(s@),
{
    let value: serde_json::Value = serde_json::from_str(document)?;
    Ok(value[key].as_str().map(str::to_owned))
}

/// A member is accepted as a user id if it is there and not empty.
pub open spec fn accepted_user_id(member: Option<Seq<char>>) -> Option<Seq<char>> {
    match member {
        Some(id) => if id.len() > 0 {
            Some(id)
        } else {
            None
        },
        None => None,
    }
}

/// The user id that a decoded payload carries.
pub open spec fn payload_user_id(payload: Seq<u8>) -> Option<Seq<char>> {
    match utf8_text(payload) {
        Some(document) => accepted_user_id(json_text_member(document, "userId"@)),
        None => None,
    }
}

/// The user id that a token claims: `None` unless the token is well-formed.
pub open spec fn claimed_user_id(token: Seq<char>) -> Option<Seq<char>> {
    let segments = split_on(token, '.');
    if segments.len() != 3 {
        None
    } else {
        match base64url_decoding(segments[1]) {
            Some(payload) => payload_user_id(payload),
            None => None,
        }
    }
}

/// `r` reports `claim`: the claimed id, or `InvalidToken` where there is none.
pub open spec fn reports_claim(r: Result<String, WorkspaceError>, claim: Option<Seq<char>>) -> bool {
    match claim {
        Some(id) => r is Ok && r->Ok_0@ == id,
        None => r == Err::<String, WorkspaceError>(WorkspaceError::InvalidToken),
    }
}

/// Accepts the `userId` member of a payload as the user id, unless it is
/// missing or empty.
pub fn accept_user_id(member: Option<String>) -> (r: Result<String, WorkspaceError>)
    ensures
        reports_claim(
            r,
            accepted_user_id(
                match member {
                    Some(id) => Some(id@),
                    None => None,
                },
            ),
        ),
{
    match member {
        Some(id) => {
            if id.as_str().is_empty() {
                Err(WorkspaceError::InvalidToken)
            } else {
                Ok(id)
            }
        },
        None => Err(WorkspaceError::InvalidToken),
    }
}

/// Reads the user id out of a decoded payload.
pub fn user_id_from_payload(payload: Vec<u8>) -> (r: Result<String, WorkspaceError>)
    ensures
        reports_claim(r, payload_user_id(payload@)),
{
    match text_of(payload) {
        Some(document) => {
            match read_json_text_member(document.as_str(), "userId") {
                Ok(member) => accept_user_id(member),
                Err(_) => Err(WorkspaceError::InvalidToken),
            }
        },
        None => Err(WorkspaceError::InvalidToken),
    }
}

/// Reads the user id that `token` claims. Every malformed token is refused
/// with the same error, whichever step found the fault.
pub fn parse_access_token(token: &str) -> (r: Result<String, WorkspaceError>)
    ensures
        reports_claim(r, claimed_user_id(token@)),
{
    let segments = split(token, '.');
    if segments.len() != 3 {
        return Err(WorkspaceError::InvalidToken);
    }
    assert(segments.deep_view()[1] == segments[1]@);
    match decode_base64url(segments[1].as_str()) {
        Ok(payload) => user_id_from_payload(payload),
        Err(_) => Err(WorkspaceError::InvalidToken),
    }
}

} // verus!
