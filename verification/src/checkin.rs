//! Interpretation of the check-in endpoint's reply: a JSON document whose
//! top-level `status` member decides whether the check-in counted.

use crate::error::SiteError;
use vstd::prelude::*;
use vstd::string::*;

verus! {

/// The top-level `status` member of `body` read as a JSON string: `Some`
/// exactly when `body` is a JSON document whose top level has a `status`
/// member holding a string, and then that string's characters.
pub uninterp spec fn json_status_string(body: Seq<char>) -> Option<Seq<char>>;

/// Relies on `serde_json::from_str::<serde_json::Value>`, `serde_json::Value::get`
/// and `serde_json::Value::as_str`: whether the text parses as JSON, what its
/// top-level `status` member is, and whether that member is a string are all
/// functions of the text alone (the parser's maps are ordered, so even a
/// document with repeated keys reads the same way every time).
#[verifier::external_body]
fn read_status_string(body: &str) -> (r: Option<String>)
    ensures
        r is Some <==> json_status_string(body@) is Some,
        r matches Some(t) ==> json_status_string(body@) == Some(t@),
{
    let parsed: serde_json::Value = match serde_json::from_str(body) {
        Ok(v) => v,
        Err(_) => return None,
    };
    match parsed.get("status") {
        Some(member) => member.as_str().map(str::to_string),
        None => None,
    }
}

/// Whether a read `status` member is the success marker: the string `"1"`.
pub fn status_is_success(status: &Option<String>) -> (r: bool)
    ensures
        r == (match status {
            Some(t) => t@ == "1"@,
            None => false,
        }),
{
    match status {
        Some(t) => {
            let marker: String = String::from_str("1");
            t.eq(&marker)
        },
        None => false,
    }
}

/// Reads the check-in endpoint's reply. The check-in counted only when the
/// body is JSON whose top-level `status` member is the string `"1"`; a body
/// that is not JSON, lacks the member, or carries any other value there — a
/// number `1` included — is a failed check-in.
pub fn interpret_checkin_response(body: &str) -> (r: Result<(), SiteError>)
    ensures
        r is Ok <==> json_status_string(body@) == Some("1"@),
        r matches Err(e) ==> e == SiteError::CheckInFailed,
{
    let status = read_status_string(body);
    if status_is_success(&status) {
        Ok(())
    } else {
        Err(SiteError::CheckInFailed)
    }
}

} // verus!
