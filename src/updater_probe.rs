//! The verdict of the diagnostic fetch of the update manifest: whether the
//! body that came back is JSON, and the terse status line reported for it.

use vstd::prelude::*;
use crate::pid_record::{decimal, decimal_text};

verus! {

/// Whether the text is one JSON document, as serde_json's parser judges it.
pub uninterp spec fn is_json_text(s: Seq<char>) -> bool;

/// Relies on `serde_json::from_str` into a `serde_json::Value`: it succeeds
/// exactly on text holding one JSON document (whitespace around it allowed),
/// and its error's message is passed on.
#[verifier::external_body]
fn decode_json(body: &str) -> (r: Result<(), String>)
    ensures
        r.is_ok() == is_json_text(body@),
{
    serde_json::from_str::<serde_json::Value>(body).map(|_| ()).map_err(|e| e.to_string())
}

/// The content type shown in the report.
pub open spec fn shown_content_type(content_type: Option<String>) -> Seq<char> {
    match content_type {
        Some(c) => c@,
        None => "<none>"@,
    }
}

/// The body that is checked: the text read, or a marker when it could not be read.
pub open spec fn checked_body(body: Option<String>) -> Seq<char> {
    match body {
        Some(b) => b@,
        None => "<body read error>"@,
    }
}

pub open spec fn success_line(status: u16, content_type: Seq<char>) -> Seq<char> {
    "ok status="@ + decimal(status as nat) + " content_type="@ + content_type
        + " (JSON parse succeeded)"@
}

/// Reports on a fetched manifest: `Ok` with a status line when the body is
/// JSON, `Err` with the decoder's complaint otherwise.
pub fn updater_endpoint_report(
    status: u16,
    content_type: Option<String>,
    body: Option<String>,
) -> (r: Result<String, String>)
    ensures
        r.is_ok() == is_json_text(checked_body(body)),
        r is Ok ==> r->Ok_0@ == success_line(status, shown_content_type(content_type)),
        r is Err ==> "json decode error: "@.is_prefix_of(r->Err_0@),
{
    let ghost shown = shown_content_type(content_type);
    let ghost checked = checked_body(body);
    let ct = match content_type {
        Some(c) => c,
        None => String::from_str("<none>"),
    };
    let text = match body {
        Some(b) => b,
        None => String::from_str("<body read error>"),
    };
    assert(ct@ == shown);
    assert(text@ == checked);
    match decode_json(text.as_str()) {
        Ok(()) => {
            let line = String::from_str("ok status=").concat(decimal_text(status as u32).as_str());
            let line = line.concat(" content_type=").concat(ct.as_str());
            Ok(line.concat(" (JSON parse succeeded)"))
        },
        Err(e) => {
            let msg = String::from_str("json decode error: ").concat(e.as_str());
            assert("json decode error: "@.is_prefix_of(msg@)) by {
                assert(msg@.subrange(0, "json decode error: "@.len() as int) =~= "json decode error: "@);
            }
            Err(msg)
        },
    }
}

} // verus!
