//! Shaping the backend's response into the JSON envelope returned to the
//! caller. Every failure, including a body that cannot be read or parsed,
//! is reported in the same `{"error","details"}` envelope; no outcome is
//! ever raised as a fault.

use vstd::prelude::*;

use crate::envelope::{error_envelope, json_escape, make_error_envelope};
use crate::numbers::{dec_str, format_usize, parse_dec, parse_usize};
use crate::text::{opt_str_view, split_on, split_str, str_views};

verus! {

/// What came back from the one outbound call, as plain values: whether the
/// status was a success, the response body text (absent when reading it
/// failed), and the `Content-Range` header if one was present.
pub struct BackendResponse {
    pub ok: bool,
    pub body: Option<String>,
    pub content_range: Option<String>,
}

/// Mathematical image of `BackendResponse`.
pub struct BackendResponseView {
    pub ok: bool,
    pub body: Option<Seq<char>>,
    pub content_range: Option<Seq<char>>,
}

impl View for BackendResponse {
    type V = BackendResponseView;

    open spec fn view(&self) -> BackendResponseView {
        BackendResponseView {
            ok: self.ok,
            body: opt_str_view(self.body),
            content_range: opt_str_view(self.content_range),
        }
    }
}

/// Whether a text is a JSON array.
pub uninterp spec fn json_is_array(s: Seq<char>) -> bool;

/// Relies on `serde_json::from_str` and `serde_json::Value::is_array`:
/// whether the text parses as JSON and is an array.
#[verifier::external_body]
fn check_json_array(s: &str) -> (r: bool)
    ensures
        r == json_is_array(s@),
{
    match serde_json::from_str::<serde_json::Value>(s) {
        Ok(v) => v.is_array(),
        Err(_) => false,
    }
}

/// The first element of a JSON array text, re-serialized; nothing when the
/// text is not a JSON array or the array is empty.
pub uninterp spec fn first_elem_of(s: Seq<char>) -> Option<Seq<char>>;

/// Relies on `serde_json::from_str` and `serde_json::Value`: parses the
/// text, and re-serializes the first element of the array with `Value`'s
/// display form.
#[verifier::external_body]
fn first_array_element(s: &str) -> (r: Option<String>)
    ensures
        opt_str_view(r) == first_elem_of(s@),
{
    let v: serde_json::Value = match serde_json::from_str(s) {
        Ok(x) => x,
        Err(_) => return None,
    };
    match v.as_array() {
        Some(a) => a.first().map(|e| e.to_string()),
        None => None,
    }
}

/// The total count carried by the backend's range metadata: the decimal
/// value after the last `/`, 0 when the header is absent or the suffix
/// unparsable.
pub open spec fn total_of(cr: Option<Seq<char>>) -> int {
    match cr {
        None => 0,
        Some(s) => {
            let parts = split_on(s, '/');
            match parse_dec(parts.last()) {
                None => 0,
                Some(n) => n,
            }
        },
    }
}

fn total_from_content_range(cr: &Option<String>) -> (r: usize)
    ensures
        r as int == total_of(opt_str_view(*cr)),
{
    match cr {
        None => 0,
        Some(s) => {
            let parts = split_str(s.as_str(), '/');
            proof {
                assert(split_on(s@, '/').len() >= 1);
                assert(parts@.len() == str_views(parts@).len());
            }
            let last = &parts[parts.len() - 1];
            proof {
                assert(last@ == split_on(s@, '/').last());
            }
            match parse_usize(last.as_str()) {
                None => 0,
                Some(n) => n,
            }
        },
    }
}

/// The list/search envelope: the backend's array embedded as-is, with the
/// total row count.
pub open spec fn movies_envelope(movies: Seq<char>, total: int) -> Seq<char> {
    "{\"movies\":"@ + movies + ",\"total\":"@ + dec_str(total) + "}"@
}

/// The envelope for a list/search outcome: the movies envelope when the
/// call succeeded and the body is a JSON array, the error envelope for
/// every other outcome.
pub open spec fn get_outcome(r: BackendResponseView) -> Seq<char> {
    match r.body {
        Some(b) => if r.ok && json_is_array(b) {
            movies_envelope(b, total_of(r.content_range))
        } else {
            error_envelope("Supabase query failed."@, r.body)
        },
        None => error_envelope("Supabase query failed."@, r.body),
    }
}

/// The envelope for a create or update outcome: on success, the first
/// record of the returned representation (`null` when there is none); on
/// failure, the error envelope with the given message.
pub open spec fn write_outcome(r: BackendResponseView, msg: Seq<char>) -> Seq<char> {
    if !r.ok {
        error_envelope(msg, r.body)
    } else {
        "{\"movie\":"@ + (match r.body {
            None => "null"@,
            Some(b) => match first_elem_of(b) {
                None => "null"@,
                Some(e) => e,
            },
        }) + "}"@
    }
}

/// The envelope for a delete outcome.
pub open spec fn delete_outcome(r: BackendResponseView) -> Seq<char> {
    if r.ok {
        "{\"status\":\"deleted\"}"@
    } else {
        error_envelope("Supabase delete failed."@, r.body)
    }
}

/// Shapes a list/search response.
pub fn finish_get(r: &BackendResponse) -> (out: String)
    ensures
        out@ == get_outcome(r@),
{
    match &r.body {
        Some(b) => {
            if r.ok && check_json_array(b.as_str()) {
                let mut out = String::from_str("{\"movies\":");
                out.append(b.as_str());
                out.append(",\"total\":");
                let total = total_from_content_range(&r.content_range);
                let total_text = format_usize(total);
                out.append(total_text.as_str());
                out.append("}");
                out
            } else {
                make_error_envelope("Supabase query failed.", &r.body)
            }
        },
        None => make_error_envelope("Supabase query failed.", &r.body),
    }
}

fn finish_write(r: &BackendResponse, msg: &str) -> (out: String)
    ensures
        out@ == write_outcome(r@, msg@),
{
    if !r.ok {
        return make_error_envelope(msg, &r.body);
    }
    let mut out = String::from_str("{\"movie\":");
    match &r.body {
        None => {
            out.append("null");
        },
        Some(b) => match first_array_element(b.as_str()) {
            None => {
                out.append("null");
            },
            Some(e) => {
                out.append(e.as_str());
            },
        },
    }
    out.append("}");
    out
}

/// Shapes a create response.
pub fn finish_post(r: &BackendResponse) -> (out: String)
    ensures
        out@ == write_outcome(r@, "Supabase insert failed."@),
{
    finish_write(r, "Supabase insert failed.")
}

/// Shapes an update response.
pub fn finish_patch(r: &BackendResponse) -> (out: String)
    ensures
        out@ == write_outcome(r@, "Supabase update failed."@),
{
    finish_write(r, "Supabase update failed.")
}

/// Shapes a delete response.
pub fn finish_delete(r: &BackendResponse) -> (out: String)
    ensures
        out@ == delete_outcome(r@),
{
    if r.ok {
        String::from_str("{\"status\":\"deleted\"}")
    } else {
        make_error_envelope("Supabase delete failed.", &r.body)
    }
}

} // verus!
