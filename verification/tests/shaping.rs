//! Behavior of the response-shaping step: how a backend outcome becomes
//! the JSON envelope handed back to the caller.

use movies_api::{finish_delete, finish_get, finish_patch, finish_post, BackendResponse};

fn ok_with(body: &str, content_range: Option<&str>) -> BackendResponse {
    BackendResponse {
        ok: true,
        body: Some(String::from(body)),
        content_range: content_range.map(String::from),
    }
}

fn failed_with(body: Option<&str>) -> BackendResponse {
    BackendResponse {
        ok: false,
        body: body.map(String::from),
        content_range: None,
    }
}

#[test]
fn delete_success_reports_deleted() {
    // a 204 No Content success: empty body text
    let r = ok_with("", None);
    assert_eq!(finish_delete(&r), "{\"status\":\"deleted\"}");
}

#[test]
fn delete_failure_carries_details() {
    let r = failed_with(Some("record is protected"));
    assert_eq!(
        finish_delete(&r),
        "{\"error\":\"Supabase delete failed.\",\"details\":\"record is protected\"}"
    );
}

#[test]
fn post_success_returns_first_record() {
    let r = ok_with("[{\"id\": 1, \"title\": \"Dune\"}]", None);
    assert_eq!(finish_post(&r), "{\"movie\":{\"id\":1,\"title\":\"Dune\"}}");
}

#[test]
fn post_success_with_empty_representation_is_null() {
    for body in ["[]", "", "not json"] {
        let r = ok_with(body, None);
        assert_eq!(finish_post(&r), "{\"movie\":null}", "body {:?}", body);
    }
    let r = BackendResponse {
        ok: true,
        body: None,
        content_range: None,
    };
    assert_eq!(finish_post(&r), "{\"movie\":null}");
}

#[test]
fn post_failure_without_body_reports_unknown_error() {
    let r = failed_with(None);
    assert_eq!(
        finish_post(&r),
        "{\"error\":\"Supabase insert failed.\",\"details\":\"Unknown error\"}"
    );
}

#[test]
fn patch_success_returns_first_record() {
    let r = ok_with("[{\"id\": 7, \"tagline\": \"fear is the mind-killer\"}]", None);
    assert_eq!(
        finish_patch(&r),
        "{\"movie\":{\"id\":7,\"tagline\":\"fear is the mind-killer\"}}"
    );
}

#[test]
fn patch_failure_carries_details() {
    let r = failed_with(Some("no such row"));
    assert_eq!(
        finish_patch(&r),
        "{\"error\":\"Supabase update failed.\",\"details\":\"no such row\"}"
    );
}

#[test]
fn get_success_embeds_movies_and_total() {
    let movies = "[{\"id\":1},{\"id\":2},{\"id\":3},{\"id\":4},{\"id\":5},{\"id\":6},{\"id\":7},{\"id\":8}]";
    let r = ok_with(movies, Some("0-7/23"));
    let out = finish_get(&r);
    assert_eq!(out, format!("{{\"movies\":{},\"total\":23}}", movies));
}

#[test]
fn get_total_defaults_to_zero() {
    for cr in [None, Some("*/x"), Some("0-7/")] {
        let r = ok_with("[]", cr);
        assert_eq!(finish_get(&r), "{\"movies\":[],\"total\":0}", "range {:?}", cr);
    }
}

#[test]
fn get_total_reads_text_after_last_slash() {
    let r = ok_with("[]", Some("5"));
    assert_eq!(finish_get(&r), "{\"movies\":[],\"total\":5}");
    let r = ok_with("[]", Some("a/b/41"));
    assert_eq!(finish_get(&r), "{\"movies\":[],\"total\":41}");
}

#[test]
fn get_failure_is_reported_in_the_error_envelope() {
    // non-array body, failed status, unreadable body: all the same shape
    let r = ok_with("{\"message\":\"broken\"}", None);
    assert_eq!(
        finish_get(&r),
        "{\"error\":\"Supabase query failed.\",\"details\":\"{\\\"message\\\":\\\"broken\\\"}\"}"
    );
    let r = failed_with(Some("gone"));
    assert_eq!(
        finish_get(&r),
        "{\"error\":\"Supabase query failed.\",\"details\":\"gone\"}"
    );
}

#[test]
fn control_characters_get_unicode_escapes() {
    let r = failed_with(Some("a\u{1f}b\tc"));
    let out = finish_delete(&r);
    assert_eq!(
        out,
        "{\"error\":\"Supabase delete failed.\",\"details\":\"a\\u001fb\\u0009c\"}"
    );
    let v: serde_json::Value = serde_json::from_str(&out).expect("envelope must be valid JSON");
    assert_eq!(v.get("details").and_then(|d| d.as_str()), Some("a\u{1f}b\tc"));
}

#[test]
fn details_are_escaped_as_a_json_string() {
    let r = failed_with(Some("bad \"quote\"\nand \\slash"));
    let out = finish_delete(&r);
    assert_eq!(
        out,
        "{\"error\":\"Supabase delete failed.\",\"details\":\"bad \\\"quote\\\"\\u000aand \\\\slash\"}"
    );
    // the envelope is valid JSON and the details round-trip exactly
    let v: serde_json::Value = serde_json::from_str(&out).expect("envelope must be valid JSON");
    assert_eq!(
        v.get("details").and_then(|d| d.as_str()),
        Some("bad \"quote\"\nand \\slash")
    );
}
