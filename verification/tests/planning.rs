//! Behavior of the dispatcher's planning step: which requests are answered
//! at once, and what the one outbound request looks like otherwise.

use movies_api::{plan_request, Config, Plan, Verb};

fn cfg() -> Config {
    Config {
        base_url: String::from("https://example.test"),
        api_key: String::from("test-key"),
    }
}

fn incomplete_cfg() -> Config {
    Config {
        base_url: String::from("https://example.test"),
        api_key: String::new(),
    }
}

const CONFIG_ERROR: &str = "{\"error\":\"Backend environment variables are not set\",\"details\":\"Check Vercel Dashboard > Settings > Environment Variables\"}";

fn reply_text(p: Plan) -> String {
    match p {
        Plan::Reply(s) => s,
        Plan::Call(_) => panic!("expected an immediate reply, got an outbound call"),
    }
}

fn call_of(p: Plan) -> movies_api::OutboundRequest {
    match p {
        Plan::Call(r) => r,
        Plan::Reply(s) => panic!("expected an outbound call, got reply {}", s),
    }
}

fn header<'a>(r: &'a movies_api::OutboundRequest, name: &str) -> &'a str {
    for (k, v) in &r.headers {
        if k == name {
            return v;
        }
    }
    panic!("header {} not found", name);
}

#[test]
fn missing_config_rejects_every_verb() {
    for verb in [Verb::Get, Verb::Post, Verb::Patch, Verb::Delete, Verb::Other] {
        let p = plan_request(&incomplete_cfg(), verb, "/?id=1", b"{\"title\":\"Dune\"}");
        assert_eq!(reply_text(p), CONFIG_ERROR);
    }
    let no_url = Config {
        base_url: String::new(),
        api_key: String::from("k"),
    };
    let p = plan_request(&no_url, Verb::Get, "/", b"");
    assert_eq!(reply_text(p), CONFIG_ERROR);
}

#[test]
fn page_two_window_is_rows_16_to_23() {
    let p = plan_request(&cfg(), Verb::Get, "/?page=2", b"");
    let r = call_of(p);
    assert_eq!(header(&r, "Range"), "16-23");
}

#[test]
fn default_page_window_is_rows_0_to_7() {
    let p = plan_request(&cfg(), Verb::Get, "/", b"");
    let r = call_of(p);
    assert_eq!(header(&r, "Range"), "0-7");
    assert_eq!(header(&r, "Prefer"), "count=exact");
}

#[test]
fn unparsable_page_defaults_to_zero() {
    for uri in ["/?page=abc", "/?page=", "/?page=99999999999999999999999", "/?page=-1"] {
        let p = plan_request(&cfg(), Verb::Get, uri, b"");
        let r = call_of(p);
        assert_eq!(header(&r, "Range"), "0-7", "uri {}", uri);
    }
}

#[test]
fn empty_query_appends_no_title_filter() {
    for uri in ["/", "/?query="] {
        let p = plan_request(&cfg(), Verb::Get, uri, b"");
        let r = call_of(p);
        assert_eq!(
            r.url,
            "https://example.test/rest/v1/movies?select=*&order=release_date.desc",
            "uri {}",
            uri
        );
    }
}

#[test]
fn search_term_becomes_title_filter() {
    let p = plan_request(&cfg(), Verb::Get, "/?query=matrix", b"");
    let r = call_of(p);
    assert_eq!(
        r.url,
        "https://example.test/rest/v1/movies?select=*&title=ilike.*matrix*&order=release_date.desc"
    );
}

#[test]
fn get_carries_auth_headers() {
    let p = plan_request(&cfg(), Verb::Get, "/", b"");
    let r = call_of(p);
    assert_eq!(r.method, Verb::Get);
    assert_eq!(header(&r, "apikey"), "test-key");
    assert_eq!(header(&r, "Authorization"), "Bearer test-key");
    assert!(r.body.is_none());
}

#[test]
fn patch_without_id_is_rejected() {
    for uri in ["/", "/?id=", "/?page=2"] {
        let p = plan_request(&cfg(), Verb::Patch, uri, b"{\"title\":\"Dune\"}");
        assert_eq!(
            reply_text(p),
            "{\"error\":\"Missing id query parameter.\"}",
            "uri {}",
            uri
        );
    }
}

#[test]
fn delete_without_id_is_rejected() {
    let p = plan_request(&cfg(), Verb::Delete, "/", b"");
    assert_eq!(reply_text(p), "{\"error\":\"Missing id query parameter.\"}");
}

#[test]
fn patch_with_no_recognized_fields_is_rejected() {
    for body in [&b"{}"[..], &b"{\"director\":\"Villeneuve\"}"[..]] {
        let p = plan_request(&cfg(), Verb::Patch, "/?id=1", body);
        assert_eq!(reply_text(p), "{\"error\":\"No fields provided for update.\"}");
    }
}

#[test]
fn post_with_unparsable_body_is_rejected() {
    for body in [&b"not json"[..], &b""[..], &b"[1,2]"[..]] {
        let p = plan_request(&cfg(), Verb::Post, "/", body);
        assert_eq!(reply_text(p), "{\"error\":\"Invalid JSON payload.\"}");
    }
}

#[test]
fn post_without_title_is_rejected() {
    let p = plan_request(&cfg(), Verb::Post, "/", b"{\"tagline\":\"x\"}");
    assert_eq!(reply_text(p), "{\"error\":\"Invalid JSON payload.\"}");
}

#[test]
fn post_forwards_only_present_fields() {
    let p = plan_request(
        &cfg(),
        Verb::Post,
        "/",
        b"{\"title\": \"Dune\", \"director\": \"Villeneuve\"}",
    );
    let r = call_of(p);
    assert_eq!(r.method, Verb::Post);
    assert_eq!(r.url, "https://example.test/rest/v1/movies");
    assert_eq!(header(&r, "Prefer"), "return=representation");
    assert_eq!(r.body.as_deref(), Some("{\"title\":\"Dune\"}"));
}

#[test]
fn patch_forwards_fields_in_fixed_order() {
    let p = plan_request(
        &cfg(),
        Verb::Patch,
        "/?id=7",
        b"{\"release_date\": \"2020-01-01\", \"popularity\": 7.5}",
    );
    let r = call_of(p);
    assert_eq!(r.method, Verb::Patch);
    assert_eq!(r.url, "https://example.test/rest/v1/movies?id=eq.7");
    assert_eq!(
        r.body.as_deref(),
        Some("{\"popularity\":7.5,\"release_date\":\"2020-01-01\"}")
    );
}

#[test]
fn delete_targets_the_record() {
    let p = plan_request(&cfg(), Verb::Delete, "/?id=42", b"");
    let r = call_of(p);
    assert_eq!(r.method, Verb::Delete);
    assert_eq!(r.url, "https://example.test/rest/v1/movies?id=eq.42");
    assert!(r.body.is_none());
    assert_eq!(r.headers.len(), 2);
}

#[test]
fn first_occurrence_of_a_key_wins() {
    let p = plan_request(&cfg(), Verb::Delete, "/?id=1&id=2", b"");
    let r = call_of(p);
    assert_eq!(r.url, "https://example.test/rest/v1/movies?id=eq.1");
}

#[test]
fn query_parsing_handles_odd_shapes() {
    // empty segments are skipped, and a value stops at the second `=`
    let p = plan_request(&cfg(), Verb::Delete, "/?&&id=4=5&", b"");
    let r = call_of(p);
    assert_eq!(r.url, "https://example.test/rest/v1/movies?id=eq.4");
}

#[test]
fn search_and_page_combine() {
    let p = plan_request(&cfg(), Verb::Get, "/?query=matrix&page=2", b"");
    let r = call_of(p);
    assert_eq!(
        r.url,
        "https://example.test/rest/v1/movies?select=*&title=ilike.*matrix*&order=release_date.desc"
    );
    assert_eq!(header(&r, "Range"), "16-23");
}

#[test]
fn only_text_between_first_and_second_question_mark_is_the_query() {
    let p = plan_request(&cfg(), Verb::Delete, "/?id=9?id=8", b"");
    let r = call_of(p);
    assert_eq!(r.url, "https://example.test/rest/v1/movies?id=eq.9");
}

#[test]
fn unsupported_verb_is_rejected() {
    let p = plan_request(&cfg(), Verb::Other, "/?id=1", b"{\"title\":\"Dune\"}");
    assert_eq!(reply_text(p), "{\"error\":\"Unsupported method.\"}");
    // the configuration check comes first
    let p = plan_request(&incomplete_cfg(), Verb::Other, "/", b"");
    assert_eq!(reply_text(p), CONFIG_ERROR);
}
