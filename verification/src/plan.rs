//! The request dispatcher: turns an inbound request (verb, URI, body bytes)
//! into either an immediate JSON reply or the one outbound request to make
//! against the backend's REST convention.

use vstd::prelude::*;

use crate::config::{config_complete, Config, ConfigView};
use crate::fields::{fields_json, parse_body_fields, parsed_fields_of, MovieFieldsView};
use crate::numbers::{dec_str, format_usize, parse_dec, parse_usize};
use crate::query::{query_lookup, query_of_uri, query_value, uri_query};
use crate::text::opt_str_view;

verus! {

/// Rows shown per page of the list operation.
pub const PAGE_SIZE: usize = 8;

/// Largest page index whose row window still fits in `usize`; a larger
/// requested page is clamped to it.
pub const MAX_PAGE: usize = (usize::MAX - 7) / 8;

/// The verb of an inbound request; everything but the four supported ones
/// is `Other`.
#[derive(Clone, Copy, PartialEq, Eq, Structural, Debug)]
pub enum Verb {
    Get,
    Post,
    Patch,
    Delete,
    Other,
}

/// The one outbound HTTP request an operation makes.
pub struct OutboundRequest {
    pub method: Verb,
    pub url: String,
    pub headers: Vec<(String, String)>,
    pub body: Option<String>,
}

/// Mathematical image of `OutboundRequest`.
pub struct OutboundRequestView {
    pub method: Verb,
    pub url: Seq<char>,
    pub headers: Seq<(Seq<char>, Seq<char>)>,
    pub body: Option<Seq<char>>,
}

pub open spec fn header_views(h: Seq<(String, String)>) -> Seq<(Seq<char>, Seq<char>)> {
    h.map_values(|p: (String, String)| (p.0@, p.1@))
}

impl View for OutboundRequest {
    type V = OutboundRequestView;

    open spec fn view(&self) -> OutboundRequestView {
        OutboundRequestView {
            method: self.method,
            url: self.url@,
            headers: header_views(self.headers@),
            body: opt_str_view(self.body),
        }
    }
}

/// What the dispatcher decides: reply at once, or make one outbound call.
pub enum Plan {
    Reply(String),
    Call(OutboundRequest),
}

/// Mathematical image of `Plan`.
pub enum PlanView {
    Reply(Seq<char>),
    Call(OutboundRequestView),
}

impl View for Plan {
    type V = PlanView;

    open spec fn view(&self) -> PlanView {
        match self {
            Plan::Reply(s) => PlanView::Reply(s@),
            Plan::Call(r) => PlanView::Call(r@),
        }
    }
}

// ---- The immediate replies ----------------------------------------------

pub open spec fn config_error_reply() -> Seq<char> {
    "{\"error\":\"Backend environment variables are not set\",\"details\":\"Check Vercel Dashboard > Settings > Environment Variables\"}"@
}

pub open spec fn invalid_json_reply() -> Seq<char> {
    "{\"error\":\"Invalid JSON payload.\"}"@
}

pub open spec fn missing_id_reply() -> Seq<char> {
    "{\"error\":\"Missing id query parameter.\"}"@
}

pub open spec fn no_fields_reply() -> Seq<char> {
    "{\"error\":\"No fields provided for update.\"}"@
}

pub open spec fn unsupported_reply() -> Seq<char> {
    "{\"error\":\"Unsupported method.\"}"@
}

// ---- The outbound convention --------------------------------------------

/// Authentication headers carried by every outbound call.
pub open spec fn auth_headers(key: Seq<char>) -> Seq<(Seq<char>, Seq<char>)> {
    seq![("apikey"@, key), ("Authorization"@, "Bearer "@ + key)]
}

/// The free-text search term of a list request; empty when absent.
pub open spec fn search_term(q: Seq<char>) -> Seq<char> {
    match query_value(q, "query"@) {
        None => Seq::empty(),
        Some(v) => v,
    }
}

/// The requested page index: the parsed `page` parameter, 0 when missing
/// or unparsable.
pub open spec fn requested_page(q: Seq<char>) -> int {
    match query_value(q, "page"@) {
        None => 0,
        Some(v) => match parse_dec(v) {
            None => 0,
            Some(n) => n,
        },
    }
}

/// The page actually used: the requested page, clamped so that its row
/// window fits in `usize`.
pub open spec fn effective_page(q: Seq<char>) -> int {
    if requested_page(q) > MAX_PAGE as int {
        MAX_PAGE as int
    } else {
        requested_page(q)
    }
}

/// First row of a page's window.
pub open spec fn window_from(page: int) -> int {
    page * PAGE_SIZE as int
}

/// Last row of a page's window (inclusive).
pub open spec fn window_to(page: int) -> int {
    page * PAGE_SIZE as int + (PAGE_SIZE as int - 1)
}

/// The `Range` header value `from-to` for a page.
pub open spec fn range_text(page: int) -> Seq<char> {
    dec_str(window_from(page)) + "-"@ + dec_str(window_to(page))
}

/// The list/search URL: the collection with an exhaustive selection, a
/// case-insensitive title filter when a search term is given, ordered by
/// release date descending.
pub open spec fn list_url(base: Seq<char>, term: Seq<char>) -> Seq<char> {
    base + "/rest/v1/movies?select=*"@ + (if term.len() == 0 {
        Seq::<char>::empty()
    } else {
        "&title=ilike.*"@ + term + "*"@
    }) + "&order=release_date.desc"@
}

/// The collection URL used by create.
pub open spec fn collection_url(base: Seq<char>) -> Seq<char> {
    base + "/rest/v1/movies"@
}

/// The single-record URL used by update and delete.
pub open spec fn item_url(base: Seq<char>, id: Seq<char>) -> Seq<char> {
    base + "/rest/v1/movies?id=eq."@ + id
}

/// The outbound list/search request: row window in the `Range` header, an
/// exact count requested alongside.
pub open spec fn get_request(cfg: ConfigView, q: Seq<char>) -> OutboundRequestView {
    OutboundRequestView {
        method: Verb::Get,
        url: list_url(cfg.base_url, search_term(q)),
        headers: auth_headers(cfg.api_key) + seq![
            ("Range"@, range_text(effective_page(q))),
            ("Prefer"@, "count=exact"@),
        ],
        body: None,
    }
}

/// The outbound create request: representation returned, only the present
/// fields sent.
pub open spec fn post_request(cfg: ConfigView, f: MovieFieldsView) -> OutboundRequestView {
    OutboundRequestView {
        method: Verb::Post,
        url: collection_url(cfg.base_url),
        headers: auth_headers(cfg.api_key) + seq![("Prefer"@, "return=representation"@)],
        body: Some(fields_json(f)),
    }
}

/// The outbound update request for one record.
pub open spec fn patch_request(cfg: ConfigView, id: Seq<char>, f: MovieFieldsView) -> OutboundRequestView {
    OutboundRequestView {
        method: Verb::Patch,
        url: item_url(cfg.base_url, id),
        headers: auth_headers(cfg.api_key) + seq![("Prefer"@, "return=representation"@)],
        body: Some(fields_json(f)),
    }
}

/// The outbound delete request for one record.
pub open spec fn delete_request(cfg: ConfigView, id: Seq<char>) -> OutboundRequestView {
    OutboundRequestView {
        method: Verb::Delete,
        url: item_url(cfg.base_url, id),
        headers: auth_headers(cfg.api_key),
        body: None,
    }
}

// ---- The per-verb decisions ---------------------------------------------

/// Create: the body must be a JSON object with a `title` member, else the
/// invalid-JSON reply; no outbound call is made on a rejected body.
pub open spec fn post_plan(cfg: ConfigView, body: Seq<u8>) -> PlanView {
    match parsed_fields_of(body) {
        None => PlanView::Reply(invalid_json_reply()),
        Some(f) => if f.title is None {
            PlanView::Reply(invalid_json_reply())
        } else {
            PlanView::Call(post_request(cfg, f))
        },
    }
}

/// Update: a non-empty `id` parameter is required, the body must be a JSON
/// object, and at least one recognized field must be present; each check
/// that fails is reported without an outbound call.
pub open spec fn patch_plan(cfg: ConfigView, q: Seq<char>, body: Seq<u8>) -> PlanView {
    match query_value(q, "id"@) {
        None => PlanView::Reply(missing_id_reply()),
        Some(id) => if id.len() == 0 {
            PlanView::Reply(missing_id_reply())
        } else {
            match parsed_fields_of(body) {
                None => PlanView::Reply(invalid_json_reply()),
                Some(f) => if f.is_empty() {
                    PlanView::Reply(no_fields_reply())
                } else {
                    PlanView::Call(patch_request(cfg, id, f))
                },
            }
        },
    }
}

/// Delete: a non-empty `id` parameter is required.
pub open spec fn delete_plan(cfg: ConfigView, q: Seq<char>) -> PlanView {
    match query_value(q, "id"@) {
        None => PlanView::Reply(missing_id_reply()),
        Some(id) => if id.len() == 0 {
            PlanView::Reply(missing_id_reply())
        } else {
            PlanView::Call(delete_request(cfg, id))
        },
    }
}

/// What the dispatcher decides for an inbound request: the configuration
/// check first, then the verb's own translation.
pub open spec fn plan_for(cfg: ConfigView, verb: Verb, uri: Seq<char>, body: Seq<u8>) -> PlanView {
    if !config_complete(cfg) {
        PlanView::Reply(config_error_reply())
    } else {
        match verb {
            Verb::Get => PlanView::Call(get_request(cfg, query_of_uri(uri))),
            Verb::Post => post_plan(cfg, body),
            Verb::Patch => patch_plan(cfg, query_of_uri(uri), body),
            Verb::Delete => delete_plan(cfg, query_of_uri(uri)),
            Verb::Other => PlanView::Reply(unsupported_reply()),
        }
    }
}

// ---- Executable dispatcher ----------------------------------------------

fn auth_header_vec(cfg: &Config) -> (r: Vec<(String, String)>)
    ensures
        header_views(r@) == auth_headers(cfg@.api_key),
{
    let mut r: Vec<(String, String)> = Vec::new();
    r.push((String::from_str("apikey"), cfg.api_key.clone()));
    let mut bearer = String::from_str("Bearer ");
    bearer.append(cfg.api_key.as_str());
    r.push((String::from_str("Authorization"), bearer));
    proof {
        assert(header_views(r@) =~= auth_headers(cfg@.api_key));
    }
    r
}

fn plan_get(cfg: &Config, q: &str) -> (r: OutboundRequest)
    ensures
        r@ == get_request(cfg@, q@),
{
    let term = match query_lookup(q, "query") {
        None => String::new(),
        Some(v) => v,
    };
    let requested: usize = match query_lookup(q, "page") {
        None => 0,
        Some(v) => match parse_usize(v.as_str()) {
            None => 0,
            Some(n) => n,
        },
    };
    let page = if requested > MAX_PAGE {
        MAX_PAGE
    } else {
        requested
    };
    proof {
        assert(page as int == effective_page(q@));
        assert(8 * (page as int) <= usize::MAX - 7) by (nonlinear_arith)
            requires
                0 <= page as int <= ((usize::MAX - 7) / 8) as int,
        ;
    }
    let from: usize = page * PAGE_SIZE;
    let to: usize = from + (PAGE_SIZE - 1);

    let mut url = cfg.base_url.clone();
    url.append("/rest/v1/movies?select=*");
    if term.as_str().unicode_len() > 0 {
        url.append("&title=ilike.*");
        url.append(term.as_str());
        url.append("*");
    }
    url.append("&order=release_date.desc");
    proof {
        assert(url@ =~= list_url(cfg@.base_url, search_term(q@)));
    }

    let mut headers = auth_header_vec(cfg);
    let mut range = format_usize(from);
    range.append("-");
    let to_text = format_usize(to);
    range.append(to_text.as_str());
    proof {
        assert(range@ =~= range_text(effective_page(q@)));
    }
    headers.push((String::from_str("Range"), range));
    headers.push((String::from_str("Prefer"), String::from_str("count=exact")));
    proof {
        assert(header_views(headers@) =~= get_request(cfg@, q@).headers);
    }
    OutboundRequest { method: Verb::Get, url, headers, body: None }
}

fn plan_post(cfg: &Config, body: &[u8]) -> (r: Plan)
    ensures
        r@ == post_plan(cfg@, body@),
{
    let fields = match parse_body_fields(body) {
        None => {
            return Plan::Reply(String::from_str("{\"error\":\"Invalid JSON payload.\"}"));
        },
        Some(f) => f,
    };
    if fields.title.is_none() {
        return Plan::Reply(String::from_str("{\"error\":\"Invalid JSON payload.\"}"));
    }
    let mut url = cfg.base_url.clone();
    url.append("/rest/v1/movies");
    let mut headers = auth_header_vec(cfg);
    headers.push((String::from_str("Prefer"), String::from_str("return=representation")));
    let payload = crate::fields::serialize_fields(&fields);
    proof {
        assert(header_views(headers@) =~= post_request(cfg@, fields@).headers);
    }
    Plan::Call(OutboundRequest { method: Verb::Post, url, headers, body: Some(payload) })
}

fn plan_patch(cfg: &Config, q: &str, body: &[u8]) -> (r: Plan)
    ensures
        r@ == patch_plan(cfg@, q@, body@),
{
    let id = match query_lookup(q, "id") {
        None => {
            return Plan::Reply(String::from_str("{\"error\":\"Missing id query parameter.\"}"));
        },
        Some(v) => v,
    };
    if id.as_str().unicode_len() == 0 {
        return Plan::Reply(String::from_str("{\"error\":\"Missing id query parameter.\"}"));
    }
    let fields = match parse_body_fields(body) {
        None => {
            return Plan::Reply(String::from_str("{\"error\":\"Invalid JSON payload.\"}"));
        },
        Some(f) => f,
    };
    if fields.check_empty() {
        return Plan::Reply(String::from_str("{\"error\":\"No fields provided for update.\"}"));
    }
    let mut url = cfg.base_url.clone();
    url.append("/rest/v1/movies?id=eq.");
    url.append(id.as_str());
    let mut headers = auth_header_vec(cfg);
    headers.push((String::from_str("Prefer"), String::from_str("return=representation")));
    let payload = crate::fields::serialize_fields(&fields);
    proof {
        assert(header_views(headers@) =~= patch_request(cfg@, id@, fields@).headers);
    }
    Plan::Call(OutboundRequest { method: Verb::Patch, url, headers, body: Some(payload) })
}

fn plan_delete(cfg: &Config, q: &str) -> (r: Plan)
    ensures
        r@ == delete_plan(cfg@, q@),
{
    let id = match query_lookup(q, "id") {
        None => {
            return Plan::Reply(String::from_str("{\"error\":\"Missing id query parameter.\"}"));
        },
        Some(v) => v,
    };
    if id.as_str().unicode_len() == 0 {
        return Plan::Reply(String::from_str("{\"error\":\"Missing id query parameter.\"}"));
    }
    let mut url = cfg.base_url.clone();
    url.append("/rest/v1/movies?id=eq.");
    url.append(id.as_str());
    let headers = auth_header_vec(cfg);
    Plan::Call(OutboundRequest { method: Verb::Delete, url, headers, body: None })
}

/// Decides how to answer an inbound request: an immediate JSON reply, or
/// one outbound call against the backend, exactly as `plan_for` states.
pub fn plan_request(cfg: &Config, verb: Verb, uri: &str, body: &[u8]) -> (p: Plan)
    ensures
        p@ == plan_for(cfg@, verb, uri@, body@),
{
    if !cfg.check_complete() {
        return Plan::Reply(
            String::from_str(
                "{\"error\":\"Backend environment variables are not set\",\"details\":\"Check Vercel Dashboard > Settings > Environment Variables\"}",
            ),
        );
    }
    match verb {
        Verb::Get => {
            let q = uri_query(uri);
            Plan::Call(plan_get(cfg, q.as_str()))
        },
        Verb::Post => plan_post(cfg, body),
        Verb::Patch => {
            let q = uri_query(uri);
            plan_patch(cfg, q.as_str(), body)
        },
        Verb::Delete => {
            let q = uri_query(uri);
            plan_delete(cfg, q.as_str())
        },
        Verb::Other => Plan::Reply(String::from_str("{\"error\":\"Unsupported method.\"}")),
    }
}

} // verus!
