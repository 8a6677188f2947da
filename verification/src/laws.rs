//! The dispatcher's laws: properties that hold of every request, proved
//! from the dispatch specification. A `Reply` plan is one that answers at
//! once — it makes no outbound call.

use vstd::prelude::*;

use crate::config::{config_complete, ConfigView};
use crate::fields::parsed_fields_of;
use crate::plan::{
    config_error_reply, delete_plan, get_request, invalid_json_reply, list_url, missing_id_reply,
    no_fields_reply, patch_plan, plan_for, post_plan, search_term, unsupported_reply, PlanView,
    Verb,
};
use crate::query::query_value;

verus! {

/// A request missing either configuration value is answered with the
/// configuration-error envelope, whatever its verb, URI and body, and no
/// outbound call is made.
pub proof fn lemma_config_error_dominates(
    cfg: ConfigView,
    verb: Verb,
    uri: Seq<char>,
    body: Seq<u8>,
)
    requires
        !config_complete(cfg),
    ensures
        plan_for(cfg, verb, uri, body) == PlanView::Reply(config_error_reply()),
{
}

/// With complete configuration, an unsupported verb is answered with the
/// unsupported-method envelope, whatever the URI and body, and no outbound
/// call is made.
pub proof fn lemma_unsupported_verb(cfg: ConfigView, uri: Seq<char>, body: Seq<u8>)
    requires
        config_complete(cfg),
    ensures
        plan_for(cfg, Verb::Other, uri, body) == PlanView::Reply(unsupported_reply()),
{
}

/// The list URL carries a title filter exactly when the search term is
/// non-empty; an empty term appends no filter clause.
pub proof fn lemma_list_url_filter(base: Seq<char>, term: Seq<char>)
    ensures
        term.len() == 0 ==> list_url(base, term) == base + "/rest/v1/movies?select=*"@
            + "&order=release_date.desc"@,
        term.len() > 0 ==> list_url(base, term) == base + "/rest/v1/movies?select=*"@
            + "&title=ilike.*"@ + term + "*"@ + "&order=release_date.desc"@,
{
    if term.len() == 0 {
        assert(list_url(base, term) =~= base + "/rest/v1/movies?select=*"@
            + "&order=release_date.desc"@);
    } else {
        assert(list_url(base, term) =~= base + "/rest/v1/movies?select=*"@ + "&title=ilike.*"@
            + term + "*"@ + "&order=release_date.desc"@);
    }
}

/// An update request without a non-empty `id` parameter is answered with
/// the missing-id envelope, whatever the body, and no outbound call is
/// made.
pub proof fn lemma_patch_missing_id(cfg: ConfigView, q: Seq<char>, body: Seq<u8>)
    requires
        (match query_value(q, "id"@) {
            None => true,
            Some(v) => v.len() == 0,
        }),
    ensures
        patch_plan(cfg, q, body) == PlanView::Reply(missing_id_reply()),
{
}

/// A delete request without a non-empty `id` parameter is answered the
/// same way.
pub proof fn lemma_delete_missing_id(cfg: ConfigView, q: Seq<char>)
    requires
        (match query_value(q, "id"@) {
            None => true,
            Some(v) => v.len() == 0,
        }),
    ensures
        delete_plan(cfg, q) == PlanView::Reply(missing_id_reply()),
{
}

/// An update whose body holds none of the recognized fields is answered
/// with the no-fields envelope and no outbound call is made.
pub proof fn lemma_patch_no_fields(cfg: ConfigView, q: Seq<char>, body: Seq<u8>)
    requires
        (match query_value(q, "id"@) {
            None => false,
            Some(v) => v.len() > 0,
        }),
        (match parsed_fields_of(body) {
            None => false,
            Some(f) => f.is_empty(),
        }),
    ensures
        patch_plan(cfg, q, body) == PlanView::Reply(no_fields_reply()),
{
}

/// A create whose body does not parse as a JSON object with a title is
/// answered with the invalid-JSON envelope and no outbound call is made.
pub proof fn lemma_post_invalid_body(cfg: ConfigView, body: Seq<u8>)
    requires
        (match parsed_fields_of(body) {
            None => true,
            Some(f) => f.title is None,
        }),
    ensures
        post_plan(cfg, body) == PlanView::Reply(invalid_json_reply()),
{
}

} // verus!
