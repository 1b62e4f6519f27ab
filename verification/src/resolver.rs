use crate::cache::BangCache;
use crate::config::AppConfig;
use crate::encode::{encode, percent_encode};
use crate::query::{bang_split, split_bang};
use crate::template::{substitute, substituted};
use crate::text::{chars_of, string_of};
use vstd::prelude::*;

verus! {

/// The URL that a query resolves to. A query whose first bang token names a
/// trigger of the catalog goes to that trigger's template, with the rest of
/// the query percent-encoded in the marker's place. Any other query goes to
/// the default search, whole and percent-encoded.
pub open spec fn resolved(
    default_search: Seq<char>,
    catalog: Map<Seq<char>, Seq<char>>,
    query: Seq<char>,
) -> Seq<char> {
    match bang_split(query) {
        Some((trigger, rest)) => if catalog.contains_key(trigger) {
            substituted(catalog[trigger], percent_encode(rest))
        } else {
            substituted(default_search, percent_encode(query))
        },
        None => substituted(default_search, percent_encode(query)),
    }
}

/// The URL of the suggestions service for a query: the suggestions template
/// with the query, as it is, in the marker's place.
pub open spec fn suggestions_for(search_suggestions: Seq<char>, query: Seq<char>) -> Seq<char> {
    substituted(search_suggestions, query)
}

/// A query without a bang token, or whose bang token names a trigger that
/// the catalog does not hold, goes to the default search whole: the token
/// is not dropped.
pub proof fn lemma_fallback_takes_whole_query(
    default_search: Seq<char>,
    catalog: Map<Seq<char>, Seq<char>>,
    query: Seq<char>,
)
    requires
        match bang_split(query) {
            Some((trigger, _)) => !catalog.contains_key(trigger),
            None => true,
        },
    ensures
        resolved(default_search, catalog, query) == substituted(
            default_search,
            percent_encode(query),
        ),
{
}

/// A query whose first bang token names a trigger of the catalog goes to
/// that trigger's template, whatever the default search is.
pub proof fn lemma_known_trigger_takes_template(
    default_search: Seq<char>,
    catalog: Map<Seq<char>, Seq<char>>,
    query: Seq<char>,
)
    ensures
        match bang_split(query) {
            Some((trigger, rest)) => catalog.contains_key(trigger) ==> resolved(
                default_search,
                catalog,
                query,
            ) == substituted(catalog[trigger], percent_encode(rest)),
            None => true,
        },
{
}

/// Resolves a query to the URL to redirect to.
pub fn resolve(config: &AppConfig, cache: &BangCache, query: &str) -> (url: String)
    ensures
        url@ == resolved(config.default_search@, cache@, query@),
{
    let q = chars_of(query);
    match split_bang(q.as_slice()) {
        Some(split) => {
            let trigger = string_of(split.trigger.as_slice());
            match cache.lookup(trigger.as_str()) {
                Some(url_template) => {
                    let t = chars_of(url_template.as_str());
                    let value = encode(split.rest.as_slice());
                    let out = substitute(t.as_slice(), value.as_slice());
                    return string_of(out.as_slice());
                },
                None => {},
            }
        },
        None => {},
    }
    let t = chars_of(config.default_search.as_str());
    let value = encode(q.as_slice());
    let out = substitute(t.as_slice(), value.as_slice());
    string_of(out.as_slice())
}

/// The URL at which the suggestions service is asked about a query.
pub fn suggestions_url(config: &AppConfig, query: &str) -> (url: String)
    ensures
        url@ == suggestions_for(config.search_suggestions@, query@),
{
    let t = chars_of(config.search_suggestions.as_str());
    let q = chars_of(query);
    let out = substitute(t.as_slice(), q.as_slice());
    string_of(out.as_slice())
}

} // verus!
