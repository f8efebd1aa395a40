//! Keeping the access credential out of URLs that are shown to anyone.
//!
//! Request URLs carry the account's key in their `api_key` query parameter.
//! Before a URL goes into an error or a log line, that value is replaced by
//! `*****`; every other query parameter keeps its place and its value.

use vstd::prelude::*;

verus! {

/// The query parameter that holds the credential.
pub const API_KEY_PARAM: &'static str = "api_key";

/// What stands in the place of the credential.
pub const REDACTED_VALUE: &'static str = "*****";

/// The decoded `(key, value)` pairs of the query of the URL written `url`,
/// or `None` where `url` is not a valid absolute URL.
pub uninterp spec fn query_pairs_of(url: Seq<char>) -> Option<Seq<(Seq<char>, Seq<char>)>>;

/// The URL written `url` with its query replaced by `pairs`, each one
/// form-encoded, or `None` where `url` is not a valid absolute URL.
pub uninterp spec fn with_query_pairs_of(
    url: Seq<char>,
    pairs: Seq<(Seq<char>, Seq<char>)>,
) -> Option<Seq<char>>;

/// The pairs as sequences of characters.
pub open spec fn pairs_view(pairs: Seq<(String, String)>) -> Seq<(Seq<char>, Seq<char>)> {
    pairs.map_values(|p: (String, String)| (p.0@, p.1@))
}

/// One query pair, with its value hidden when its key is `api_key`.
pub open spec fn redact_pair(pair: (Seq<char>, Seq<char>)) -> (Seq<char>, Seq<char>) {
    if pair.0 == API_KEY_PARAM@ {
        (pair.0, REDACTED_VALUE@)
    } else {
        pair
    }
}

/// All query pairs, in their order, with every credential hidden.
pub open spec fn redacted_pairs(pairs: Seq<(Seq<char>, Seq<char>)>) -> Seq<(Seq<char>, Seq<char>)> {
    pairs.map_values(|p: (Seq<char>, Seq<char>)| redact_pair(p))
}

/// The URL written `url` with every credential in its query hidden, or
/// `None` where `url` cannot be parsed (and so cannot be cleaned).
pub open spec fn redacted_url(url: Seq<char>) -> Option<Seq<char>> {
    match query_pairs_of(url) {
        Some(pairs) => with_query_pairs_of(url, redacted_pairs(pairs)),
        None => None,
    }
}

/// Redaction hides exactly the credential: the same number of pairs, each
/// with its key, every `api_key` value replaced by `*****`, every other
/// value untouched; and redacting twice changes nothing more.
pub proof fn law_redaction(pairs: Seq<(Seq<char>, Seq<char>)>)
    ensures
        redacted_pairs(pairs).len() == pairs.len(),
        forall|i: int| 0 <= i < pairs.len() ==> (#[trigger] redacted_pairs(pairs)[i]).0 == pairs[i].0,
        forall|i: int| 0 <= i < pairs.len() && pairs[i].0 == API_KEY_PARAM@
            ==> (#[trigger] redacted_pairs(pairs)[i]).1 == REDACTED_VALUE@,
        forall|i: int| 0 <= i < pairs.len() && pairs[i].0 != API_KEY_PARAM@
            ==> (#[trigger] redacted_pairs(pairs)[i]).1 == pairs[i].1,
        redacted_pairs(redacted_pairs(pairs)) == redacted_pairs(pairs),
{
    assert(redacted_pairs(redacted_pairs(pairs)) =~= redacted_pairs(pairs));
}

/// Relies on `url::Url::parse` and `url::Url::query_pairs`: the decoded
/// query pairs of a URL, in their order.
#[verifier::external_body]
fn query_pairs(url: &str) -> (r: Option<Vec<(String, String)>>)
    ensures
        match r {
            Some(v) => query_pairs_of(url@) == Some(pairs_view(v@)),
            None => query_pairs_of(url@) is None,
        },
{
    match url::Url::parse(url) {
        Ok(parsed) => Some(
            parsed.query_pairs().map(|(k, v)| (k.into_owned(), v.into_owned())).collect(),
        ),
        Err(_) => None,
    }
}

/// Relies on `url::Url::parse`, `url::Url::query_pairs_mut` (`clear`, then
/// `extend_pairs`) and `url::Url::as_str`: a URL with its query rewritten.
#[verifier::external_body]
fn with_query_pairs(url: &str, pairs: &Vec<(String, String)>) -> (r: Option<String>)
    ensures
        match r {
            Some(s) => with_query_pairs_of(url@, pairs_view(pairs@)) == Some(s@),
            None => with_query_pairs_of(url@, pairs_view(pairs@)) is None,
        },
{
    match url::Url::parse(url) {
        Ok(mut parsed) => {
            parsed.query_pairs_mut().clear().extend_pairs(pairs.iter());
            Some(parsed.as_str().to_owned())
        },
        Err(_) => None,
    }
}

/// Replace the value of every `api_key` pair by `*****`, leaving every
/// other pair, and the order of all of them, as it was.
pub fn redact_query_pairs(pairs: &Vec<(String, String)>) -> (r: Vec<(String, String)>)
    ensures
        pairs_view(r@) == redacted_pairs(pairs_view(pairs@)),
        r@.len() == pairs@.len(),
        forall|i: int| 0 <= i < r@.len() ==> (#[trigger] r@[i]).0@ == pairs@[i].0@,
        forall|i: int| 0 <= i < r@.len() && pairs@[i].0@ == API_KEY_PARAM@
            ==> (#[trigger] r@[i]).1@ == REDACTED_VALUE@,
        forall|i: int| 0 <= i < r@.len() && pairs@[i].0@ != API_KEY_PARAM@
            ==> (#[trigger] r@[i]).1@ == pairs@[i].1@,
{
    let key = API_KEY_PARAM.to_owned();
    let mut r: Vec<(String, String)> = Vec::new();
    let mut i: usize = 0;
    while i < pairs.len()
        invariant
            i <= pairs@.len(),
            key@ == API_KEY_PARAM@,
            r@.len() == i,
            forall|j: int| 0 <= j < i ==> ((#[trigger] r@[j]).0@, r@[j].1@) == redact_pair((pairs@[j].0@, pairs@[j].1@)),
        decreases pairs@.len() - i,
    {
        let pair = &pairs[i];
        let value = if pair.0 == key {
            REDACTED_VALUE.to_owned()
        } else {
            pair.1.clone()
        };
        r.push((pair.0.clone(), value));
        i = i + 1;
    }
    assert(pairs_view(r@) =~= redacted_pairs(pairs_view(pairs@)));
    assert forall|i: int| 0 <= i < r@.len() implies {
        &&& (#[trigger] r@[i]).0@ == pairs@[i].0@
        &&& pairs@[i].0@ == API_KEY_PARAM@ ==> r@[i].1@ == REDACTED_VALUE@
        &&& pairs@[i].0@ != API_KEY_PARAM@ ==> r@[i].1@ == pairs@[i].1@
    } by {
        assert((r@[i].0@, r@[i].1@) == redact_pair((pairs@[i].0@, pairs@[i].1@)));
    }
    r
}

/// Given a URL with a possible `api_key` parameter, replace the value of
/// `api_key` by `*****`, to keep credentials out of logs and error
/// messages. `None` where the URL cannot be parsed.
pub fn url_without_api_key(url: &str) -> (r: Option<String>)
    ensures
        match r {
            Some(s) => redacted_url(url@) == Some(s@),
            None => redacted_url(url@) is None,
        },
{
    match query_pairs(url) {
        Some(pairs) => with_query_pairs(url, &redact_query_pairs(&pairs)),
        None => None,
    }
}

} // verus!
