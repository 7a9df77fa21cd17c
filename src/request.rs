use vstd::prelude::*;
use vstd::string::*;

use crate::args::SearchArgs;

verus! {

pub open spec fn search_endpoint() -> Seq<char> {
    "https://api.spotify.com/v1/search"@
}

/// The search URL for a query. The query is placed as it is, without
/// percent-encoding, and both tracks and artists are asked for.
pub open spec fn search_url_of(query: Seq<char>) -> Seq<char> {
    search_endpoint() + "?q="@ + query + "&type=track,artist"@
}

pub open spec fn bearer_of(token: Seq<char>) -> Seq<char> {
    "Bearer "@ + token
}

pub open spec fn json_media_type() -> Seq<char> {
    "application/json"@
}

/// Everything the single search request carries: a GET of `url` with the
/// `Authorization`, `Content-Type` and `Accept` headers set to these values.
pub struct SearchRequest {
    pub url: String,
    pub authorization: String,
    pub content_type: String,
    pub accept: String,
}

/// Builds the search URL for a query.
pub fn search_url(query: &str) -> (r: String)
    ensures
        r@ == search_url_of(query@),
{
    let mut r = String::from_str("https://api.spotify.com/v1/search");
    r.append("?q=");
    r.append(query);
    r.append("&type=track,artist");
    r
}

/// The value of the `Authorization` header that carries a bearer token.
pub fn bearer_value(token: &str) -> (r: String)
    ensures
        r@ == bearer_of(token@),
{
    String::from_str("Bearer ").concat(token)
}

/// Describes the one request a search makes.
pub fn build_request(args: &SearchArgs) -> (r: SearchRequest)
    ensures
        r.url@ == search_url_of(args.query@),
        r.authorization@ == bearer_of(args.token@),
        r.content_type@ == json_media_type(),
        r.accept@ == json_media_type(),
{
    SearchRequest {
        url: search_url(args.query.as_str()),
        authorization: bearer_value(args.token.as_str()),
        content_type: String::from_str("application/json"),
        accept: String::from_str("application/json"),
    }
}

} // verus!
