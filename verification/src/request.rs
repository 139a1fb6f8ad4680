//! The search request that fetches a feed.

use vstd::prelude::*;
use vstd::string::*;

verus! {

/// How many messages a search asks for.
pub const MAX_RESULTS: u8 = 30;

/// The parameters of a search for the recent messages of one feed.
#[derive(Clone, Debug, PartialEq, Eq)]
pub struct SearchParams {
    pub query: String,
    pub max_results: u8,
    pub sort_order: String,
    pub tweet_fields: String,
}

/// The query `from:<source>`, its colon written as `%3A` as it goes on the wire.
pub open spec fn search_query(source: Seq<char>) -> Seq<char> {
    "from%3A"@ + source
}

/// A parameter as `key=value`.
pub open spec fn pair_text(pair: (Seq<char>, Seq<char>)) -> Seq<char> {
    pair.0 + "="@ + pair.1
}

/// The parameters as `key=value`, in the order given, with `&` between them.
pub open spec fn joined(pairs: Seq<(Seq<char>, Seq<char>)>) -> Seq<char>
    decreases pairs.len(),
{
    if pairs.len() == 0 {
        Seq::empty()
    } else if pairs.len() == 1 {
        pair_text(pairs[0])
    } else {
        joined(pairs.drop_last()) + "&"@ + pair_text(pairs.last())
    }
}

/// The address of a search with the query string `query`.
pub open spec fn search_address(query: Seq<char>) -> Seq<char> {
    "https://api.twitter.com"@ + "/2/tweets/search/recent?"@ + query
}

/// The search for the messages of the feed `source`: the thirty most recent,
/// newest first, each with the time of its creation.
pub fn search_params(source: &str) -> (params: SearchParams)
    ensures
        params.query@ == search_query(source@),
        params.max_results == MAX_RESULTS,
        params.sort_order@ == "recency"@,
        params.tweet_fields@ == "created_at"@,
{
    let mut query = String::from_str("from%3A");
    query.append(source);
    SearchParams {
        query,
        max_results: MAX_RESULTS,
        sort_order: String::from_str("recency"),
        tweet_fields: String::from_str("created_at"),
    }
}

/// Joins parameters into a query string.
pub fn query_string(pairs: &Vec<(String, String)>) -> (query: String)
    ensures
        query@ == joined(pairs.deep_view()),
{
    let mut query = String::new();
    let mut i: usize = 0;
    while i < pairs.len()
        invariant
            i <= pairs.len(),
            query@ == joined(pairs.deep_view().take(i as int)),
        decreases pairs.len() - i,
    {
        let ghost upto = pairs.deep_view().take(i as int + 1);
        assert(upto.drop_last() =~= pairs.deep_view().take(i as int));
        if i > 0 {
            query.append("&");
        }
        query.append(pairs[i].0.as_str());
        query.append("=");
        query.append(pairs[i].1.as_str());
        i += 1;
    }
    assert(pairs.deep_view().take(pairs.len() as int) =~= pairs.deep_view());
    query
}

/// The address to fetch for the query string `query`.
pub fn request_uri(query: &str) -> (uri: String)
    ensures
        uri@ == search_address(query@),
{
    let mut uri = String::from_str("https://api.twitter.com");
    uri.append("/2/tweets/search/recent?");
    uri.append(query);
    uri
}

} // verus!
