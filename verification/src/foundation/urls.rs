use vstd::prelude::*;

verus! {

/// The text `url::Url` gives after parsing `base` and appending each name/value pair to its
/// query with `append_pair` (form-urlencoded); `None` when `base` does not parse.
pub uninterp spec fn url_with_query(base: Seq<char>, pairs: Seq<(Seq<char>, Seq<char>)>) -> Option<Seq<char>>;

/// The views of name/value pairs.
pub open spec fn pair_views(pairs: Seq<(String, String)>) -> Seq<(Seq<char>, Seq<char>)> {
    pairs.map_values(|p: (String, String)| (p.0@, p.1@))
}

/// `base` with the pairs appended to its query, through `url::Url::parse_with_params` (which
/// parses `base`, then appends every pair with `append_pair`) and `String::from(Url)`; `None`
/// when the base does not parse. The text itself is the `url` crate's and is only named here.
#[verifier::external_body]
pub(crate) fn query_url(base: &str, pairs: &Vec<(String, String)>) -> (r: Option<String>)
    ensures
        match r {
            Some(s) => url_with_query(base@, pair_views(pairs@)) == Some(s@),
            None => url_with_query(base@, pair_views(pairs@)) is None,
        },
{
    match url::Url::parse_with_params(base, pairs.iter()) {
        Ok(url) => Some(url.into()),
        Err(_) => None,
    }
}

/// The name/value pairs of the query of `input` as `url::Url::parse` and `Url::query_pairs`
/// give them (form-urlencoded, decoded); `None` when `input` does not parse.
pub uninterp spec fn url_query_pairs(input: Seq<char>) -> Option<Seq<(Seq<char>, Seq<char>)>>;

/// The query pairs of a URL, through `url::Url::parse` and `Url::query_pairs`; `None` when it
/// does not parse. The decoding is the `url` crate's and is only named here.
#[verifier::external_body]
pub(crate) fn query_pairs(input: &str) -> (r: Option<Vec<(String, String)>>)
    ensures
        match r {
            Some(p) => url_query_pairs(input@) == Some(pair_views(p@)),
            None => url_query_pairs(input@) is None,
        },
{
    let url = url::Url::parse(input).ok()?;
    Some(url.query_pairs().map(|(k, v)| (k.into_owned(), v.into_owned())).collect())
}

} // verus!
