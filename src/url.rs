use vstd::prelude::*;
use crate::error::HttpieError;

verus! {

/// Whether the URL parser accepts `s` as an absolute URL.
pub uninterp spec fn url_accepts(s: Seq<char>) -> bool;

/// Relies on url::Url::parse (re-exported by reqwest): whether `s` parses as an
/// absolute URL; the answer depends on the text alone.
#[verifier::external_body]
fn url_parses(s: &str) -> (r: bool)
    ensures
        r == url_accepts(s@),
{
    reqwest::Url::parse(s).is_ok()
}

/// Checks that `s` is an absolute URL and hands it back unchanged.
pub fn parse_url(s: &str) -> (r: Result<String, HttpieError>)
    ensures
        url_accepts(s@) ==> (r matches Ok(u) && u@ == s@),
        !url_accepts(s@) ==> r == Err::<String, HttpieError>(HttpieError::InvalidUrl),
{
    if url_parses(s) {
        Ok(s.to_owned())
    } else {
        Err(HttpieError::InvalidUrl)
    }
}

} // verus!
