use vstd::prelude::*;
use crate::error::HttpieError;
use crate::kv::{is_kv_token, key_of, parse_kv_pair, value_of, KvPair};
use crate::url::{parse_url, url_accepts};

verus! {

/// One request to make: a GET of a URL, or a POST of key=value pairs to a URL.
#[derive(Debug, Clone)]
pub enum Command {
    Get { url: String },
    Post { url: String, body: Vec<KvPair> },
}

/// Builds a GET request; the URL is checked before anything else happens.
pub fn get_command(url: &str) -> (r: Result<Command, HttpieError>)
    ensures
        url_accepts(url@) ==> (r matches Ok(Command::Get { url: u }) && u@ == url@),
        !url_accepts(url@) ==> r == Err::<Command, HttpieError>(HttpieError::InvalidUrl),
{
    match parse_url(url) {
        Ok(u) => Ok(Command::Get { url: u }),
        Err(e) => Err(e),
    }
}

/// Whether every token of `tokens` is a key=value pair.
pub open spec fn all_kv_tokens(tokens: Seq<String>) -> bool {
    forall|i: int| 0 <= i < tokens.len() ==> is_kv_token(tokens[i]@)
}

/// Builds a POST request: the URL is checked first, then each body token in
/// order; the pairs keep the order of the tokens.
pub fn post_command(url: &str, tokens: &Vec<String>) -> (r: Result<Command, HttpieError>)
    ensures
        !url_accepts(url@) ==> r == Err::<Command, HttpieError>(HttpieError::InvalidUrl),
        url_accepts(url@) && !all_kv_tokens(tokens@)
            ==> r == Err::<Command, HttpieError>(HttpieError::MalformedKeyValue),
        url_accepts(url@) && all_kv_tokens(tokens@) ==> (r matches Ok(Command::Post { url: u, body: b })
            && u@ == url@
            && b@.len() == tokens@.len()
            && forall|i: int| 0 <= i < b@.len()
                ==> b@[i].k@ == key_of(tokens@[i]@) && b@[i].v@ == value_of(tokens@[i]@)),
{
    let u = match parse_url(url) {
        Ok(u) => u,
        Err(e) => return Err(e),
    };
    let mut body: Vec<KvPair> = Vec::new();
    let mut i: usize = 0;
    while i < tokens.len()
        invariant
            0 <= i <= tokens.len(),
            u@ == url@,
            url_accepts(url@),
            body@.len() == i,
            forall|j: int| 0 <= j < i ==> is_kv_token(tokens@[j]@),
            forall|j: int| 0 <= j < i
                ==> body@[j].k@ == key_of(tokens@[j]@) && body@[j].v@ == value_of(tokens@[j]@),
        decreases tokens.len() - i,
    {
        match parse_kv_pair(tokens[i].as_str()) {
            Ok(p) => body.push(p),
            Err(e) => return Err(e),
        }
        i = i + 1;
    }
    Ok(Command::Post { url: u, body })
}

} // verus!
