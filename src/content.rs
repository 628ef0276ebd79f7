use vstd::prelude::*;
use vstd::string::StrSliceExecFns;

verus! {

/// How a response body is shown, decided by its declared content type.
#[derive(Debug, Clone, Copy, PartialEq, Eq, Structural)]
pub enum ContentCategory {
    Json,
    Html,
    Other,
}

/// The category of a declared content type: only the exact types
/// `application/json` and `text/html` are highlighted.
pub open spec fn category_spec(ct: Option<Seq<char>>) -> ContentCategory {
    match ct {
        Some(t) => if t == "application/json"@ {
            ContentCategory::Json
        } else if t == "text/html"@ {
            ContentCategory::Html
        } else {
            ContentCategory::Other
        },
        None => ContentCategory::Other,
    }
}

fn same_text(a: &str, b: &str) -> (r: bool)
    ensures
        r == (a@ == b@),
{
    let n = a.unicode_len();
    if n != b.unicode_len() {
        return false;
    }
    let mut i: usize = 0;
    while i < n
        invariant
            n == a@.len() == b@.len(),
            0 <= i <= n,
            forall|j: int| 0 <= j < i ==> a@[j] == b@[j],
        decreases n - i,
    {
        if a.get_char(i) != b.get_char(i) {
            return false;
        }
        i = i + 1;
    }
    assert(a@ =~= b@);
    true
}

/// Classifies a response by its declared content type, if it has one.
pub fn category_of(content_type: Option<&str>) -> (r: ContentCategory)
    ensures
        r == category_spec(match content_type { Some(t) => Some(t@), None => None }),
{
    match content_type {
        Some(t) => {
            if same_text(t, "application/json") {
                ContentCategory::Json
            } else if same_text(t, "text/html") {
                ContentCategory::Html
            } else {
                ContentCategory::Other
            }
        },
        None => ContentCategory::Other,
    }
}

/// The highlighting rule set that a category asks for, if any.
pub fn rule_set_name(c: ContentCategory) -> (r: Option<&'static str>)
    ensures
        c == ContentCategory::Json ==> (r matches Some(n) && n@ == "json"@),
        c == ContentCategory::Html ==> (r matches Some(n) && n@ == "html"@),
        c == ContentCategory::Other ==> r is None,
{
    match c {
        ContentCategory::Json => Some("json"),
        ContentCategory::Html => Some("html"),
        ContentCategory::Other => None,
    }
}

/// A body shown verbatim: its text and one line break.
pub fn plain_body(body: &str) -> (r: String)
    ensures
        r@ == body@ + seq!['\n'],
{
    let s = body.to_owned();
    let r = s.concat("\n");
    proof {
        reveal_strlit("\n");
    }
    r
}

} // verus!
