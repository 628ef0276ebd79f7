use vstd::prelude::*;
use vstd::string::StrSliceExecFns;
use crate::error::HttpieError;

verus! {

/// A `key=value` token of the command line, split in two.
#[derive(Debug, Clone)]
pub struct KvPair {
    pub k: String,
    pub v: String,
}

/// Index of the first `=` in `s` at or after `from`, or `s.len()` when there is none.
pub open spec fn separator_from(s: Seq<char>, from: int) -> int
    decreases s.len() - from,
{
    if from >= s.len() || from < 0 {
        s.len() as int
    } else if s[from] == '=' {
        from
    } else {
        separator_from(s, from + 1)
    }
}

proof fn lemma_separator_from(s: Seq<char>, from: int)
    requires
        0 <= from <= s.len(),
    ensures
        from <= separator_from(s, from) <= s.len(),
        forall|j: int| from <= j < separator_from(s, from) ==> s[j] != '=',
        separator_from(s, from) < s.len() ==> s[separator_from(s, from)] == '=',
    decreases s.len() - from,
{
    if from < s.len() && s[from] != '=' {
        lemma_separator_from(s, from + 1);
    }
}

/// The key of a token: everything before its first `=`.
pub open spec fn key_of(s: Seq<char>) -> Seq<char> {
    s.subrange(0, separator_from(s, 0))
}

/// The value of a token: everything after its first `=`, later `=` included.
pub open spec fn value_of(s: Seq<char>) -> Seq<char> {
    s.subrange(separator_from(s, 0) + 1, s.len() as int)
}

/// A token is well formed when it holds an `=`.
pub open spec fn is_kv_token(s: Seq<char>) -> bool {
    separator_from(s, 0) < s.len()
}

/// Splits a token at its first `=`; fails when there is no `=`.
pub fn parse_kv_pair(s: &str) -> (r: Result<KvPair, HttpieError>)
    ensures
        is_kv_token(s@) <==> r.is_ok(),
        r.is_err() ==> r == Err::<KvPair, HttpieError>(HttpieError::MalformedKeyValue),
        r matches Ok(p) ==> p.k@ == key_of(s@) && p.v@ == value_of(s@),
{
    let n = s.unicode_len();
    let mut i: usize = 0;
    proof { lemma_separator_from(s@, 0); }
    while i < n
        invariant
            n == s@.len(),
            0 <= i <= n,
            forall|j: int| 0 <= j < i ==> s@[j] != '=',
            separator_from(s@, 0) == separator_from(s@, i as int),
        decreases n - i,
    {
        if s.get_char(i) == '=' {
            let k = s.substring_char(0, i).to_owned();
            let v = s.substring_char(i + 1, n).to_owned();
            return Ok(KvPair { k, v });
        }
        i = i + 1;
    }
    Err(HttpieError::MalformedKeyValue)
}

/// A well-formed token is its key, one `=` and its value, joined back together.
pub proof fn lemma_kv_rejoin(s: Seq<char>)
    requires
        is_kv_token(s),
    ensures
        key_of(s) + seq!['='] + value_of(s) =~= s,
{
    lemma_separator_from(s, 0);
}

/// A token without any `=` is not a key=value pair.
pub proof fn lemma_kv_no_separator(s: Seq<char>)
    requires
        forall|i: int| 0 <= i < s.len() ==> s[i] != '=',
    ensures
        !is_kv_token(s),
{
    lemma_separator_from(s, 0);
}

/// The split happens at the first `=`: the key holds none, and the value keeps
/// every later `=` in its place.
pub proof fn lemma_kv_first_separator(s: Seq<char>)
    requires
        is_kv_token(s),
    ensures
        forall|j: int| 0 <= j < key_of(s).len() ==> key_of(s)[j] != '=',
        s[key_of(s).len() as int] == '=',
        forall|j: int| 0 <= j < value_of(s).len() ==> value_of(s)[j] == s[key_of(s).len() + 1 + j],
{
    lemma_separator_from(s, 0);
}

} // verus!
