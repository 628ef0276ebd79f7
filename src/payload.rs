use vstd::prelude::*;
use crate::kv::KvPair;

verus! {

/// The value that the last pair with key `k` gives, if any pair has that key.
pub open spec fn last_value(pairs: Seq<KvPair>, k: Seq<char>) -> Option<Seq<char>>
    decreases pairs.len(),
{
    if pairs.len() == 0 {
        None
    } else if pairs.last().k@ == k {
        Some(pairs.last().v@)
    } else {
        last_value(pairs.drop_last(), k)
    }
}

/// `r` is the keyed payload of `pairs`: each key once, with the value that its
/// last occurrence gives, and every key of `pairs` present.
pub open spec fn is_payload_of(r: Seq<KvPair>, pairs: Seq<KvPair>) -> bool {
    &&& forall|i: int, j: int| 0 <= i < j < r.len() ==> r[i].k@ != r[j].k@
    &&& forall|i: int| 0 <= i < r.len() ==> last_value(pairs, r[i].k@) == Some(r[i].v@)
    &&& forall|k: Seq<char>| #[trigger] last_value(pairs, k) is Some
            ==> exists|i: int| 0 <= i < r.len() && r[i].k@ == k
}

proof fn lemma_last_value_push(pairs: Seq<KvPair>, p: KvPair, k: Seq<char>)
    ensures
        last_value(pairs.push(p), k) == (if p.k@ == k { Some(p.v@) } else { last_value(pairs, k) }),
{
    assert(pairs.push(p).drop_last() =~= pairs);
}

/// A later pair overrides every earlier pair with the same key.
pub proof fn lemma_last_write_wins(pairs: Seq<KvPair>, p: KvPair)
    ensures
        last_value(pairs.push(p), p.k@) == Some(p.v@),
{
    lemma_last_value_push(pairs, p, p.k@);
}

/// Builds the keyed payload of a request body: one entry per key, in order of
/// first occurrence, holding the value of the key's last occurrence.
pub fn build_payload(pairs: &Vec<KvPair>) -> (r: Vec<KvPair>)
    ensures
        is_payload_of(r@, pairs@),
{
    let mut r: Vec<KvPair> = Vec::new();
    let mut j: usize = 0;
    while j < pairs.len()
        invariant
            0 <= j <= pairs.len(),
            is_payload_of(r@, pairs@.subrange(0, j as int)),
        decreases pairs.len() - j,
    {
        let ghost prev = pairs@.subrange(0, j as int);
        let ghost old_r = r@;
        assert(pairs@.subrange(0, j + 1) =~= prev.push(pairs@[j as int]));
        let p = &pairs[j];
        let mut idx: usize = 0;
        let mut found = false;
        while idx < r.len() && !found
            invariant
                r@ == old_r,
                0 <= idx <= r.len(),
                forall|i: int| 0 <= i < idx ==> r@[i].k@ != p.k@,
                found ==> idx < r.len() && r@[idx as int].k@ == p.k@,
            decreases r.len() - idx + (if found { 0int } else { 1int }),
        {
            if r[idx].k == p.k {
                found = true;
            } else {
                idx = idx + 1;
            }
        }
        let entry = KvPair { k: p.k.clone(), v: p.v.clone() };
        if found {
            r.set(idx, entry);
        } else {
            r.push(entry);
        }
        proof {
            let cur = pairs@.subrange(0, j + 1);
            assert(found ==> r@ == old_r.update(idx as int, entry));
            assert(!found ==> r@ == old_r.push(entry));
            assert forall|i: int| 0 <= i < r@.len() implies last_value(cur, r@[i].k@) == Some(r@[i].v@) by {
                lemma_last_value_push(prev, *p, r@[i].k@);
            }
            assert forall|k: Seq<char>| #[trigger] last_value(cur, k) is Some
                implies exists|i: int| 0 <= i < r@.len() && r@[i].k@ == k by {
                lemma_last_value_push(prev, *p, k);
                if k == p.k@ {
                    assert(r@[idx as int].k@ == k);
                } else {
                    let i = choose|i: int| 0 <= i < old_r.len() && old_r[i].k@ == k;
                    assert(r@[i].k@ == k);
                }
            }
        }
        j = j + 1;
    }
    assert(pairs@.subrange(0, pairs@.len() as int) =~= pairs@);
    r
}

} // verus!
