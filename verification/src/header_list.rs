use vstd::prelude::*;

verus! {

use crate::text::str_eq;
use vstd::pervasive::VecAdditionalExecFns;

/// The value paired with the first occurrence of `key`, scanning the pairs
/// from the front.
pub open spec fn lookup_spec(
    pairs: Seq<(Seq<char>, Seq<char>)>,
    key: Seq<char>,
) -> Option<Seq<char>>
    decreases pairs.len(),
{
    if pairs.len() == 0 {
        None
    } else if pairs[0].0 == key {
        Some(pairs[0].1)
    } else {
        lookup_spec(pairs.drop_first(), key)
    }
}

/// The value paired with the last occurrence of `key`, scanning the pairs
/// from the back.
pub open spec fn last_match_spec(
    pairs: Seq<(Seq<char>, Seq<char>)>,
    key: Seq<char>,
) -> Option<Seq<char>>
    decreases pairs.len(),
{
    if pairs.len() == 0 {
        None
    } else if pairs.last().0 == key {
        Some(pairs.last().1)
    } else {
        last_match_spec(pairs.drop_last(), key)
    }
}

/// No two pairs carry the same name.
pub open spec fn unique_names(pairs: Seq<(Seq<char>, Seq<char>)>) -> bool {
    forall|i: int, j: int| 0 <= i < j < pairs.len() ==> pairs[i].0 != pairs[j].0
}

/// Index of the first pair whose name equals `key`, if any.
fn find_key(pairs: &Vec<(String, String)>, key: &str) -> (r: Option<usize>)
    ensures
        match r {
            Some(j) => {
                &&& j < pairs.deep_view().len()
                &&& pairs.deep_view()[j as int].0 == key@
                &&& forall|t: int| 0 <= t < j ==> pairs.deep_view()[t].0 != key@
            },
            None => forall|t: int|
                0 <= t < pairs.deep_view().len() ==> pairs.deep_view()[t].0 != key@,
        },
{
    let mut i: usize = 0;
    while i < pairs.len()
        invariant
            0 <= i <= pairs.deep_view().len(),
            pairs.deep_view().len() == pairs@.len(),
            forall|t: int| 0 <= t < i ==> pairs.deep_view()[t].0 != key@,
        decreases pairs.len() - i,
    {
        if str_eq(pairs[i].0.as_str(), key) {
            assert(pairs.deep_view()[i as int].0 == key@);
            return Some(i);
        }
        assert(pairs.deep_view()[i as int].0 != key@);
        i = i + 1;
    }
    None
}

/// When the first `j` pairs miss `key` and pair `j` hits it, the lookup
/// returns pair `j`'s value.
proof fn lemma_lookup_at_first_match(pairs: Seq<(Seq<char>, Seq<char>)>, key: Seq<char>, j: int)
    requires
        0 <= j < pairs.len(),
        pairs[j].0 == key,
        forall|t: int| 0 <= t < j ==> pairs[t].0 != key,
    ensures
        lookup_spec(pairs, key) == Some(pairs[j].1),
    decreases j,
{
    if j > 0 {
        lemma_lookup_at_first_match(pairs.drop_first(), key, j - 1);
    }
}

/// When no pair carries `key`, the lookup misses.
proof fn lemma_lookup_no_match(pairs: Seq<(Seq<char>, Seq<char>)>, key: Seq<char>)
    requires
        forall|t: int| 0 <= t < pairs.len() ==> pairs[t].0 != key,
    ensures
        lookup_spec(pairs, key) is None,
    decreases pairs.len(),
{
    if pairs.len() > 0 {
        lemma_lookup_no_match(pairs.drop_first(), key);
    }
}

/// Overwriting pair `j` with a pair of the same name leaves every other
/// name's lookup unchanged.
proof fn lemma_lookup_update_same_key(
    pairs: Seq<(Seq<char>, Seq<char>)>,
    j: int,
    p: (Seq<char>, Seq<char>),
    k: Seq<char>,
)
    requires
        0 <= j < pairs.len(),
        pairs[j].0 == p.0,
        k != p.0,
    ensures
        lookup_spec(pairs.update(j, p), k) == lookup_spec(pairs, k),
    decreases j,
{
    let updated = pairs.update(j, p);
    if j == 0 {
        assert(updated.drop_first() =~= pairs.drop_first());
    } else {
        assert(updated[0] == pairs[0]);
        if pairs[0].0 != k {
            assert(updated.drop_first() =~= pairs.drop_first().update(j - 1, p));
            lemma_lookup_update_same_key(pairs.drop_first(), j - 1, p, k);
        }
    }
}

/// Appending a pair whose name is absent resolves that name to the new value
/// and leaves every other name's lookup unchanged.
proof fn lemma_lookup_push(pairs: Seq<(Seq<char>, Seq<char>)>, p: (Seq<char>, Seq<char>), k: Seq<char>)
    requires
        forall|t: int| 0 <= t < pairs.len() ==> pairs[t].0 != p.0,
    ensures
        lookup_spec(pairs.push(p), p.0) == Some(p.1),
        k != p.0 ==> lookup_spec(pairs.push(p), k) == lookup_spec(pairs, k),
    decreases pairs.len(),
{
    let pushed = pairs.push(p);
    if pairs.len() == 0 {
        assert(pushed[0] == p);
        assert(pushed.drop_first() =~= Seq::<(Seq<char>, Seq<char>)>::empty());
        if k != p.0 {
            assert(lookup_spec(pushed, k) == lookup_spec(pushed.drop_first(), k));
            assert(lookup_spec(pairs, k) is None);
        }
    } else {
        assert(pushed[0] == pairs[0]);
        assert(pushed.drop_first() =~= pairs.drop_first().push(p));
        lemma_lookup_push(pairs.drop_first(), p, k);
    }
}

/// First-match lookup of `key` in the pair list.
pub fn lookup<'a>(pairs: &'a Vec<(String, String)>, key: &str) -> (r: Option<&'a String>)
    ensures
        match r {
            Some(v) => lookup_spec(pairs.deep_view(), key@) == Some(v@),
            None => lookup_spec(pairs.deep_view(), key@) is None,
        },
{
    match find_key(pairs, key) {
        Some(j) => {
            proof {
                lemma_lookup_at_first_match(pairs.deep_view(), key@, j as int);
            }
            Some(&pairs[j].1)
        },
        None => {
            proof {
                lemma_lookup_no_match(pairs.deep_view(), key@);
            }
            None
        },
    }
}

/// Sets `key` to `value`: the first pair already carrying `key` is
/// overwritten, or a new pair is appended. Every other name keeps its
/// value, and names that were unique stay unique.
pub fn upsert(pairs: &mut Vec<(String, String)>, key: String, value: String)
    ensures
        lookup_spec(final(pairs).deep_view(), key@) == Some(value@),
        forall|k: Seq<char>|
            k != key@ ==> lookup_spec(final(pairs).deep_view(), k) == lookup_spec(
                old(pairs).deep_view(),
                k,
            ),
        final(pairs).deep_view().len() <= old(pairs).deep_view().len() + 1,
        unique_names(old(pairs).deep_view()) ==> unique_names(final(pairs).deep_view()),
{
    let ghost before = pairs.deep_view();
    match find_key(pairs, key.as_str()) {
        Some(j) => {
            let ghost p = (key@, value@);
            pairs.set(j, (key, value));
            proof {
                assert(pairs.deep_view() =~= before.update(j as int, p));
                lemma_lookup_at_first_match(pairs.deep_view(), p.0, j as int);
                assert forall|k: Seq<char>| k != p.0 implies lookup_spec(
                    pairs.deep_view(),
                    k,
                ) == lookup_spec(before, k) by {
                    lemma_lookup_update_same_key(before, j as int, p, k);
                }
                if unique_names(before) {
                    let after = pairs.deep_view();
                    assert forall|a: int, b: int| 0 <= a < b < after.len() implies after[a].0
                        != after[b].0 by {
                        assert(after[a].0 == before[a].0);
                        assert(after[b].0 == before[b].0);
                    }
                }
            }
        },
        None => {
            let ghost p = (key@, value@);
            pairs.push((key, value));
            proof {
                assert(pairs.deep_view() =~= before.push(p));
                assert forall|k: Seq<char>| k != p.0 implies lookup_spec(
                    pairs.deep_view(),
                    k,
                ) == lookup_spec(before, k) by {
                    lemma_lookup_push(before, p, k);
                }
                lemma_lookup_push(before, p, p.0);
                if unique_names(before) {
                    let after = pairs.deep_view();
                    assert forall|a: int, b: int| 0 <= a < b < after.len() implies after[a].0
                        != after[b].0 by {
                        if b == before.len() {
                            assert(after[b] == p);
                            assert(after[a].0 == before[a].0);
                        } else {
                            assert(after[a].0 == before[a].0);
                            assert(after[b].0 == before[b].0);
                        }
                    }
                }
            }
        },
    }
}

/// Folds a pair list front to back with [`upsert`], so for every name the
/// last value in `src` wins and the result resolves it exactly as
/// [`last_match_spec`] does on `src`; the result's names are unique, so it
/// holds at most as many pairs as `src`.
pub fn collect_pairs(src: &Vec<(String, String)>) -> (r: Vec<(String, String)>)
    ensures
        forall|k: Seq<char>|
            #[trigger] lookup_spec(r.deep_view(), k) == last_match_spec(src.deep_view(), k),
        unique_names(r.deep_view()),
        r.deep_view().len() <= src.deep_view().len(),
{
    let ghost all = src.deep_view();
    let mut r: Vec<(String, String)> = Vec::new();
    let mut i: usize = 0;
    while i < src.len()
        invariant
            0 <= i <= src.len(),
            all == src.deep_view(),
            all.len() == src@.len(),
            forall|k: Seq<char>|
                #[trigger] lookup_spec(r.deep_view(), k) == last_match_spec(
                    all.take(i as int),
                    k,
                ),
            unique_names(r.deep_view()),
            r.deep_view().len() <= i,
        decreases src.len() - i,
    {
        let ghost prefix = all.take(i as int);
        let ghost p = all[i as int];
        let key = src[i].0.clone();
        let value = src[i].1.clone();
        assert(key@ == p.0 && value@ == p.1);
        upsert(&mut r, key, value);
        proof {
            let longer = all.take(i as int + 1);
            assert(longer.last() == p);
            assert(longer.drop_last() =~= prefix);
            assert forall|k: Seq<char>| true implies #[trigger] lookup_spec(
                r.deep_view(),
                k,
            ) == last_match_spec(longer, k) by {
                if k == p.0 {
                    assert(last_match_spec(longer, k) == Some(p.1));
                } else {
                    assert(last_match_spec(longer, k) == last_match_spec(prefix, k));
                }
            }
        }
        i = i + 1;
    }
    proof {
        assert(all.take(src@.len() as int) =~= all);
    }
    r
}

} // verus!
