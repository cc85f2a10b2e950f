use vstd::prelude::*;

use crate::text::str_eq;

verus! {

/// No name occurs twice among the pairs.
pub open spec fn keys_unique(v: Seq<(String, String)>) -> bool {
    forall|i: int, j: int| 0 <= i < j < v.len() ==> (#[trigger] v[i]).0@ != (#[trigger] v[j]).0@
}

/// `k` is the name of some pair.
pub open spec fn has_key(v: Seq<(String, String)>, k: Seq<char>) -> bool {
    exists|i: int| 0 <= i < v.len() && (#[trigger] v[i]).0@ == k
}

/// The value paired with `k`, if any (the first such pair).
pub open spec fn value_of(v: Seq<(String, String)>, k: Seq<char>) -> Option<Seq<char>> {
    if has_key(v, k) {
        let i = choose|i: int| 0 <= i < v.len() && (#[trigger] v[i]).0@ == k;
        Some(v[i].1@)
    } else {
        None
    }
}

/// The pairs as a map from name to value.
pub open spec fn pairs_map(v: Seq<(String, String)>) -> Map<Seq<char>, Seq<char>> {
    Map::new(|k: Seq<char>| has_key(v, k), |k: Seq<char>| value_of(v, k)->Some_0)
}

/// With unique names, any pair named `k` holds the value of `k`.
pub proof fn lemma_value_at(v: Seq<(String, String)>, i: int)
    requires
        keys_unique(v),
        0 <= i < v.len(),
    ensures
        value_of(v, v[i].0@) == Some(v[i].1@),
{
    let k = v[i].0@;
    assert(has_key(v, k));
    let j = choose|j: int| 0 <= j < v.len() && (#[trigger] v[j]).0@ == k;
    if j != i {
        if j < i {
            assert(v[j].0@ != v[i].0@);
        } else {
            assert(v[i].0@ != v[j].0@);
        }
    }
}

/// The pairs as pairs of texts.
pub open spec fn pair_texts(v: Seq<(String, String)>) -> Seq<(Seq<char>, Seq<char>)> {
    v.map_values(|p: (String, String)| (p.0@, p.1@))
}

/// The index of the pair named `k`, if there is one.
pub fn find_key(v: &Vec<(String, String)>, k: &str) -> (r: Option<usize>)
    ensures
        match r {
            Some(i) => i < v@.len() && v@[i as int].0@ == k@ && forall|j: int| 0 <= j < i ==> (#[trigger] v@[j]).0@ != k@,
            None => !has_key(v@, k@),
        },
{
    let mut i: usize = 0;
    while i < v.len()
        invariant
            i <= v@.len(),
            forall|j: int| 0 <= j < i ==> (#[trigger] v@[j]).0@ != k@,
        decreases v@.len() - i,
    {
        if str_eq(v[i].0.as_str(), k) {
            return Some(i);
        }
        i = i + 1;
    }
    None
}

/// Sets the value of `k` to `val`: the pair named `k` is updated in place, or a new pair
/// is appended.
pub fn put_pair(v: &mut Vec<(String, String)>, k: String, val: String)
    requires
        keys_unique(old(v)@),
    ensures
        keys_unique(final(v)@),
        has_key(final(v)@, k@),
        value_of(final(v)@, k@) == Some(val@),
        forall|q: Seq<char>| q != k@ ==> #[trigger] value_of(final(v)@, q) == value_of(old(v)@, q),
        forall|q: Seq<char>| q != k@ ==> #[trigger] has_key(final(v)@, q) == has_key(old(v)@, q),
{
    let ghost old_v = v@;
    match find_key(v, k.as_str()) {
        Some(i) => {
            let ghost kk = k@;
            v.set(i, (k, val));
            assert forall|a: int, b: int| 0 <= a < b < v@.len() implies (#[trigger] v@[a]).0@ != (#[trigger] v@[b]).0@ by {
                assert(old_v[a].0@ != old_v[b].0@);
            }
            proof {
                lemma_value_at(v@, i as int);
            }
            assert forall|q: Seq<char>| q != kk implies #[trigger] has_key(v@, q) == has_key(old_v, q) by {
                if has_key(v@, q) {
                    let j = choose|j: int| 0 <= j < v@.len() && (#[trigger] v@[j]).0@ == q;
                    assert(old_v[j].0@ == q);
                }
                if has_key(old_v, q) {
                    let j = choose|j: int| 0 <= j < old_v.len() && (#[trigger] old_v[j]).0@ == q;
                    assert(v@[j].0@ == q);
                }
            }
            assert forall|q: Seq<char>| q != kk implies #[trigger] value_of(v@, q) == value_of(old_v, q) by {
                if has_key(v@, q) {
                    let j = choose|j: int| 0 <= j < v@.len() && (#[trigger] v@[j]).0@ == q;
                    assert(old_v[j] == v@[j]);
                    lemma_value_at(v@, j);
                    lemma_value_at(old_v, j);
                }
            }
        },
        None => {
            let ghost kk = k@;
            v.push((k, val));
            assert forall|a: int, b: int| 0 <= a < b < v@.len() implies (#[trigger] v@[a]).0@ != (#[trigger] v@[b]).0@ by {
                if b == old_v.len() {
                    assert(old_v[a].0@ != kk);
                } else {
                    assert(old_v[a].0@ != old_v[b].0@);
                }
            }
            proof {
                lemma_value_at(v@, old_v.len() as int);
            }
            assert forall|q: Seq<char>| q != kk implies #[trigger] has_key(v@, q) == has_key(old_v, q) by {
                if has_key(v@, q) {
                    let j = choose|j: int| 0 <= j < v@.len() && (#[trigger] v@[j]).0@ == q;
                    assert(j < old_v.len());
                    assert(old_v[j].0@ == q);
                }
                if has_key(old_v, q) {
                    let j = choose|j: int| 0 <= j < old_v.len() && (#[trigger] old_v[j]).0@ == q;
                    assert(v@[j].0@ == q);
                }
            }
            assert forall|q: Seq<char>| q != kk implies #[trigger] value_of(v@, q) == value_of(old_v, q) by {
                if has_key(v@, q) {
                    let j = choose|j: int| 0 <= j < v@.len() && (#[trigger] v@[j]).0@ == q;
                    assert(j < old_v.len());
                    assert(old_v[j] == v@[j]);
                    lemma_value_at(v@, j);
                    lemma_value_at(old_v, j);
                }
            }
        },
    }
}

} // verus!
