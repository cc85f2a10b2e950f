use vstd::prelude::*;

verus! {

/// The texts of a list of strings.
pub open spec fn texts(v: Seq<String>) -> Seq<Seq<char>> {
    v.map_values(|s: String| s@)
}

/// The first position of `target` in `v`, if any.
pub fn find_name(v: &Vec<String>, target: &str) -> (r: Option<usize>)
    ensures
        match r {
            Some(i) => i < v@.len() && v@[i as int]@ == target@ && forall|k: int| 0 <= k < i ==> #[trigger] v@[k]@ != target@,
            None => forall|k: int| 0 <= k < v@.len() ==> #[trigger] v@[k]@ != target@,
        },
{
    let mut i: usize = 0;
    while i < v.len()
        invariant
            i <= v.len(),
            forall|k: int| 0 <= k < i ==> #[trigger] v@[k]@ != target@,
        decreases v.len() - i,
    {
        if crate::text::str_eq(v[i].as_str(), target) {
            return Some(i);
        }
        i = i + 1;
    }
    None
}

/// Adds `name` to the list unless it is already there.
pub fn insert_name(v: &mut Vec<String>, name: &str)
    ensures
        texts(final(v)@).to_set() == texts(old(v)@).to_set().insert(name@),
        texts(old(v)@).no_duplicates() ==> texts(final(v)@).no_duplicates(),
{
    match find_name(v, name) {
        Some(i) => {
            assert(texts(v@)[i as int] == name@);
            assert(texts(v@).to_set().insert(name@) =~= texts(v@).to_set());
        },
        None => {
            let ghost before = texts(v@);
            v.push(name.to_string());
            proof {
                assert(texts(v@) =~= before.push(name@));
                assert(!before.contains(name@)) by {
                    if before.contains(name@) {
                        let k = choose|k: int| #![auto] 0 <= k < before.len() && before[k] == name@;
                        assert(old(v)@[k]@ != name@);
                    }
                }
                assert(texts(v@).to_set() =~= before.to_set().insert(name@)) by {
                    assert forall|x: Seq<char>| texts(v@).to_set().contains(x) <==> before.to_set().insert(name@).contains(x) by {
                        if texts(v@).contains(x) && x != name@ {
                            let k = choose|k: int| #![auto] 0 <= k < texts(v@).len() && texts(v@)[k] == x;
                            assert(before[k] == x);
                        }
                        if before.contains(x) {
                            let k = choose|k: int| #![auto] 0 <= k < before.len() && before[k] == x;
                            assert(texts(v@)[k] == x);
                        }
                        if x == name@ {
                            assert(texts(v@)[before.len() as int] == x);
                        }
                    }
                }
            }
        },
    }
}

} // verus!
