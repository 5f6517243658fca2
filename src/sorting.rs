use vstd::prelude::*;
use crate::text::{is_text_less, lemma_text_less_total, lemma_text_less_transitive, text_less};

verus! {

/// No two entries share a key.
pub open spec fn keys_unique<T>(s: Seq<(String, T)>) -> bool {
    forall|i: int, j: int| 0 <= i < j < s.len() ==> s[i].0@ != s[j].0@
}

/// The entries' keys ascend strictly.
pub open spec fn keys_ascending<T>(s: Seq<(&String, &T)>) -> bool {
    forall|i: int, j: int| 0 <= i < j < s.len() ==> text_less(s[i].0@, s[j].0@)
}

/// Entry `i` of the view is entry `j` of the collection.
pub open spec fn same_entry<T>(v: Seq<(&String, &T)>, i: int, s: Seq<(String, T)>, j: int) -> bool {
    *v[i].0 == s[j].0 && *v[i].1 == s[j].1
}

/// Entry `i` of the view is one of the first `n` entries of the collection.
pub open spec fn drawn_from<T>(v: Seq<(&String, &T)>, i: int, s: Seq<(String, T)>, n: int) -> bool {
    exists|j: int| 0 <= j < n && #[trigger] same_entry(v, i, s, j)
}

/// Entry `j` of the collection stands in the view.
pub open spec fn listed_in<T>(v: Seq<(&String, &T)>, s: Seq<(String, T)>, j: int) -> bool {
    exists|i: int| 0 <= i < v.len() && #[trigger] same_entry(v, i, s, j)
}

/// A view of a keyed collection that lists each entry once, by ascending key.
pub open spec fn is_sorted_view<T>(v: Seq<(&String, &T)>, s: Seq<(String, T)>) -> bool {
    &&& v.len() == s.len()
    &&& keys_ascending(v)
    &&& forall|i: int| 0 <= i < v.len() ==> #[trigger] drawn_from(v, i, s, s.len() as int)
    &&& forall|j: int| 0 <= j < s.len() ==> #[trigger] listed_in(v, s, j)
}

/// Lists the entries of a keyed collection in ascending order of their keys,
/// so that what is shown from it comes in the same order on every run.
pub fn sort_list<'a, T>(hash_list: &'a Vec<(String, T)>) -> (r: Vec<(&'a String, &'a T)>)
    requires
        keys_unique(hash_list@),
    ensures
        is_sorted_view(r@, hash_list@),
{
    let mut output: Vec<(&'a String, &'a T)> = Vec::new();
    let mut k: usize = 0;
    while k < hash_list.len()
        invariant
            keys_unique(hash_list@),
            0 <= k <= hash_list@.len(),
            output@.len() == k,
            keys_ascending(output@),
            forall|i: int| 0 <= i < output@.len() ==> #[trigger] drawn_from(output@, i, hash_list@, k as int),
            forall|j: int| 0 <= j < k ==> #[trigger] listed_in(output@, hash_list@, j),
        decreases hash_list@.len() - k,
    {
        let entry = &hash_list[k];
        let mut p: usize = 0;
        while p < output.len() && is_text_less(output[p].0.as_str(), entry.0.as_str())
            invariant
                0 <= p <= output@.len(),
                forall|i: int| 0 <= i < p ==> text_less(output@[i].0@, entry.0@),
            decreases output@.len() - p,
        {
            p = p + 1;
        }
        let ghost before = output@;
        proof {
            if p < before.len() {
                assert(drawn_from(before, p as int, hash_list@, k as int));
                let j = choose|j: int| 0 <= j < k && #[trigger] same_entry(before, p as int, hash_list@, j);
                assert(hash_list@[j].0@ != hash_list@[k as int].0@);
                lemma_text_less_total(before[p as int].0@, entry.0@);
            }
        }
        output.insert(p, (&entry.0, &entry.1));
        proof {
            let after = output@;
            assert(after =~= before.insert(p as int, (&entry.0, &entry.1)));
            assert forall|a: int, b: int| 0 <= a < b < after.len() implies text_less(after[a].0@, after[b].0@) by {
                if b < p {
                } else if b == p {
                } else if a < p {
                    assert(text_less(before[a].0@, entry.0@));
                    assert(text_less(entry.0@, before[p as int].0@));
                    lemma_text_less_transitive(before[a].0@, entry.0@, before[p as int].0@);
                    if b - 1 > p {
                        lemma_text_less_transitive(before[a].0@, before[p as int].0@, before[b - 1].0@);
                    }
                } else if a == p {
                    if b - 1 > p {
                        lemma_text_less_transitive(entry.0@, before[p as int].0@, before[b - 1].0@);
                    }
                } else {
                    assert(text_less(before[a - 1].0@, before[b - 1].0@));
                }
            }
            assert forall|i: int| 0 <= i < after.len() implies #[trigger] drawn_from(after, i, hash_list@, k + 1) by {
                if i < p {
                    assert(drawn_from(before, i, hash_list@, k as int));
                    let j = choose|j: int| 0 <= j < k && #[trigger] same_entry(before, i, hash_list@, j);
                    assert(same_entry(after, i, hash_list@, j));
                } else if i == p {
                    assert(same_entry(after, i, hash_list@, k as int));
                } else {
                    assert(drawn_from(before, i - 1, hash_list@, k as int));
                    let j = choose|j: int| 0 <= j < k && #[trigger] same_entry(before, i - 1, hash_list@, j);
                    assert(same_entry(after, i, hash_list@, j));
                }
            }
            assert forall|j: int| 0 <= j < k + 1 implies #[trigger] listed_in(after, hash_list@, j) by {
                if j == k {
                    assert(same_entry(after, p as int, hash_list@, j));
                } else {
                    assert(listed_in(before, hash_list@, j));
                    let i = choose|i: int| 0 <= i < before.len() && #[trigger] same_entry(before, i, hash_list@, j);
                    if i < p {
                        assert(same_entry(after, i, hash_list@, j));
                    } else {
                        assert(same_entry(after, i + 1, hash_list@, j));
                    }
                }
            }
        }
        k = k + 1;
    }
    output
}

} // verus!
