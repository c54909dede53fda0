//! String-keyed association lists: a `Vec<(String, V)>` read as a map in
//! which a later entry for a key shadows an earlier one.
use vstd::prelude::*;

use crate::text::str_eq;

verus! {

/// The map an association list stands for: each entry, in order, inserted
/// over the ones before it.
pub open spec fn assoc_map<V: View>(s: Seq<(String, V)>) -> Map<Seq<char>, V::V>
    decreases s.len(),
{
    if s.len() == 0 {
        Map::empty()
    } else {
        assoc_map(s.drop_last()).insert(s.last().0@, s.last().1@)
    }
}

/// `j` is the last entry of `s` whose key reads `k`.
pub open spec fn is_last_key<V>(s: Seq<(String, V)>, j: int, k: Seq<char>) -> bool {
    &&& 0 <= j < s.len()
    &&& s[j].0@ == k
    &&& forall|i: int| j < i < s.len() ==> (#[trigger] s[i]).0@ != k
}

/// A key is mapped exactly when some entry carries it.
pub proof fn lemma_assoc_absent<V: View>(s: Seq<(String, V)>, k: Seq<char>)
    ensures
        assoc_map(s).contains_key(k) <==> exists|i: int| 0 <= i < s.len() && (#[trigger] s[i]).0@ == k,
    decreases s.len(),
{
    if s.len() > 0 {
        lemma_assoc_absent(s.drop_last(), k);
        if assoc_map(s.drop_last()).contains_key(k) {
            let i = choose|i: int| 0 <= i < s.drop_last().len() && (#[trigger] s.drop_last()[i]).0@ == k;
            assert(s[i] == s.drop_last()[i]);
        }
        if exists|i: int| 0 <= i < s.len() && (#[trigger] s[i]).0@ == k {
            let i = choose|i: int| 0 <= i < s.len() && (#[trigger] s[i]).0@ == k;
            if i < s.len() - 1 {
                assert(s.drop_last()[i] == s[i]);
            }
        }
    }
}

/// The value mapped to a key is the one of its last entry.
pub proof fn lemma_assoc_last<V: View>(s: Seq<(String, V)>, j: int, k: Seq<char>)
    requires
        is_last_key(s, j, k),
    ensures
        assoc_map(s).contains_key(k),
        assoc_map(s)[k] == s[j].1@,
    decreases s.len(),
{
    if j < s.len() - 1 {
        assert(s[s.len() - 1].0@ != k);
        assert forall|i: int| j < i < s.drop_last().len() implies (#[trigger] s.drop_last()[i]).0@ != k by {
            assert(s.drop_last()[i] == s[i]);
        }
        lemma_assoc_last(s.drop_last(), j, k);
    }
}

/// Overwriting the last entry of a key rebinds the key and nothing else.
pub proof fn lemma_assoc_update_last<V: View>(s: Seq<(String, V)>, j: int, k: Seq<char>, e: (String, V))
    requires
        is_last_key(s, j, k),
        e.0@ == k,
    ensures
        assoc_map(s.update(j, e)) == assoc_map(s).insert(k, e.1@),
    decreases s.len(),
{
    let s2 = s.update(j, e);
    if j == s.len() - 1 {
        assert(s2.drop_last() =~= s.drop_last());
        assert(assoc_map(s2) =~= assoc_map(s).insert(k, e.1@));
    } else {
        assert(s[s.len() - 1].0@ != k);
        assert forall|i: int| j < i < s.drop_last().len() implies (#[trigger] s.drop_last()[i]).0@ != k by {
            assert(s.drop_last()[i] == s[i]);
        }
        lemma_assoc_update_last(s.drop_last(), j, k, e);
        assert(s2.drop_last() =~= s.drop_last().update(j, e));
        assert(assoc_map(s2) =~= assoc_map(s).insert(k, e.1@));
    }
}

/// The index of the last entry whose key reads `k`, if any.
pub fn assoc_find<V>(s: &Vec<(String, V)>, k: &str) -> (r: Option<usize>)
    ensures
        match r {
            Some(j) => is_last_key(s@, j as int, k@),
            None => forall|i: int| 0 <= i < s@.len() ==> (#[trigger] s@[i]).0@ != k@,
        },
{
    let mut i: usize = s.len();
    while i > 0
        invariant
            i <= s@.len(),
            forall|m: int| i <= m < s@.len() ==> (#[trigger] s@[m]).0@ != k@,
        decreases i,
    {
        i = i - 1;
        if str_eq(s[i].0.as_str(), k) {
            return Some(i);
        }
    }
    None
}

/// The value a key is bound to.
pub fn assoc_get<'a, V: View>(s: &'a Vec<(String, V)>, k: &str) -> (r: Option<&'a V>)
    ensures
        match r {
            Some(v) => assoc_map(s@).contains_key(k@) && assoc_map(s@)[k@] == v@,
            None => !assoc_map(s@).contains_key(k@),
        },
{
    proof {
        lemma_assoc_absent(s@, k@);
    }
    match assoc_find(s, k) {
        Some(j) => {
            proof {
                lemma_assoc_last(s@, j as int, k@);
            }
            Some(&s[j].1)
        },
        None => None,
    }
}

/// Binds `k` to `v`: the last entry for `k` is overwritten, or a new entry is added.
pub fn assoc_set<V: View>(s: &mut Vec<(String, V)>, k: &str, v: V)
    ensures
        assoc_map(final(s)@) == assoc_map(old(s)@).insert(k@, v@),
{
    let key = String::from_str(k);
    match assoc_find(s, k) {
        Some(j) => {
            proof {
                lemma_assoc_update_last(s@, j as int, k@, (key, v));
            }
            s.set(j, (key, v));
        },
        None => {
            s.push((key, v));
            assert(s@.drop_last() =~= old(s)@);
        },
    }
}

} // verus!
