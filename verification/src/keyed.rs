//! Lookup in a vector of entries keyed by strings, with unique keys.
//!
//! The voice pool and the rate limiter both hold their per-identifier state
//! as such a vector; these helpers give them one verified notion of "the
//! entry for this identifier".

use vstd::prelude::*;

use crate::text::str_eq;

verus! {

/// The index of the first entry whose key reads `id`, or `-1` if none does.
pub open spec fn spec_find_key<T>(s: Seq<(String, T)>, id: Seq<char>) -> int
    decreases s.len(),
{
    if s.len() == 0 {
        -1
    } else if s[0].0@ == id {
        0
    } else {
        let r = spec_find_key(s.drop_first(), id);
        if r == -1 {
            -1
        } else {
            r + 1
        }
    }
}

/// Whether some entry carries the key `id`.
pub open spec fn spec_has_key<T>(s: Seq<(String, T)>, id: Seq<char>) -> bool {
    spec_find_key(s, id) >= 0
}

/// What a non-negative find result means: a valid index with that key, and
/// no entry with the key before it.  A result of `-1` means no entry has it.
pub proof fn lemma_find_key_props<T>(s: Seq<(String, T)>, id: Seq<char>)
    ensures
        -1 <= spec_find_key(s, id) < s.len(),
        spec_find_key(s, id) == -1 ==> forall|j: int| 0 <= j < s.len() ==> s[j].0@ != id,
        spec_find_key(s, id) >= 0 ==> {
            let i = spec_find_key(s, id);
            &&& 0 <= i < s.len()
            &&& s[i].0@ == id
            &&& forall|j: int| 0 <= j < i ==> s[j].0@ != id
        },
    decreases s.len(),
{
    if s.len() == 0 {
    } else if s[0].0@ == id {
    } else {
        let t = s.drop_first();
        lemma_find_key_props(t, id);
        assert(forall|j: int| 0 <= j < t.len() ==> t[j] == s[j + 1]);
        let r = spec_find_key(t, id);
        if r == -1 {
            assert forall|j: int| 0 <= j < s.len() implies s[j].0@ != id by {
                if j > 0 {
                    assert(t[j - 1] == s[j]);
                    assert(t[j - 1].0@ != id);
                }
            }
        } else {
            assert(spec_find_key(s, id) == r + 1);
            assert(s[r + 1] == t[r]);
            assert forall|j: int| 0 <= j < r + 1 implies s[j].0@ != id by {
                if j > 0 {
                    assert(t[j - 1] == s[j]);
                    assert(t[j - 1].0@ != id);
                }
            }
        }
    }
}

/// The find result on a sequence where `id` first occurs at `i`.
pub proof fn lemma_find_key_at<T>(s: Seq<(String, T)>, id: Seq<char>, i: int)
    requires
        0 <= i < s.len(),
        s[i].0@ == id,
        forall|j: int| 0 <= j < i ==> s[j].0@ != id,
    ensures
        spec_find_key(s, id) == i,
    decreases s.len(),
{
    if i > 0 {
        lemma_find_key_at(s.drop_first(), id, i - 1);
    }
}

/// A sequence none of whose keys reads `id` has find result `-1`.
pub proof fn lemma_find_key_none<T>(s: Seq<(String, T)>, id: Seq<char>)
    requires
        forall|j: int| 0 <= j < s.len() ==> s[j].0@ != id,
    ensures
        spec_find_key(s, id) == -1,
{
    lemma_find_key_props(s, id);
    let i = spec_find_key(s, id);
    if i >= 0 {
        assert(0 <= i < s.len() && s[i].0@ == id);
        assert(s[i].0@ != id);
    }
}

/// Replacing an entry by one with the same key moves no find result.
pub proof fn lemma_find_key_update<T>(s: Seq<(String, T)>, i: int, e: (String, T), id: Seq<char>)
    requires
        0 <= i < s.len(),
        s[i].0@ == e.0@,
    ensures
        spec_find_key(s.update(i, e), id) == spec_find_key(s, id),
{
    let s2 = s.update(i, e);
    lemma_find_key_props(s, id);
    lemma_find_key_props(s2, id);
    let r = spec_find_key(s, id);
    if r == -1 {
        assert forall|j: int| 0 <= j < s2.len() implies s2[j].0@ != id by {
            assert(s[j].0@ != id);
        }
        lemma_find_key_none(s2, id);
    } else {
        assert(s2[r].0@ == id);
        assert forall|j: int| 0 <= j < r implies s2[j].0@ != id by {
            assert(s[j].0@ != id);
        }
        lemma_find_key_at(s2, id, r);
    }
}

/// What appending an entry does to a find result: an id found before is
/// found at the same place; an id not found before is found at the end
/// exactly when it is the new entry's key.
pub proof fn lemma_find_key_push<T>(s: Seq<(String, T)>, e: (String, T), id: Seq<char>)
    ensures
        spec_find_key(s, id) >= 0 ==> spec_find_key(s.push(e), id) == spec_find_key(s, id),
        spec_find_key(s, id) == -1 && e.0@ == id ==> spec_find_key(s.push(e), id) == s.len(),
        spec_find_key(s, id) == -1 && e.0@ != id ==> spec_find_key(s.push(e), id) == -1,
{
    let s2 = s.push(e);
    lemma_find_key_props(s, id);
    let r = spec_find_key(s, id);
    if r >= 0 {
        assert(s2[r].0@ == id);
        assert forall|j: int| 0 <= j < r implies s2[j].0@ != id by {
            assert(s2[j] == s[j]);
        }
        lemma_find_key_at(s2, id, r);
    } else if e.0@ == id {
        assert(s2[s.len() as int].0@ == id);
        assert forall|j: int| 0 <= j < s.len() implies s2[j].0@ != id by {
            assert(s2[j] == s[j]);
        }
        lemma_find_key_at(s2, id, s.len() as int);
    } else {
        assert forall|j: int| 0 <= j < s2.len() implies s2[j].0@ != id by {
            if j < s.len() {
                assert(s2[j] == s[j]);
            }
        }
        lemma_find_key_none(s2, id);
    }
}

/// Find the entry for `id` by linear search.
pub fn find_key<T>(v: &Vec<(String, T)>, id: &str) -> (r: Option<usize>)
    ensures
        match r {
            Some(i) => i < v@.len() && v@[i as int].0@ == id@ && spec_find_key(v@, id@) == i,
            None => spec_find_key(v@, id@) == -1,
        },
{
    let mut i: usize = 0;
    while i < v.len()
        invariant
            0 <= i <= v@.len(),
            forall|j: int| 0 <= j < i ==> v@[j].0@ != id@,
        decreases v@.len() - i,
    {
        if str_eq(v[i].0.as_str(), id) {
            proof {
                lemma_find_key_at(v@, id@, i as int);
            }
            return Some(i);
        }
        i = i + 1;
    }
    proof {
        lemma_find_key_none(v@, id@);
    }
    None
}

} // verus!
