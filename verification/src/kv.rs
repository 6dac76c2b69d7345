//! String-keyed association lists with unique keys, viewed as maps from key
//! content to value content. The stores of this crate keep their records in
//! such lists, so every lookup and mutation is stated against a `Map`.

use vstd::prelude::*;

verus! {

broadcast use vstd::std_specs::vec::group_vec_axioms;

/// The map described by an entry list: later entries win, though the stores
/// keep their keys unique so the question does not arise.
pub open spec fn assoc_map<V: DeepView>(s: Seq<(String, V)>) -> Map<Seq<char>, V::V>
    decreases s.len(),
{
    if s.len() == 0 {
        Map::empty()
    } else {
        assoc_map(s.drop_last()).insert(s.last().0@, s.last().1.deep_view())
    }
}

/// No two entries share a key.
pub open spec fn assoc_unique<V>(s: Seq<(String, V)>) -> bool {
    forall|i: int, j: int| 0 <= i < j < s.len() ==> s[i].0@ != s[j].0@
}

/// What `assoc_map` holds, entry by entry: a key is in the map exactly when
/// some entry carries it, and under unique keys each entry's value is the
/// map's value.
pub proof fn lemma_assoc_map_chars<V: DeepView>(s: Seq<(String, V)>)
    ensures
        forall|k: Seq<char>|
            #[trigger] assoc_map(s).contains_key(k) <==> exists|i: int|
                0 <= i < s.len() && s[i].0@ == k,
        assoc_unique(s) ==> forall|i: int|
            0 <= i < s.len() ==> assoc_map(s).contains_key(#[trigger] s[i].0@) && assoc_map(s)[s[i].0@]
                == s[i].1.deep_view(),
    decreases s.len(),
{
    if s.len() > 0 {
        lemma_assoc_map_chars(s.drop_last());
        assert forall|k: Seq<char>| #[trigger]
            assoc_map(s).contains_key(k) implies exists|i: int|
            0 <= i < s.len() && s[i].0@ == k by {
            if k == s.last().0@ {
                assert(s[s.len() - 1].0@ == k);
            } else {
                assert(assoc_map(s.drop_last()).contains_key(k));
                let i = choose|i: int| 0 <= i < s.drop_last().len() && s.drop_last()[i].0@ == k;
                assert(s[i].0@ == k);
            }
        }
        assert forall|k: Seq<char>| (exists|i: int|
            0 <= i < s.len() && s[i].0@ == k) implies #[trigger] assoc_map(s).contains_key(k) by {
            let i = choose|i: int| 0 <= i < s.len() && s[i].0@ == k;
            if i < s.len() - 1 {
                assert(s.drop_last()[i].0@ == k);
                assert(assoc_map(s.drop_last()).contains_key(k));
            } else {
                assert(k == s.last().0@);
            }
        }
        if assoc_unique(s) {
            assert(assoc_unique(s.drop_last()));
            assert forall|i: int| 0 <= i < s.len() implies assoc_map(s).contains_key(
                #[trigger] s[i].0@,
            ) && assoc_map(s)[s[i].0@] == s[i].1.deep_view() by {
                if i < s.len() - 1 {
                    assert(s.drop_last()[i] == s[i]);
                    assert(s[i].0@ != s.last().0@);
                }
            }
        }
    }
}

/// Appending a fresh entry inserts it into the map.
pub proof fn lemma_assoc_push<V: DeepView>(s: Seq<(String, V)>, p: (String, V))
    ensures
        assoc_map(s.push(p)) == assoc_map(s).insert(p.0@, p.1.deep_view()),
        assoc_unique(s) && (forall|i: int| 0 <= i < s.len() ==> s[i].0@ != p.0@) ==> assoc_unique(
            s.push(p),
        ),
{
    assert(s.push(p).drop_last() =~= s);
    if assoc_unique(s) && (forall|i: int| 0 <= i < s.len() ==> s[i].0@ != p.0@) {
        assert forall|i: int, j: int| 0 <= i < j < s.push(p).len() implies s.push(p)[i].0@ != s.push(
            p,
        )[j].0@ by {
            if j < s.len() {
                assert(s.push(p)[i] == s[i] && s.push(p)[j] == s[j]);
            } else {
                assert(s.push(p)[i] == s[i] && s.push(p)[j] == p);
            }
        }
    }
}

/// Replacing the entry at `i` by one with the same key updates the map at
/// that key.
pub proof fn lemma_assoc_update<V: DeepView>(s: Seq<(String, V)>, i: int, p: (String, V))
    requires
        assoc_unique(s),
        0 <= i < s.len(),
        p.0@ == s[i].0@,
    ensures
        assoc_map(s.update(i, p)) =~= assoc_map(s).insert(p.0@, p.1.deep_view()),
        assoc_unique(s.update(i, p)),
{
    let t = s.update(i, p);
    assert(assoc_unique(t));
    lemma_assoc_map_chars(s);
    lemma_assoc_map_chars(t);
    assert forall|k: Seq<char>| #[trigger]
        assoc_map(t).contains_key(k) implies assoc_map(s).insert(
        p.0@,
        p.1.deep_view(),
    ).contains_key(k) by {
        let j = choose|j: int| 0 <= j < t.len() && t[j].0@ == k;
        if j != i {
            assert(s[j].0@ == k);
        }
    }
    assert forall|k: Seq<char>| #[trigger]
        assoc_map(s).insert(p.0@, p.1.deep_view()).contains_key(k) implies assoc_map(
        t,
    ).contains_key(k) by {
        if k == p.0@ {
            assert(t[i].0@ == k);
        } else {
            let j = choose|j: int| 0 <= j < s.len() && s[j].0@ == k;
            assert(t[j].0@ == k);
        }
    }
    assert forall|k: Seq<char>|
        assoc_map(t).contains_key(k) implies #[trigger] assoc_map(t)[k] == assoc_map(s).insert(
        p.0@,
        p.1.deep_view(),
    )[k] by {
        let j = choose|j: int| 0 <= j < t.len() && t[j].0@ == k;
        assert(assoc_map(t)[k] == t[j].1.deep_view());
        if k == p.0@ {
            assert(j == i);
        } else {
            assert(j != i);
            assert(s[j].0@ == k);
            assert(assoc_map(s)[k] == s[j].1.deep_view());
        }
    }
}

/// Taking the entry at `i` out removes its key from the map.
pub proof fn lemma_assoc_remove<V: DeepView>(s: Seq<(String, V)>, i: int)
    requires
        assoc_unique(s),
        0 <= i < s.len(),
    ensures
        assoc_map(s.remove(i)) =~= assoc_map(s).remove(s[i].0@),
        assoc_unique(s.remove(i)),
{
    let t = s.remove(i);
    assert forall|a: int, b: int| 0 <= a < b < t.len() implies t[a].0@ != t[b].0@ by {
        let a2: int = if a < i {
            a
        } else {
            a + 1
        };
        let b2: int = if b < i {
            b
        } else {
            b + 1
        };
        assert(t[a] == s[a2] && t[b] == s[b2]);
    }
    lemma_assoc_map_chars(s);
    lemma_assoc_map_chars(t);
    assert forall|k: Seq<char>| #[trigger]
        assoc_map(t).contains_key(k) implies assoc_map(s).remove(s[i].0@).contains_key(k) by {
        let j = choose|j: int| 0 <= j < t.len() && t[j].0@ == k;
        let j2: int = if j < i {
            j
        } else {
            j + 1
        };
        assert(s[j2].0@ == k);
        assert(j2 != i);
    }
    assert forall|k: Seq<char>| #[trigger]
        assoc_map(s).remove(s[i].0@).contains_key(k) implies assoc_map(t).contains_key(k) by {
        let j = choose|j: int| 0 <= j < s.len() && s[j].0@ == k;
        assert(j != i);
        let j2: int = if j < i {
            j
        } else {
            j - 1
        };
        assert(t[j2].0@ == k);
    }
    assert forall|k: Seq<char>|
        assoc_map(t).contains_key(k) implies #[trigger] assoc_map(t)[k] == assoc_map(s).remove(
        s[i].0@,
    )[k] by {
        let j = choose|j: int| 0 <= j < t.len() && t[j].0@ == k;
        let j2: int = if j < i {
            j
        } else {
            j + 1
        };
        assert(t[j] == s[j2]);
        assert(assoc_map(t)[k] == t[j].1.deep_view());
        assert(assoc_map(s)[k] == s[j2].1.deep_view());
    }
}

/// Finds the entry carrying `key`, if one does.
pub fn assoc_index_of<V>(entries: &Vec<(String, V)>, key: &str) -> (r: Option<usize>)
    ensures
        match r {
            Some(i) => i < entries@.len() && entries@[i as int].0@ == key@,
            None => forall|j: int| 0 <= j < entries@.len() ==> entries@[j].0@ != key@,
        },
{
    let key_string = key.to_owned();
    let n = entries.len();
    for i in 0..n
        invariant
            n == entries@.len(),
            key_string@ == key@,
            forall|j: int| 0 <= j < i ==> entries@[j].0@ != key@,
    {
        if entries[i].0 == key_string {
            return Some(i);
        }
    }
    None
}

} // verus!
