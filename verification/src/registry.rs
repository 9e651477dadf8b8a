//! Association lists keyed by strings: the storage shared by the session
//! and transaction registries.
//!
//! A registry is a vector of key/state entries with pairwise-distinct keys.
//! `spec_lookup` gives the entry list its map meaning; the lemmas here relate
//! the vector operations (push, update, remove) to that meaning.

use vstd::prelude::*;

verus! {

broadcast use vstd::std_specs::vec::group_vec_axioms;

/// Whether some entry carries key `k`.
pub open spec fn spec_has_key<T>(entries: Seq<(String, T)>, k: Seq<char>) -> bool {
    exists|i: int| 0 <= i < entries.len() && entries[i].0@ == k
}

/// The state bound to key `k`: the first entry wins.
pub open spec fn spec_lookup<T>(entries: Seq<(String, T)>, k: Seq<char>) -> Option<T>
    decreases entries.len(),
{
    if entries.len() == 0 {
        None
    } else if entries[0].0@ == k {
        Some(entries[0].1)
    } else {
        spec_lookup(entries.drop_first(), k)
    }
}

/// Pairwise-distinct keys.
pub open spec fn spec_distinct_keys<T>(entries: Seq<(String, T)>) -> bool {
    forall|i: int, j: int|
        0 <= i < j < entries.len() ==> (#[trigger] entries[i]).0@ != (#[trigger] entries[j]).0@
}

/// A key is present exactly when the lookup finds an entry.
pub proof fn lemma_has_key_lookup<T>(entries: Seq<(String, T)>, k: Seq<char>)
    ensures
        spec_has_key(entries, k) <==> spec_lookup(entries, k) is Some,
    decreases entries.len(),
{
    if entries.len() > 0 {
        lemma_has_key_lookup(entries.drop_first(), k);
        if entries[0].0@ == k {
        } else {
            assert forall|i: int|
                0 <= i < entries.len() && entries[i].0@ == k implies spec_has_key(
                entries.drop_first(),
                k,
            ) by {
                assert(entries.drop_first()[i - 1] == entries[i]);
            }
            if spec_has_key(entries.drop_first(), k) {
                let j = choose|j: int|
                    0 <= j < entries.drop_first().len() && entries.drop_first()[j].0@ == k;
                assert(entries[j + 1] == entries.drop_first()[j]);
            }
        }
    }
}

/// The lookup returns the entry at the first index whose key matches.
pub proof fn lemma_lookup_at<T>(entries: Seq<(String, T)>, k: Seq<char>, i: int)
    requires
        0 <= i < entries.len(),
        entries[i].0@ == k,
        forall|j: int| 0 <= j < i ==> (#[trigger] entries[j]).0@ != k,
    ensures
        spec_lookup(entries, k) == Some(entries[i].1),
    decreases i,
{
    if i > 0 {
        assert(entries.drop_first()[i - 1] == entries[i]);
        assert forall|j: int| 0 <= j < i - 1 implies (#[trigger] entries.drop_first()[j]).0@
            != k by {
            assert(entries.drop_first()[j] == entries[j + 1]);
        }
        lemma_lookup_at(entries.drop_first(), k, i - 1);
    }
}

/// The lookup misses when no entry's key matches.
pub proof fn lemma_lookup_absent<T>(entries: Seq<(String, T)>, k: Seq<char>)
    requires
        forall|j: int| 0 <= j < entries.len() ==> (#[trigger] entries[j]).0@ != k,
    ensures
        spec_lookup(entries, k) is None,
    decreases entries.len(),
{
    if entries.len() > 0 {
        assert forall|j: int|
            0 <= j < entries.drop_first().len() implies (#[trigger] entries.drop_first()[j]).0@
            != k by {
            assert(entries.drop_first()[j] == entries[j + 1]);
        }
        lemma_lookup_absent(entries.drop_first(), k);
    }
}

/// Replacing the entry at the first matching index rebinds that key and no
/// other.
pub proof fn lemma_lookup_update<T>(entries: Seq<(String, T)>, i: int, p: (String, T))
    requires
        0 <= i < entries.len(),
        forall|j: int| 0 <= j < i ==> (#[trigger] entries[j]).0@ != entries[i].0@,
        p.0@ == entries[i].0@,
    ensures
        forall|k2: Seq<char>|
            #[trigger] spec_lookup(entries.update(i, p), k2) == if k2 == p.0@ {
                Some(p.1)
            } else {
                spec_lookup(entries, k2)
            },
    decreases i,
{
    let updated = entries.update(i, p);
    if i == 0 {
        assert forall|k2: Seq<char>|
            #[trigger] spec_lookup(updated, k2) == (if k2 == p.0@ {
                Some(p.1)
            } else {
                spec_lookup(entries, k2)
            }) by {
            assert(updated.drop_first() =~= entries.drop_first());
        }
    } else {
        assert forall|j: int| 0 <= j < i - 1 implies (#[trigger] entries.drop_first()[j]).0@
            != entries.drop_first()[i - 1].0@ by {
            assert(entries.drop_first()[j] == entries[j + 1]);
            assert(entries.drop_first()[i - 1] == entries[i]);
        }
        assert(entries.drop_first()[i - 1] == entries[i]);
        lemma_lookup_update(entries.drop_first(), i - 1, p);
        assert forall|k2: Seq<char>|
            #[trigger] spec_lookup(updated, k2) == (if k2 == p.0@ {
                Some(p.1)
            } else {
                spec_lookup(entries, k2)
            }) by {
            let dd = entries.drop_first().update(i - 1, p);
            assert(updated.drop_first() =~= dd);
            assert(updated[0] == entries[0]);
            assert(entries[0].0@ != p.0@);
            let sub = spec_lookup(dd, k2);
            assert(sub == (if k2 == p.0@ {
                Some(p.1)
            } else {
                spec_lookup(entries.drop_first(), k2)
            }));
            if k2 == entries[0].0@ {
                assert(spec_lookup(updated, k2) == Some(entries[0].1));
                assert(spec_lookup(entries, k2) == Some(entries[0].1));
            } else {
                assert(spec_lookup(updated, k2) == sub);
                assert(spec_lookup(entries, k2) == spec_lookup(entries.drop_first(), k2));
            }
        }
    }
}

/// Appending an entry with a fresh key binds that key and no other.
pub proof fn lemma_lookup_push<T>(entries: Seq<(String, T)>, p: (String, T))
    requires
        forall|j: int| 0 <= j < entries.len() ==> (#[trigger] entries[j]).0@ != p.0@,
    ensures
        forall|k2: Seq<char>|
            #[trigger] spec_lookup(entries.push(p), k2) == if k2 == p.0@ {
                Some(p.1)
            } else {
                spec_lookup(entries, k2)
            },
    decreases entries.len(),
{
    if entries.len() == 0 {
        assert forall|k2: Seq<char>|
            #[trigger] spec_lookup(entries.push(p), k2) == (if k2 == p.0@ {
                Some(p.1)
            } else {
                spec_lookup(entries, k2)
            }) by {
            assert(entries.push(p)[0] == p);
            assert(entries.push(p).drop_first() =~= Seq::<(String, T)>::empty());
            if k2 == p.0@ {
                assert(spec_lookup(entries.push(p), k2) == Some(p.1));
            } else {
                assert(spec_lookup(entries.push(p), k2) == spec_lookup(
                    entries.push(p).drop_first(),
                    k2,
                ));
            }
        }
    } else {
        assert forall|j: int|
            0 <= j < entries.drop_first().len() implies (#[trigger] entries.drop_first()[j]).0@
            != p.0@ by {
            assert(entries.drop_first()[j] == entries[j + 1]);
        }
        lemma_lookup_push(entries.drop_first(), p);
        assert forall|k2: Seq<char>|
            #[trigger] spec_lookup(entries.push(p), k2) == (if k2 == p.0@ {
                Some(p.1)
            } else {
                spec_lookup(entries, k2)
            }) by {
            let dd = entries.drop_first().push(p);
            assert(entries.push(p).drop_first() =~= dd);
            assert(entries.push(p)[0] == entries[0]);
            let sub = spec_lookup(dd, k2);
            assert(sub == (if k2 == p.0@ {
                Some(p.1)
            } else {
                spec_lookup(entries.drop_first(), k2)
            }));
            if k2 == entries[0].0@ {
                assert(spec_lookup(entries.push(p), k2) == Some(entries[0].1));
                assert(spec_lookup(entries, k2) == Some(entries[0].1));
            } else {
                assert(spec_lookup(entries.push(p), k2) == sub);
                assert(spec_lookup(entries, k2) == spec_lookup(entries.drop_first(), k2));
            }
        }
    }
}

/// Removing the entry at the first matching index unbinds that key and no
/// other.
pub proof fn lemma_lookup_remove<T>(entries: Seq<(String, T)>, i: int)
    requires
        0 <= i < entries.len(),
        forall|j: int| 0 <= j < i ==> (#[trigger] entries[j]).0@ != entries[i].0@,
        spec_distinct_keys(entries),
    ensures
        forall|k2: Seq<char>|
            #[trigger] spec_lookup(entries.remove(i), k2) == if k2 == entries[i].0@ {
                None::<T>
            } else {
                spec_lookup(entries, k2)
            },
    decreases i,
{
    let removed = entries.remove(i);
    if i == 0 {
        assert forall|k2: Seq<char>|
            #[trigger] spec_lookup(removed, k2) == (if k2 == entries[0].0@ {
                None::<T>
            } else {
                spec_lookup(entries, k2)
            }) by {
            assert(removed =~= entries.drop_first());
            if k2 == entries[0].0@ {
                assert forall|j: int|
                    0 <= j < entries.drop_first().len() implies (#[trigger] entries.drop_first(
                )[j]).0@ != k2 by {
                    assert(entries.drop_first()[j] == entries[j + 1]);
                }
                lemma_lookup_absent(entries.drop_first(), k2);
            }
        }
    } else {
        assert forall|j: int| 0 <= j < i - 1 implies (#[trigger] entries.drop_first()[j]).0@
            != entries.drop_first()[i - 1].0@ by {
            assert(entries.drop_first()[j] == entries[j + 1]);
            assert(entries.drop_first()[i - 1] == entries[i]);
        }
        assert(entries.drop_first()[i - 1] == entries[i]);
        assert forall|a: int, b: int|
            0 <= a < b < entries.drop_first().len() implies (#[trigger] entries.drop_first()[
        a]).0@ != (#[trigger] entries.drop_first()[b]).0@ by {
            assert(entries.drop_first()[a] == entries[a + 1]);
            assert(entries.drop_first()[b] == entries[b + 1]);
        }
        lemma_lookup_remove(entries.drop_first(), i - 1);
        assert forall|k2: Seq<char>|
            #[trigger] spec_lookup(removed, k2) == (if k2 == entries[i].0@ {
                None::<T>
            } else {
                spec_lookup(entries, k2)
            }) by {
            let dd = entries.drop_first().remove(i - 1);
            assert(removed.drop_first() =~= dd);
            assert(removed[0] == entries[0]);
            assert(entries[0].0@ != entries[i].0@);
            let sub = spec_lookup(dd, k2);
            assert(sub == (if k2 == entries.drop_first()[i - 1].0@ {
                None::<T>
            } else {
                spec_lookup(entries.drop_first(), k2)
            }));
            if k2 == entries[0].0@ {
                assert(spec_lookup(removed, k2) == Some(entries[0].1));
                assert(spec_lookup(entries, k2) == Some(entries[0].1));
            } else {
                assert(spec_lookup(removed, k2) == sub);
                assert(spec_lookup(entries, k2) == spec_lookup(entries.drop_first(), k2));
            }
        }
    }
}

/// Replacing the entry at the first matching index, with a pair whose key
/// reads the same, keeps keys distinct, rebinds that key and no other.
pub proof fn lemma_update_entry<T>(entries: Seq<(String, T)>, i: int, p: (String, T))
    requires
        spec_distinct_keys(entries),
        0 <= i < entries.len(),
        forall|j: int| 0 <= j < i ==> (#[trigger] entries[j]).0@ != entries[i].0@,
        p.0@ == entries[i].0@,
    ensures
        spec_distinct_keys(entries.update(i, p)),
        spec_lookup(entries.update(i, p), p.0@) == Some(p.1),
        forall|k2: Seq<char>|
            k2 != p.0@ ==> #[trigger] spec_lookup(entries.update(i, p), k2) == spec_lookup(
                entries,
                k2,
            ),
{
    lemma_lookup_update(entries, i, p);
    let updated = entries.update(i, p);
    assert forall|a: int, b: int|
        0 <= a < b < updated.len() implies (#[trigger] updated[a]).0@ != (
    #[trigger] updated[b]).0@ by {
        if a != i {
            assert(updated[a] == entries[a]);
        }
        if b != i {
            assert(updated[b] == entries[b]);
        }
    }
}

/// Appending an entry with a fresh key keeps keys distinct, binds that key
/// and no other.
pub proof fn lemma_push_entry<T>(entries: Seq<(String, T)>, p: (String, T))
    requires
        spec_distinct_keys(entries),
        forall|j: int| 0 <= j < entries.len() ==> (#[trigger] entries[j]).0@ != p.0@,
    ensures
        spec_distinct_keys(entries.push(p)),
        spec_lookup(entries.push(p), p.0@) == Some(p.1),
        forall|k2: Seq<char>|
            k2 != p.0@ ==> #[trigger] spec_lookup(entries.push(p), k2) == spec_lookup(entries, k2),
{
    lemma_lookup_push(entries, p);
    let pushed = entries.push(p);
    assert forall|a: int, b: int|
        0 <= a < b < pushed.len() implies (#[trigger] pushed[a]).0@ != (
    #[trigger] pushed[b]).0@ by {
        assert(pushed[a] == entries[a]);
        if b < entries.len() {
            assert(pushed[b] == entries[b]);
        }
    }
}

/// Removing the entry at the first matching index keeps keys distinct,
/// unbinds that key and no other.
pub proof fn lemma_remove_entry<T>(entries: Seq<(String, T)>, i: int)
    requires
        spec_distinct_keys(entries),
        0 <= i < entries.len(),
        forall|j: int| 0 <= j < i ==> (#[trigger] entries[j]).0@ != entries[i].0@,
    ensures
        spec_distinct_keys(entries.remove(i)),
        spec_lookup(entries.remove(i), entries[i].0@) is None,
        forall|k2: Seq<char>|
            k2 != entries[i].0@ ==> #[trigger] spec_lookup(entries.remove(i), k2) == spec_lookup(
                entries,
                k2,
            ),
{
    lemma_lookup_remove(entries, i);
    let removed = entries.remove(i);
    assert forall|a: int, b: int|
        0 <= a < b < removed.len() implies (#[trigger] removed[a]).0@ != (
    #[trigger] removed[b]).0@ by {
        if a < i {
            assert(removed[a] == entries[a]);
        } else {
            assert(removed[a] == entries[a + 1]);
        }
        if b < i {
            assert(removed[b] == entries[b]);
        } else {
            assert(removed[b] == entries[b + 1]);
        }
    }
}

/// Find the first entry whose key is `k`.
pub fn find_index<T>(entries: &Vec<(String, T)>, k: &str) -> (r: Option<usize>)
    ensures
        match r {
            Some(i) => i < entries@.len() && entries@[i as int].0@ == k@ && forall|j: int|
                0 <= j < i ==> (#[trigger] entries@[j]).0@ != k@,
            None => forall|j: int|
                0 <= j < entries@.len() ==> (#[trigger] entries@[j]).0@ != k@,
        },
{
    let mut i: usize = 0;
    while i < entries.len()
        invariant
            i <= entries@.len(),
            forall|j: int| 0 <= j < i ==> (#[trigger] entries@[j]).0@ != k@,
        decreases entries@.len() - i,
    {
        if crate::util::str_eq(entries[i].0.as_str(), k) {
            return Some(i);
        }
        i = i + 1;
    }
    None
}

} // verus!
