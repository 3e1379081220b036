//! Keyed tables: a `Vec` of `(String, V)` pairs whose keys are distinct,
//! read as a finite map from key text to value.
use vstd::prelude::*;

use crate::text::str_eq;

verus! {

/// No two entries share a key.
pub open spec fn unique_keys<V>(s: Seq<(String, V)>) -> bool {
    forall|i: int, j: int|
        0 <= i < s.len() && 0 <= j < s.len() && i != j ==> #[trigger] s[i].0@ != #[trigger] s[j].0@
}

/// The map that a table denotes: each key's text to its value (later
/// entries win, which never matters for a table with distinct keys).
pub open spec fn table_map<V>(s: Seq<(String, V)>) -> Map<Seq<char>, V>
    decreases s.len(),
{
    if s.len() == 0 {
        Map::empty()
    } else {
        table_map(s.drop_last()).insert(s.last().0@, s.last().1)
    }
}

/// Appending an entry inserts it into the denoted map.
pub proof fn lemma_table_push<V>(s: Seq<(String, V)>, x: (String, V))
    ensures
        table_map(s.push(x)) == table_map(s).insert(x.0@, x.1),
{
    assert(s.push(x).drop_last() =~= s);
}

/// A key is in the denoted map exactly when some entry carries it.
pub proof fn lemma_table_contains<V>(s: Seq<(String, V)>, k: Seq<char>)
    ensures
        table_map(s).contains_key(k) <==> exists|i: int| 0 <= i < s.len() && s[i].0@ == k,
    decreases s.len(),
{
    if s.len() > 0 {
        let p = s.drop_last();
        lemma_table_contains(p, k);
        if table_map(s).contains_key(k) {
            if s.last().0@ == k {
                assert(s[s.len() - 1].0@ == k);
            } else {
                let i = choose|i: int| 0 <= i < p.len() && p[i].0@ == k;
                assert(s[i].0@ == k);
            }
        }
        if exists|i: int| 0 <= i < s.len() && s[i].0@ == k {
            let i = choose|i: int| 0 <= i < s.len() && s[i].0@ == k;
            if i < s.len() - 1 {
                assert(p[i].0@ == k);
            }
        }
    }
}

/// In a table with distinct keys, the entry at `i` is what its key maps to.
pub proof fn lemma_table_lookup<V>(s: Seq<(String, V)>, i: int)
    requires
        unique_keys(s),
        0 <= i < s.len(),
    ensures
        table_map(s).contains_key(s[i].0@),
        table_map(s)[s[i].0@] == s[i].1,
    decreases s.len(),
{
    let p = s.drop_last();
    if i < s.len() - 1 {
        assert(unique_keys(p)) by {
            assert forall|a: int, b: int|
                0 <= a < p.len() && 0 <= b < p.len() && a != b implies #[trigger] p[a].0@
                != #[trigger] p[b].0@ by {
                assert(p[a] == s[a] && p[b] == s[b]);
            }
        }
        lemma_table_lookup(p, i);
        assert(s[i].0@ != s[s.len() - 1].0@);
        assert(p[i] == s[i]);
    }
}

/// The denoted map of a table with distinct keys is finite, with one key per entry.
pub proof fn lemma_table_len<V>(s: Seq<(String, V)>)
    requires
        unique_keys(s),
    ensures
        table_map(s).dom().finite(),
        table_map(s).dom().len() == s.len(),
    decreases s.len(),
{
    if s.len() > 0 {
        let p = s.drop_last();
        assert(unique_keys(p)) by {
            assert forall|a: int, b: int|
                0 <= a < p.len() && 0 <= b < p.len() && a != b implies #[trigger] p[a].0@
                != #[trigger] p[b].0@ by {
                assert(p[a] == s[a] && p[b] == s[b]);
            }
        }
        lemma_table_len(p);
        lemma_table_contains(p, s.last().0@);
        if table_map(p).contains_key(s.last().0@) {
            let i = choose|i: int| 0 <= i < p.len() && p[i].0@ == s.last().0@;
            assert(s[i].0@ == s[s.len() - 1].0@);
        }
    }
}

/// Replacing the value of the entry at `i` (keeping its key) updates the map.
pub proof fn lemma_table_update<V>(s: Seq<(String, V)>, i: int, x: (String, V))
    requires
        unique_keys(s),
        0 <= i < s.len(),
        x.0@ == s[i].0@,
    ensures
        table_map(s.update(i, x)) == table_map(s).insert(x.0@, x.1),
        unique_keys(s.update(i, x)),
    decreases s.len(),
{
    let t = s.update(i, x);
    assert(unique_keys(t)) by {
        assert forall|a: int, b: int|
            0 <= a < t.len() && 0 <= b < t.len() && a != b implies #[trigger] t[a].0@
            != #[trigger] t[b].0@ by {
            assert(t[a].0@ == s[a].0@ && t[b].0@ == s[b].0@);
        }
    }
    let p = s.drop_last();
    if i == s.len() - 1 {
        assert(t.drop_last() =~= p);
        assert(table_map(t) == table_map(p).insert(x.0@, x.1));
        assert(table_map(p).insert(x.0@, x.1) =~= table_map(p).insert(s.last().0@, s.last().1).insert(
            x.0@,
            x.1,
        ));
    } else {
        assert(unique_keys(p)) by {
            assert forall|a: int, b: int|
                0 <= a < p.len() && 0 <= b < p.len() && a != b implies #[trigger] p[a].0@
                != #[trigger] p[b].0@ by {
                assert(p[a] == s[a] && p[b] == s[b]);
            }
        }
        lemma_table_update(p, i, x);
        assert(t.drop_last() =~= p.update(i, x));
        assert(s[i].0@ != s[s.len() - 1].0@);
        assert(t.last() == s.last());
        assert(table_map(t) =~= table_map(s).insert(x.0@, x.1));
    }
}

/// Removing the entry at `i` removes its key from the map.
pub proof fn lemma_table_remove<V>(s: Seq<(String, V)>, i: int)
    requires
        unique_keys(s),
        0 <= i < s.len(),
    ensures
        table_map(s.remove(i)) == table_map(s).remove(s[i].0@),
        unique_keys(s.remove(i)),
    decreases s.len(),
{
    let t = s.remove(i);
    assert(unique_keys(t)) by {
        assert forall|a: int, b: int|
            0 <= a < t.len() && 0 <= b < t.len() && a != b implies #[trigger] t[a].0@
            != #[trigger] t[b].0@ by {
            let a2 = if a < i {
                a
            } else {
                a + 1
            };
            let b2 = if b < i {
                b
            } else {
                b + 1
            };
            assert(t[a] == s[a2] && t[b] == s[b2]);
        }
    }
    let p = s.drop_last();
    if i == s.len() - 1 {
        assert(t =~= p);
        lemma_table_contains(p, s[i].0@);
        if table_map(p).contains_key(s[i].0@) {
            let j = choose|j: int| 0 <= j < p.len() && p[j].0@ == s[i].0@;
            assert(s[j].0@ == s[i].0@);
        }
        assert(table_map(t) =~= table_map(s).remove(s[i].0@));
    } else {
        assert(unique_keys(p)) by {
            assert forall|a: int, b: int|
                0 <= a < p.len() && 0 <= b < p.len() && a != b implies #[trigger] p[a].0@
                != #[trigger] p[b].0@ by {
                assert(p[a] == s[a] && p[b] == s[b]);
            }
        }
        lemma_table_remove(p, i);
        assert(t.drop_last() =~= p.remove(i));
        assert(t.last() == s.last());
        assert(s[i].0@ != s[s.len() - 1].0@);
        assert(table_map(t) =~= table_map(s).remove(s[i].0@));
    }
}

/// Appending an entry with a fresh key keeps the keys distinct.
pub proof fn lemma_push_fresh<V>(s: Seq<(String, V)>, x: (String, V))
    requires
        unique_keys(s),
        !table_map(s).contains_key(x.0@),
    ensures
        unique_keys(s.push(x)),
{
    lemma_table_contains(s, x.0@);
    let t = s.push(x);
    assert forall|a: int, b: int|
        0 <= a < t.len() && 0 <= b < t.len() && a != b implies #[trigger] t[a].0@
        != #[trigger] t[b].0@ by {
        if a == s.len() {
            assert(t[b] == s[b]);
        } else if b == s.len() {
            assert(t[a] == s[a]);
        } else {
            assert(t[a] == s[a] && t[b] == s[b]);
        }
    }
}

/// The position of the entry whose key is `key`, if any.
pub fn find_key<V>(v: &Vec<(String, V)>, key: &str) -> (r: Option<usize>)
    ensures
        r matches Some(i) ==> i < v@.len() && v@[i as int].0@ == key@,
        r is None ==> !table_map(v@).contains_key(key@),
{
    let n = v.len();
    let mut i: usize = 0;
    while i < n
        invariant
            n == v@.len(),
            i <= n,
            forall|j: int| 0 <= j < i ==> v@[j].0@ != key@,
        decreases n - i,
    {
        if str_eq(v[i].0.as_str(), key) {
            return Some(i);
        }
        i = i + 1;
    }
    proof {
        lemma_table_contains(v@, key@);
    }
    None
}

} // verus!
