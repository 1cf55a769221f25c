//! Tables keyed by text: a vector of `(name, value)` entries whose names are
//! distinct, seen as a map from names to values.

use vstd::prelude::*;

verus! {

/// No two entries have the same name.
pub open spec fn keys_unique<V>(e: Seq<(String, V)>) -> bool {
    forall|i: int, j: int|
        0 <= i < e.len() && 0 <= j < e.len() && i != j ==> #[trigger] e[i].0@ != #[trigger] e[j].0@
}

/// Some entry is named `k`.
pub open spec fn has_key<V>(e: Seq<(String, V)>, k: Seq<char>) -> bool {
    exists|i: int| 0 <= i < e.len() && #[trigger] e[i].0@ == k
}

/// The position of the entry named `k`.
pub open spec fn key_index<V>(e: Seq<(String, V)>, k: Seq<char>) -> int {
    choose|i: int| 0 <= i < e.len() && #[trigger] e[i].0@ == k
}

/// The table as a map from names to values.
pub open spec fn as_map<V>(e: Seq<(String, V)>) -> Map<Seq<char>, V> {
    Map::new(|k: Seq<char>| has_key(e, k), |k: Seq<char>| e[key_index(e, k)].1)
}

/// The entry at `i` is what the map holds for its name.
pub proof fn lemma_entry<V>(e: Seq<(String, V)>, i: int)
    requires
        keys_unique(e),
        0 <= i < e.len(),
    ensures
        as_map(e).contains_key(e[i].0@),
        as_map(e)[e[i].0@] == e[i].1,
{
    assert(has_key(e, e[i].0@));
    let j = key_index(e, e[i].0@);
    assert(e[j].0@ == e[i].0@);
}

/// Appending an entry under a fresh name inserts it into the map.
pub proof fn lemma_push<V>(e: Seq<(String, V)>, k: String, v: V)
    requires
        keys_unique(e),
        !has_key(e, k@),
    ensures
        keys_unique(e.push((k, v))),
        as_map(e.push((k, v))) == as_map(e).insert(k@, v),
{
    let f = e.push((k, v));
    assert forall|i: int, j: int|
        0 <= i < f.len() && 0 <= j < f.len() && i != j implies #[trigger] f[i].0@ != #[trigger] f[j].0@ by {
        if i == e.len() {
            assert(f[j] == e[j]);
        } else if j == e.len() {
            assert(f[i] == e[i]);
        } else {
            assert(f[i] == e[i] && f[j] == e[j]);
        }
    }
    assert forall|kk: Seq<char>| #[trigger] has_key(f, kk) == (has_key(e, kk) || kk == k@) by {
        if has_key(e, kk) {
            let i = choose|i: int| 0 <= i < e.len() && #[trigger] e[i].0@ == kk;
            assert(f[i] == e[i]);
        }
        if kk == k@ {
            assert(f[e.len() as int].0@ == kk);
        }
        if has_key(f, kk) {
            let i = choose|i: int| 0 <= i < f.len() && #[trigger] f[i].0@ == kk;
            if i < e.len() {
                assert(f[i] == e[i]);
            }
        }
    }
    assert forall|kk: Seq<char>| #[trigger] as_map(f).contains_key(kk) implies as_map(f)[kk] == as_map(
        e,
    ).insert(k@, v)[kk] by {
        let i = key_index(f, kk);
        if kk == k@ {
            assert(f[e.len() as int].0@ == kk);
            assert(i == e.len());
        } else {
            assert(i < e.len());
            assert(f[i] == e[i]);
            lemma_entry(e, i);
        }
    }
    assert(as_map(f) =~= as_map(e).insert(k@, v));
}

/// Replacing the value of the entry at `i` updates the map at its name.
pub proof fn lemma_update<V>(e: Seq<(String, V)>, i: int, v: V)
    requires
        keys_unique(e),
        0 <= i < e.len(),
    ensures
        keys_unique(e.update(i, (e[i].0, v))),
        as_map(e.update(i, (e[i].0, v))) == as_map(e).insert(e[i].0@, v),
{
    let f = e.update(i, (e[i].0, v));
    assert forall|a: int, b: int|
        0 <= a < f.len() && 0 <= b < f.len() && a != b implies #[trigger] f[a].0@ != #[trigger] f[b].0@ by {
        assert(f[a].0 == e[a].0 && f[b].0 == e[b].0);
    }
    assert forall|kk: Seq<char>| #[trigger] has_key(f, kk) == has_key(e, kk) by {
        if has_key(e, kk) {
            let j = choose|j: int| 0 <= j < e.len() && #[trigger] e[j].0@ == kk;
            assert(f[j].0 == e[j].0);
        }
        if has_key(f, kk) {
            let j = choose|j: int| 0 <= j < f.len() && #[trigger] f[j].0@ == kk;
            assert(f[j].0 == e[j].0);
        }
    }
    assert forall|kk: Seq<char>| #[trigger] as_map(f).contains_key(kk) implies as_map(f)[kk] == as_map(
        e,
    ).insert(e[i].0@, v)[kk] by {
        let j = key_index(f, kk);
        assert(f[j].0 == e[j].0);
        if j != i {
            lemma_entry(e, j);
        }
    }
    assert(as_map(f) =~= as_map(e).insert(e[i].0@, v));
}

/// Removing the entry at `i` removes its name from the map.
pub proof fn lemma_remove<V>(e: Seq<(String, V)>, i: int)
    requires
        keys_unique(e),
        0 <= i < e.len(),
    ensures
        keys_unique(e.remove(i)),
        as_map(e.remove(i)) == as_map(e).remove(e[i].0@),
{
    let f = e.remove(i);
    assert forall|a: int| 0 <= a < f.len() implies #[trigger] f[a] == (if a < i {
        e[a]
    } else {
        e[a + 1]
    }) by {}
    assert forall|a: int, b: int|
        0 <= a < f.len() && 0 <= b < f.len() && a != b implies #[trigger] f[a].0@ != #[trigger] f[b].0@ by {
        let a2 = if a < i { a } else { a + 1 };
        let b2 = if b < i { b } else { b + 1 };
        assert(f[a] == e[a2] && f[b] == e[b2]);
    }
    assert forall|kk: Seq<char>| #[trigger] has_key(f, kk) == (has_key(e, kk) && kk != e[i].0@) by {
        if has_key(e, kk) && kk != e[i].0@ {
            let j = choose|j: int| 0 <= j < e.len() && #[trigger] e[j].0@ == kk;
            assert(j != i);
            let j2 = if j < i { j } else { j - 1 };
            assert(f[j2] == e[j]);
        }
        if has_key(f, kk) {
            let j = choose|j: int| 0 <= j < f.len() && #[trigger] f[j].0@ == kk;
            let j2 = if j < i { j } else { j + 1 };
            assert(f[j] == e[j2]);
        }
    }
    assert forall|kk: Seq<char>| #[trigger] as_map(f).contains_key(kk) implies as_map(f)[kk] == as_map(
        e,
    ).remove(e[i].0@)[kk] by {
        let j = key_index(f, kk);
        let j2 = if j < i { j } else { j + 1 };
        assert(f[j] == e[j2]);
        lemma_entry(e, j2);
    }
    assert(as_map(f) =~= as_map(e).remove(e[i].0@));
}

/// The position of the entry named `key`, if there is one.
pub fn find<V>(e: &Vec<(String, V)>, key: &str) -> (r: Option<usize>)
    ensures
        match r {
            Some(i) => i < e@.len() && e@[i as int].0@ == key@,
            None => !has_key(e@, key@),
        },
{
    let wanted = key.to_string();
    let mut i: usize = 0;
    while i < e.len()
        invariant
            i <= e.len(),
            wanted@ == key@,
            forall|j: int| 0 <= j < i ==> #[trigger] e@[j].0@ != key@,
        decreases e.len() - i,
    {
        if e[i].0 == wanted {
            return Some(i);
        }
        i = i + 1;
    }
    None
}

/// Sets `key` to `v`: the entry named `key` is replaced, or a new entry
/// is appended.
pub fn upsert<V>(e: &mut Vec<(String, V)>, key: &str, v: V)
    requires
        keys_unique(old(e)@),
    ensures
        keys_unique(final(e)@),
        as_map(final(e)@) == as_map(old(e)@).insert(key@, v),
{
    let ghost before = e@;
    match find(e, key) {
        Some(i) => {
            let (k, _previous) = e.remove(i);
            e.insert(i, (k, v));
            proof {
                assert(e@ =~= before.update(i as int, (before[i as int].0, v)));
                lemma_update(before, i as int, v);
            }
        },
        None => {
            let k = key.to_string();
            proof {
                lemma_push(before, k, v);
            }
            e.push((k, v));
        },
    }
}

/// Removes the entry named `key` and returns its value.
pub fn take<V>(e: &mut Vec<(String, V)>, key: &str) -> (r: Option<V>)
    requires
        keys_unique(old(e)@),
    ensures
        keys_unique(final(e)@),
        as_map(final(e)@) == as_map(old(e)@).remove(key@),
        match r {
            Some(v) => as_map(old(e)@).contains_key(key@) && as_map(old(e)@)[key@] == v,
            None => !as_map(old(e)@).contains_key(key@),
        },
{
    let ghost before = e@;
    match find(e, key) {
        Some(i) => {
            proof {
                lemma_remove(before, i as int);
                lemma_entry(before, i as int);
            }
            let (_k, v) = e.remove(i);
            Some(v)
        },
        None => {
            assert(as_map(before).remove(key@) =~= as_map(before));
            None
        },
    }
}

/// The map a list of pairs denotes when a later pair of a name replaces
/// an earlier one, as inserting them in turn into a map does.
pub open spec fn last_wins<V>(e: Seq<(String, V)>) -> Map<Seq<char>, V>
    decreases e.len(),
{
    if e.len() == 0 {
        Map::empty()
    } else {
        last_wins(e.drop_last()).insert(e.last().0@, e.last().1)
    }
}

/// Where no name occurs twice, the pairs denote the table's map.
pub proof fn lemma_last_wins_unique<V>(e: Seq<(String, V)>)
    requires
        keys_unique(e),
    ensures
        last_wins(e) == as_map(e),
    decreases e.len(),
{
    if e.len() == 0 {
        assert(as_map(e) =~= Map::<Seq<char>, V>::empty());
    } else {
        let d = e.drop_last();
        assert(keys_unique(d)) by {
            assert forall|a: int, b: int| 0 <= a < d.len() && 0 <= b < d.len() && a != b implies
                #[trigger] d[a].0@ != #[trigger] d[b].0@ by {
                assert(d[a] == e[a] && d[b] == e[b]);
            }
        }
        lemma_last_wins_unique(d);
        assert(!has_key(d, e.last().0@)) by {
            if has_key(d, e.last().0@) {
                let i = choose|i: int| 0 <= i < d.len() && #[trigger] d[i].0@ == e.last().0@;
                assert(d[i] == e[i]);
                assert(e[i].0@ != e[e.len() - 1].0@);
            }
        }
        lemma_push(d, e.last().0, e.last().1);
        assert(d.push((e.last().0, e.last().1)) =~= e);
    }
}

/// A table of the pairs, each name once, the last pair of a name winning.
pub fn from_pairs<V>(pairs: Vec<(String, V)>) -> (r: Vec<(String, V)>)
    ensures
        keys_unique(r@),
        as_map(r@) == last_wins(pairs@),
{
    let ghost orig = pairs@;
    let mut rest = pairs;
    let mut out: Vec<(String, V)> = Vec::new();
    let mut k: usize = 0;
    assert(orig.len() == rest.len());
    assert(orig.take(0) =~= Seq::<(String, V)>::empty());
    assert(orig.skip(0) =~= orig);
    assert(as_map(out@) =~= Map::<Seq<char>, V>::empty());
    while rest.len() > 0
        invariant
            k <= orig.len() <= usize::MAX,
            rest@ == orig.skip(k as int),
            keys_unique(out@),
            as_map(out@) == last_wins(orig.take(k as int)),
        decreases rest@.len(),
    {
        let (name, v) = rest.remove(0);
        proof {
            assert(orig.take(k + 1).drop_last() =~= orig.take(k as int));
            assert(orig.take(k + 1).last() == orig[k as int]);
            assert(rest@ =~= orig.skip(k + 1));
        }
        upsert(&mut out, name.as_str(), v);
        k = k + 1;
    }
    assert(orig.take(k as int) =~= orig);
    out
}

} // verus!
