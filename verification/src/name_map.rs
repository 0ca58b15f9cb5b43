//! A finite table keyed by names.

use vstd::prelude::*;
use rustc_hash::{FxBuildHasher, FxHashMap};
use crate::ids::Name;

verus! {

/// `rustc_hash::FxBuildHasher`, the hasher factory in the type of every
/// `FxHashMap`. Nothing is stated of it.
#[verifier::external_type_specification]
#[verifier::external_body]
pub struct ExFxBuildHasher(FxBuildHasher);

/// Looks `key` up with `get` of `rustc_hash::FxHashMap`, which is std's
/// `HashMap` hashing with `FxBuildHasher`.
///
/// Not proved: that the lookup gives the value bound to `key` where the map
/// binds `key`, and nothing where it does not.
#[verifier::external_body]
fn table_get<'a, V>(table: &'a FxHashMap<u64, V>, key: u64) -> (r: Option<&'a V>)
    ensures
        match r {
            Some(v) => table@.contains_key(key) && *v == table@[key],
            None => !table@.contains_key(key),
        },
{
    table.get(&key)
}

/// Binds `key` with `insert` of `rustc_hash::FxHashMap`.
///
/// Not proved: that afterwards the map binds `key` to `value` and every other
/// key as before, and that the value bound to `key` before, if any, is
/// returned.
#[verifier::external_body]
fn table_insert<V>(table: &mut FxHashMap<u64, V>, key: u64, value: V) -> (r: Option<V>)
    ensures
        final(table)@ == old(table)@.insert(key, value),
        match r {
            Some(v) => old(table)@.contains_key(key) && v == old(table)@[key],
            None => !old(table)@.contains_key(key),
        },
{
    table.insert(key, value)
}

/// Walks the map with `iter` of `rustc_hash::FxHashMap` and copies each
/// binding out.
///
/// Not proved: that every binding of the map comes exactly once and nothing
/// else comes. The order of the walk is left open.
#[verifier::external_body]
fn table_pairs<V: Copy>(table: &FxHashMap<u64, V>) -> (out: Vec<(u64, V)>)
    ensures
        forall|i: int|
            0 <= i < out@.len() ==> table@.contains_pair((#[trigger] out@[i]).0, out@[i].1),
        forall|i: int, j: int|
            0 <= i < j < out@.len() ==> (#[trigger] out@[i]).0 != (#[trigger] out@[j]).0,
        forall|k: u64| #[trigger]
            table@.contains_key(k) ==> exists|i: int|
                0 <= i < out@.len() && (#[trigger] out@[i]).0 == k,
{
    table.iter().map(|(k, v)| (*k, *v)).collect()
}

/// Whether `s` lists `m`: every pair of `s` is a binding of `m`, no name
/// comes twice, and every name bound in `m` comes. A table has many
/// listings, one for each order of its names.
pub open spec fn lists<V>(s: Seq<(Name, V)>, m: Map<Name, V>) -> bool {
    &&& forall|i: int| 0 <= i < s.len() ==> m.contains_pair((#[trigger] s[i]).0, s[i].1)
    &&& forall|i: int, j: int| 0 <= i < j < s.len() ==> (#[trigger] s[i]).0 != (#[trigger] s[j]).0
    &&& forall|n: Name| #[trigger]
        m.contains_key(n) ==> exists|i: int| 0 <= i < s.len() && (#[trigger] s[i]).0 == n
}

/// The part of `m` that `keep` selects: each name whose value `keep` maps to
/// something, bound to that.
pub open spec fn selected<V, W>(m: Map<Name, V>, keep: spec_fn(V) -> Option<W>) -> Map<Name, W> {
    Map::new(|n: Name| m.contains_key(n) && keep(m[n]) is Some, |n: Name| keep(m[n])->0)
}

/// The pairs of `s` that `keep` selects, in their order: each pair whose
/// value `keep` maps to something, with that in place of the value.
pub open spec fn selection<V, W>(s: Seq<(Name, V)>, keep: spec_fn(V) -> Option<W>) -> Seq<
    (Name, W),
>
    decreases s.len(),
{
    if s.len() == 0 {
        Seq::empty()
    } else {
        match keep(s.last().1) {
            Some(w) => selection(s.drop_last(), keep).push((s.last().0, w)),
            None => selection(s.drop_last(), keep),
        }
    }
}

/// Whether the pair `p` is what `keep` selects from the pair of `s` at `j`.
pub open spec fn picks<V, W>(
    s: Seq<(Name, V)>,
    keep: spec_fn(V) -> Option<W>,
    j: int,
    p: (Name, W),
) -> bool {
    0 <= j < s.len() && s[j].0 == p.0 && keep(s[j].1) == Some(p.1)
}

/// Whether the pair `p` is what `keep` selects from some pair of `s`.
pub open spec fn picked<V, W>(s: Seq<(Name, V)>, keep: spec_fn(V) -> Option<W>, p: (Name, W)) -> bool {
    exists|j: int| #[trigger] picks(s, keep, j, p)
}

/// Whether no name comes twice in `s`.
pub open spec fn names_differ<V>(s: Seq<(Name, V)>) -> bool {
    forall|i: int, j: int| 0 <= i < j < s.len() ==> (#[trigger] s[i]).0 != (#[trigger] s[j]).0
}

/// Every pair of a selection is picked from a pair of the sequence, every
/// pair of the sequence that `keep` selects is in the selection, and where no
/// name comes twice in the sequence none comes twice in the selection.
pub proof fn lemma_selection<V, W>(s: Seq<(Name, V)>, keep: spec_fn(V) -> Option<W>)
    ensures
        forall|t: int|
            0 <= t < selection(s, keep).len() ==> picked(s, keep, #[trigger] selection(s, keep)[t]),
        forall|j: int|
            0 <= j < s.len() && keep((#[trigger] s[j]).1) is Some ==> selection(s, keep).contains(
                (s[j].0, keep(s[j].1)->0),
            ),
        names_differ(s) ==> names_differ(selection(s, keep)),
    decreases s.len(),
{
    if s.len() > 0 {
        let rest = s.drop_last();
        let last = s.len() - 1;
        let part = selection(rest, keep);
        let all = selection(s, keep);
        lemma_selection(rest, keep);
        assert forall|t: int| 0 <= t < all.len() implies picked(s, keep, #[trigger] all[t]) by {
            if t < part.len() {
                assert(picked(rest, keep, part[t]));
                let j = choose|j: int| #[trigger] picks(rest, keep, j, part[t]);
                assert(picks(s, keep, j, all[t]));
            } else {
                assert(picks(s, keep, last, all[t]));
            }
        }
        assert forall|j: int| 0 <= j < s.len() && keep((#[trigger] s[j]).1) is Some implies all.contains(
            (s[j].0, keep(s[j].1)->0),
        ) by {
            let p = (s[j].0, keep(s[j].1)->0);
            if j < last {
                assert(rest[j] == s[j]);
                assert(part.contains(p));
                let t = choose|t: int| 0 <= t < part.len() && part[t] == p;
                assert(all[t] == p);
            } else {
                assert(all[all.len() - 1] == p);
            }
        }
        if names_differ(s) {
            assert(names_differ(rest)) by {
                assert forall|i: int, j: int| 0 <= i < j < rest.len() implies (#[trigger] rest[i]).0
                    != (#[trigger] rest[j]).0 by {
                    assert(s[i].0 != s[j].0);
                }
            }
            assert forall|a: int, b: int| 0 <= a < b < all.len() implies (#[trigger] all[a]).0
                != (#[trigger] all[b]).0 by {
                if b < part.len() {
                    assert(part[a].0 != part[b].0);
                } else {
                    assert(picked(rest, keep, part[a]));
                    let j = choose|j: int| #[trigger] picks(rest, keep, j, part[a]);
                    assert(s[j].0 != s[last].0);
                }
            }
        }
    }
}

/// What `keep` selects from a listing of a table lists what it selects from
/// the table.
pub proof fn lemma_selection_lists<V, W>(
    s: Seq<(Name, V)>,
    m: Map<Name, V>,
    keep: spec_fn(V) -> Option<W>,
)
    requires
        lists(s, m),
    ensures
        lists(selection(s, keep), selected(m, keep)),
{
    let all = selection(s, keep);
    let part = selected(m, keep);
    lemma_selection(s, keep);
    assert(names_differ(s));
    assert forall|t: int| 0 <= t < all.len() implies part.contains_pair(
        (#[trigger] all[t]).0,
        all[t].1,
    ) by {
        assert(picked(s, keep, all[t]));
        let j = choose|j: int| #[trigger] picks(s, keep, j, all[t]);
        assert(m.contains_pair(s[j].0, s[j].1));
    }
    assert forall|n: Name| #[trigger] part.contains_key(n) implies exists|t: int|
        0 <= t < all.len() && (#[trigger] all[t]).0 == n by {
        let j = choose|j: int| 0 <= j < s.len() && (#[trigger] s[j]).0 == n;
        assert(m.contains_pair(s[j].0, s[j].1));
        let p = (s[j].0, keep(s[j].1)->0);
        assert(all.contains(p));
        let t = choose|t: int| 0 <= t < all.len() && all[t] == p;
        assert(all[t].0 == n);
    }
}

/// A finite table from names to values of type `V`, viewed as a `Map`.
#[derive(Debug, PartialEq, Eq)]
pub struct NameMap<V> {
    table: FxHashMap<u64, V>,
}

impl<V> View for NameMap<V> {
    type V = Map<Name, V>;

    closed spec fn view(&self) -> Map<Name, V> {
        Map::new(|n: Name| self.table@.contains_key(n.id), |n: Name| self.table@[n.id])
    }
}

impl<V> NameMap<V> {
    /// The empty table.
    pub fn new() -> (m: Self)
        ensures
            m@ == Map::<Name, V>::empty(),
    {
        let m = NameMap { table: FxHashMap::default() };
        assert(m@ =~= Map::<Name, V>::empty());
        m
    }

    /// The value bound to `name`, if there is one.
    pub fn get(&self, name: &Name) -> (r: Option<&V>)
        ensures
            match r {
                Some(v) => self@.contains_key(*name) && *v == self@[*name],
                None => !self@.contains_key(*name),
            },
    {
        table_get(&self.table, name.id)
    }

    /// Binds `name` to `value`, replacing any earlier binding, and returns the
    /// value that was bound before.
    pub fn insert(&mut self, name: Name, value: V) -> (r: Option<V>)
        ensures
            final(self)@ == old(self)@.insert(name, value),
            match r {
                Some(v) => old(self)@.contains_key(name) && v == old(self)@[name],
                None => !old(self)@.contains_key(name),
            },
    {
        let r = table_insert(&mut self.table, name.id, value);
        assert(self@ =~= old(self)@.insert(name, value));
        r
    }

    /// The bindings of the table, each once, in no particular order.
    pub fn entries(&self) -> (out: Vec<(Name, V)>) where V: Copy
        ensures
            lists(out@, self@),
    {
        let pairs = table_pairs(&self.table);
        let mut out: Vec<(Name, V)> = Vec::new();
        let mut i: usize = 0;
        while i < pairs.len()
            invariant
                i <= pairs.len(),
                out@.len() == i,
                forall|j: int|
                    0 <= j < i ==> #[trigger] out@[j] == (Name { id: pairs@[j].0 }, pairs@[j].1),
            decreases pairs.len() - i,
        {
            out.push((Name { id: pairs[i].0 }, pairs[i].1));
            i += 1;
        }
        proof {
            assert forall|n: Name| #[trigger] self@.contains_key(n) implies exists|i: int|
                0 <= i < out@.len() && (#[trigger] out@[i]).0 == n by {
                assert(self.table@.contains_key(n.id));
                let i = choose|i: int| 0 <= i < pairs@.len() && (#[trigger] pairs@[i]).0 == n.id;
                assert(out@[i].0 == n);
            }
            assert forall|i: int| 0 <= i < out@.len() implies self@.contains_pair(
                (#[trigger] out@[i]).0,
                out@[i].1,
            ) by {
                assert(self.table@.contains_pair(pairs@[i].0, pairs@[i].1));
            }
            assert forall|i: int, j: int| 0 <= i < j < out@.len() implies (#[trigger] out@[i]).0
                != (#[trigger] out@[j]).0 by {
                assert(pairs@[i].0 != pairs@[j].0);
            }
        }
        out
    }
}

impl<V: Clone> Clone for NameMap<V> {
    /// An independent copy of the table.
    fn clone(&self) -> (m: Self)
        ensures
            m@ == self@,
    {
        NameMap { table: self.table.clone() }
    }
}

} // verus!
