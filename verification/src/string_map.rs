//! A map from string names to string values (custom headers, template
//! variables), held as its entries with no name occurring twice.

use vstd::prelude::*;

use crate::json::{pairs_view, strings_map};

verus! {

/// No name occurs twice among the entries.
pub open spec fn distinct_names(es: Seq<(Seq<char>, Seq<char>)>) -> bool {
    forall|i: int, j: int| 0 <= i < j < es.len() ==> #[trigger] es[i].0 != #[trigger] es[j].0
}

/// Some entry has the name `k`.
pub open spec fn has_name(es: Seq<(Seq<char>, Seq<char>)>, k: Seq<char>) -> bool {
    exists|i: int| 0 <= i < es.len() && #[trigger] es[i].0 == k
}

/// The index of an entry named `k` (meaningful when [`has_name`] holds).
pub open spec fn name_index(es: Seq<(Seq<char>, Seq<char>)>, k: Seq<char>) -> int {
    choose|i: int| 0 <= i < es.len() && #[trigger] es[i].0 == k
}

/// Setting `k` to `v`: an entry named `k` keeps its place and takes the new
/// value; otherwise the entry is appended.
pub open spec fn put_entry(es: Seq<(Seq<char>, Seq<char>)>, k: Seq<char>, v: Seq<char>) -> Seq<
    (Seq<char>, Seq<char>),
> {
    if has_name(es, k) {
        es.update(name_index(es, k), (k, v))
    } else {
        es.push((k, v))
    }
}

/// The entries collected from a list, in order: a later entry with a name
/// already seen replaces the value in place.
pub open spec fn collect_entries(es: Seq<(Seq<char>, Seq<char>)>) -> Seq<(Seq<char>, Seq<char>)>
    decreases es.len(),
{
    if es.len() == 0 {
        Seq::empty()
    } else {
        let prev = collect_entries(es.drop_last());
        put_entry(prev, es.last().0, es.last().1)
    }
}

/// A map of string names to string values. Its entries keep the order in
/// which names were first seen, and no name occurs twice.
#[derive(Debug)]
pub struct StringMap {
    entries: Vec<(String, String)>,
}

impl View for StringMap {
    type V = Seq<(Seq<char>, Seq<char>)>;

    closed spec fn view(&self) -> Seq<(Seq<char>, Seq<char>)> {
        pairs_view(self.entries@)
    }
}

/// Setting a name keeps the names distinct.
proof fn lemma_put_keeps_distinct(es: Seq<(Seq<char>, Seq<char>)>, k: Seq<char>, v: Seq<char>)
    requires
        distinct_names(es),
    ensures
        distinct_names(put_entry(es, k, v)),
{
    let r = put_entry(es, k, v);
    if has_name(es, k) {
        let n = name_index(es, k);
        assert forall|i: int, j: int| 0 <= i < j < r.len() implies #[trigger] r[i].0
            != #[trigger] r[j].0 by {
            if i == n {
                assert(es[j].0 != es[n].0);
            } else if j == n {
                assert(es[i].0 != es[n].0);
            } else {
                assert(es[i].0 != es[j].0);
            }
        }
    } else {
        assert forall|i: int, j: int| 0 <= i < j < r.len() implies #[trigger] r[i].0
            != #[trigger] r[j].0 by {
            if j == es.len() {
                assert(es[i].0 == r[i].0);
            } else {
                assert(es[i].0 != es[j].0);
            }
        }
    }
}

/// The map of a list with distinct names, once `k` is set to `v`, is the map
/// of the list with `k` mapped to `v`.
proof fn lemma_put_map(es: Seq<(Seq<char>, Seq<char>)>, k: Seq<char>, v: Seq<char>)
    requires
        distinct_names(es),
    ensures
        strings_map(put_entry(es, k, v)) == strings_map(es).insert(k, v),
    decreases es.len(),
{
    if has_name(es, k) {
        let n = name_index(es, k);
        let r = es.update(n, (k, v));
        if es.len() > 0 {
            let p = es.drop_last();
            assert(r.drop_last() =~= if n < es.len() - 1 {
                p.update(n, (k, v))
            } else {
                p
            });
            if n < es.len() - 1 {
                assert(p[n].0 == k);
                assert(has_name(p, k));
                assert(name_index(p, k) == n) by {
                    let m = name_index(p, k);
                    if m != n {
                        assert(es[m].0 == es[n].0);
                    }
                }
                lemma_put_map(p, k, v);
                assert(es.last().0 != k) by {
                    assert(es[es.len() - 1].0 != es[n].0);
                }
                assert(strings_map(r) =~= strings_map(es).insert(k, v));
            } else {
                assert(strings_map(r) =~= strings_map(es).insert(k, v));
            }
        }
    } else {
        let r = es.push((k, v));
        assert(r.drop_last() =~= es);
    }
}

/// The entries collected from any list have distinct names and hold the
/// list's map.
proof fn lemma_collect(es: Seq<(Seq<char>, Seq<char>)>)
    ensures
        distinct_names(collect_entries(es)),
        strings_map(collect_entries(es)) == strings_map(es),
    decreases es.len(),
{
    if es.len() > 0 {
        lemma_collect(es.drop_last());
        lemma_put_keeps_distinct(collect_entries(es.drop_last()), es.last().0, es.last().1);
        lemma_put_map(collect_entries(es.drop_last()), es.last().0, es.last().1);
    }
}

/// Sets `k` to `v` in a list of entries with distinct names.
fn put(out: &mut Vec<(String, String)>, k: String, v: String)
    requires
        distinct_names(pairs_view(old(out)@)),
    ensures
        pairs_view(final(out)@) == put_entry(pairs_view(old(out)@), k@, v@),
{
    let ghost es = pairs_view(out@);
    let mut j: usize = 0;
    while j < out.len()
        invariant
            out@ == old(out)@,
            es == pairs_view(out@),
            distinct_names(es),
            0 <= j <= out@.len(),
            forall|t: int| 0 <= t < j ==> (#[trigger] es[t]).0 != k@,
        decreases out@.len() - j,
    {
        if out[j].0 == k {
            proof {
                assert(es[j as int].0 == k@);
                assert(has_name(es, k@));
                let m = name_index(es, k@);
                if m != j {
                    assert(es[m].0 == es[j as int].0);
                }
            }
            out.set(j, (k, v));
            proof {
                assert(pairs_view(out@) =~= es.update(j as int, (k@, v@)));
            }
            return;
        }
        j = j + 1;
    }
    proof {
        assert(!has_name(es, k@));
    }
    out.push((k, v));
    proof {
        assert(pairs_view(out@) =~= es.push((k@, v@)));
    }
}

impl StringMap {
    /// No name occurs twice.
    #[verifier::type_invariant]
    spec fn names_distinct(self) -> bool {
        distinct_names(pairs_view(self.entries@))
    }

    /// The empty map.
    pub fn new() -> (res: Self)
        ensures
            res@ == Seq::<(Seq<char>, Seq<char>)>::empty(),
    {
        let res = StringMap { entries: Vec::new() };
        assert(res@ =~= Seq::<(Seq<char>, Seq<char>)>::empty());
        res
    }

    /// The map of a list of `(name, value)` entries: a later entry with a
    /// name already seen replaces the earlier value, as collecting into a
    /// map does.
    pub fn from_entries(entries: Vec<(String, String)>) -> (res: Self)
        ensures
            res@ == collect_entries(pairs_view(entries@)),
            strings_map(res@) == strings_map(pairs_view(entries@)),
    {
        let ghost src = pairs_view(entries@);
        let mut out: Vec<(String, String)> = Vec::new();
        let mut i: usize = 0;
        proof {
            assert(pairs_view(out@) =~= collect_entries(src.take(0)));
        }
        while i < entries.len()
            invariant
                src == pairs_view(entries@),
                0 <= i <= entries@.len(),
                pairs_view(out@) == collect_entries(src.take(i as int)),
            decreases entries@.len() - i,
        {
            proof {
                lemma_collect(src.take(i as int));
                assert(src.take(i + 1).drop_last() =~= src.take(i as int));
                assert(src.take(i + 1).last() == src[i as int]);
            }
            let k = entries[i].0.clone();
            let v = entries[i].1.clone();
            put(&mut out, k, v);
            i = i + 1;
        }
        proof {
            assert(src.take(entries@.len() as int) =~= src);
            lemma_collect(src);
        }
        StringMap { entries: out }
    }

    /// The entries, in order; no name occurs twice among them.
    pub fn entries(&self) -> (res: &Vec<(String, String)>)
        ensures
            pairs_view(res@) == self@,
            distinct_names(self@),
    {
        proof {
            use_type_invariant(self);
        }
        &self.entries
    }

    /// The number of entries.
    pub fn len(&self) -> (res: usize)
        ensures
            res == self@.len(),
    {
        self.entries.len()
    }

    /// Whether there is no entry.
    pub fn is_empty(&self) -> (res: bool)
        ensures
            res == (self@.len() == 0),
    {
        self.entries.len() == 0
    }
}

impl Clone for StringMap {
    /// A copy with the same entries.
    fn clone(&self) -> (res: Self)
        ensures
            res@ == self@,
    {
        proof {
            use_type_invariant(self);
        }
        let mut out: Vec<(String, String)> = Vec::new();
        let mut i: usize = 0;
        while i < self.entries.len()
            invariant
                0 <= i <= self.entries@.len(),
                pairs_view(out@) == pairs_view(self.entries@).take(i as int),
            decreases self.entries@.len() - i,
        {
            let ghost prev = out@;
            let k = self.entries[i].0.clone();
            let v = self.entries[i].1.clone();
            out.push((k, v));
            proof {
                assert(out@ == prev.push((k, v)));
                assert(pairs_view(out@) =~= pairs_view(prev).push((k@, v@)));
                assert(pairs_view(out@) =~= pairs_view(self.entries@).take(i + 1));
            }
            i = i + 1;
        }
        proof {
            assert(pairs_view(self.entries@).take(self.entries@.len() as int) =~= pairs_view(
                self.entries@,
            ));
        }
        StringMap { entries: out }
    }
}

} // verus!
