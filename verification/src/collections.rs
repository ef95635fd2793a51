//! Ordered collections of strings.
//!
//! [`StringMap`] keeps its entries in ascending key order, each key once, and is
//! modelled by a `Map`. [`sort_dedup`] lists the distinct members of a vector in
//! ascending order.

use vstd::prelude::*;

use crate::text;

verus! {

/// The views of the members of `s`, in the same order.
pub open spec fn views<T: View>(s: Seq<T>) -> Seq<T::V> {
    Seq::new(s.len(), |i: int| s[i].view())
}

/// One more member: the views of a growing list stay a prefix of `all`.
pub proof fn grown<T: View>(before: Seq<T>, after: Seq<T>, all: Seq<T::V>)
    requires
        after.len() == before.len() + 1,
        after == before.push(after.last()),
        views(before) == all.take(before.len() as int),
        before.len() < all.len(),
        after.last()@ == all[before.len() as int],
    ensures
        views(after) == all.take(after.len() as int),
{
    assert forall|i: int| 0 <= i < after.len() implies views(after)[i] == all.take(
        after.len() as int,
    )[i] by {
        if i < before.len() {
            assert(views(before)[i] == all.take(before.len() as int)[i]);
        }
    }
    assert(views(after) =~= all.take(after.len() as int));
}

/// The view of what an option holds.
pub open spec fn opt<T: View>(o: Option<T>) -> Option<T::V> {
    match o {
        Some(x) => Some(x.view()),
        None => None,
    }
}

/// The view of an outcome.
pub open spec fn res<T: View, E: View>(r: Result<T, E>) -> Result<T::V, E::V> {
    match r {
        Ok(x) => Ok(x.view()),
        Err(e) => Err(e.view()),
    }
}

/// A copy of a list of strings.
pub fn clone_strings(v: &Vec<String>) -> (out: Vec<String>)
    ensures
        views(out@) == views(v@),
{
    let mut out: Vec<String> = Vec::new();
    let mut i: usize = 0;
    while i < v.len()
        invariant
            i <= v.len(),
            views(out@) == views(v@.take(i as int)),
        decreases v.len() - i,
    {
        out.push(v[i].clone());
        assert(views(v@.take(i + 1)) == views(v@.take(i as int)).push(v@[i as int]@));
        i = i + 1;
    }
    assert(v@.take(i as int) == v@);
    out
}

/// Whether `q` is in strictly ascending order, and so holds nothing twice.
pub open spec fn ascending(q: Seq<Seq<char>>) -> bool {
    forall|i: int, j: int| 0 <= i < j < q.len() ==> text::before(#[trigger] q[i], #[trigger] q[j])
}

/// The members of a finite set, in ascending order.
pub open spec fn in_order(s: Set<Seq<char>>) -> Seq<Seq<char>> {
    choose|q: Seq<Seq<char>>| ascending(q) && q.to_set() == s
}

/// A set has one ascending listing.
pub proof fn ascending_unique(a: Seq<Seq<char>>, b: Seq<Seq<char>>)
    requires
        ascending(a),
        ascending(b),
        a.to_set() == b.to_set(),
    ensures
        a == b,
    decreases a.len(),
{
    if a.len() == 0 {
        if b.len() > 0 {
            assert(b.to_set().contains(b[0]));
            assert(a.to_set().contains(b[0]));
        }
        assert(a == b);
    } else {
        assert(a.to_set().contains(a.last()));
        assert(b.to_set().contains(a.last()));
        let i = choose|i: int| 0 <= i < b.len() && b[i] == a.last();
        assert(b.to_set().contains(b.last()));
        assert(a.to_set().contains(b.last()));
        let j = choose|j: int| 0 <= j < a.len() && a[j] == b.last();
        if i < b.len() - 1 {
            assert(text::before(b[i], b[b.len() - 1]));
            if j < a.len() - 1 {
                assert(text::before(a[j], a[a.len() - 1]));
                text::before_total(a.last(), b.last());
                text::before_irreflexive(a.last());
            } else {
                text::before_irreflexive(a.last());
            }
            assert(false);
        }
        assert(a.last() == b.last());
        let a1 = a.drop_last();
        let b1 = b.drop_last();
        assert forall|x: Seq<char>| a1.to_set().contains(x) <==> b1.to_set().contains(x) by {
            if a1.to_set().contains(x) {
                let k = choose|k: int| 0 <= k < a1.len() && a1[k] == x;
                assert(a[k] == x);
                assert(text::before(a[k], a[a.len() - 1]));
                text::before_irreflexive(x);
                assert(a.to_set().contains(x));
                assert(b.to_set().contains(x));
                let m = choose|m: int| 0 <= m < b.len() && b[m] == x;
                assert(b1[m] == x);
            }
            if b1.to_set().contains(x) {
                let k = choose|k: int| 0 <= k < b1.len() && b1[k] == x;
                assert(b[k] == x);
                assert(text::before(b[k], b[b.len() - 1]));
                text::before_irreflexive(x);
                assert(b.to_set().contains(x));
                assert(a.to_set().contains(x));
                let m = choose|m: int| 0 <= m < a.len() && a[m] == x;
                assert(a1[m] == x);
            }
        }
        assert(a1.to_set() =~= b1.to_set());
        assert(ascending(a1)) by {
            assert forall|i: int, j: int| 0 <= i < j < a1.len() implies text::before(
                #[trigger] a1[i],
                #[trigger] a1[j],
            ) by {
                assert(text::before(a[i], a[j]));
            }
        }
        assert(ascending(b1)) by {
            assert forall|i: int, j: int| 0 <= i < j < b1.len() implies text::before(
                #[trigger] b1[i],
                #[trigger] b1[j],
            ) by {
                assert(text::before(b[i], b[j]));
            }
        }
        ascending_unique(a1, b1);
        assert(a == a1.push(a.last()));
        assert(b == b1.push(b.last()));
    }
}

/// An ascending sequence is the listing of its own members.
pub proof fn ascending_is_in_order(q: Seq<Seq<char>>)
    requires
        ascending(q),
    ensures
        in_order(q.to_set()) == q,
{
    let s = q.to_set();
    assert(ascending(q) && q.to_set() == s);
    let r = in_order(s);
    assert(ascending(r) && r.to_set() == s);
    ascending_unique(r, q);
}

/// An ascending listing of one member more.
proof fn listed_with(q: Seq<Seq<char>>, x: Seq<char>) -> (r: Seq<Seq<char>>)
    requires
        ascending(q),
    ensures
        ascending(r),
        r.to_set() == q.to_set().insert(x),
    decreases q.len(),
{
    if q.len() == 0 {
        let r = seq![x];
        assert(r[0] == x);
        assert(r.to_set() =~= q.to_set().insert(x));
        r
    } else if q.last() == x {
        assert(q.to_set().contains(x));
        assert(q.to_set().insert(x) =~= q.to_set());
        q
    } else {
        text::before_total(q.last(), x);
        let front = q.drop_last();
        if text::before(q.last(), x) {
            let r = q.push(x);
            assert forall|i: int, j: int| 0 <= i < j < r.len() implies text::before(
                #[trigger] r[i],
                #[trigger] r[j],
            ) by {
                if j == q.len() {
                    if i < q.len() - 1 {
                        assert(text::before(q[i], q[q.len() - 1]));
                        text::before_transitive(q[i], q.last(), x);
                    }
                } else {
                    assert(text::before(q[i], q[j]));
                }
            }
            push_to_set(q, x);
            r
        } else {
            assert forall|i: int, j: int| 0 <= i < j < front.len() implies text::before(
                #[trigger] front[i],
                #[trigger] front[j],
            ) by {
                assert(text::before(q[i], q[j]));
            }
            let below = listed_with(front, x);
            let r = below.push(q.last());
            assert forall|i: int, j: int| 0 <= i < j < r.len() implies text::before(
                #[trigger] r[i],
                #[trigger] r[j],
            ) by {
                if j == below.len() {
                    assert(below.to_set().contains(below[i]));
                    if below[i] != x {
                        assert(front.to_set().contains(below[i]));
                        let k = choose|k: int| 0 <= k < front.len() && front[k] == below[i];
                        assert(text::before(q[k], q[q.len() - 1]));
                    }
                } else {
                    assert(text::before(below[i], below[j]));
                }
            }
            push_to_set(below, q.last());
            push_to_set(front, q.last());
            assert(q =~= front.push(q.last()));
            assert(r.to_set() =~= q.to_set().insert(x));
            r
        }
    }
}

/// The members of a list have an ascending listing.
proof fn listed(s: Seq<Seq<char>>) -> (q: Seq<Seq<char>>)
    ensures
        ascending(q),
        q.to_set() == s.to_set(),
    decreases s.len(),
{
    if s.len() == 0 {
        s
    } else {
        let front = listed(s.drop_last());
        let q = listed_with(front, s.last());
        push_to_set(s.drop_last(), s.last());
        assert(s =~= s.drop_last().push(s.last()));
        q
    }
}

/// What is in order lists the members of a list, all of them and nothing else.
pub proof fn in_order_lists(s: Seq<Seq<char>>)
    ensures
        ascending(in_order(s.to_set())),
        in_order(s.to_set()).to_set() == s.to_set(),
{
    let q = listed(s);
    assert(ascending(q) && q.to_set() == s.to_set());
}

/// Adds `x` to an ascending list, unless it is there already.
fn insert_name(v: &mut Vec<String>, x: String)
    requires
        ascending(views(old(v)@)),
    ensures
        ascending(views(final(v)@)),
        views(final(v)@).to_set() == views(old(v)@).to_set().insert(x@),
{
    let ghost before_call = views(v@);
    let mut i: usize = 0;
    while i < v.len() && text::is_before(v[i].as_str(), x.as_str())
        invariant
            i <= v.len(),
            views(v@) == before_call,
            ascending(before_call),
            forall|k: int| 0 <= k < i ==> text::before(#[trigger] before_call[k], x@),
        decreases v.len() - i,
    {
        i = i + 1;
    }
    if i < v.len() && text::same(v[i].as_str(), x.as_str()) {
        assert(before_call[i as int] == x@);
        assert(before_call.to_set().insert(x@) =~= before_call.to_set()) by {
            assert(before_call.to_set().contains(x@));
        }
        return;
    }
    let ghost w = x@;
    v.insert(i, x);
    proof {
        let after = views(v@);
        assert(after == before_call.insert(i as int, w));
        if i < before_call.len() {
            text::before_total(before_call[i as int], w);
            assert(text::before(w, before_call[i as int]));
        }
        assert forall|p: int, q: int| 0 <= p < q < after.len() implies text::before(
            #[trigger] after[p],
            #[trigger] after[q],
        ) by {
            if p < i && q < i {
                assert(text::before(before_call[p], before_call[q]));
            } else if p < i && q == i {
                assert(text::before(before_call[p], w));
            } else if p < i && q > i {
                assert(text::before(before_call[p], before_call[q - 1]));
            } else if p == i {
                if q - 1 > i {
                    assert(text::before(before_call[i as int], before_call[q - 1]));
                    text::before_transitive(w, before_call[i as int], before_call[q - 1]);
                }
            } else {
                assert(text::before(before_call[p - 1], before_call[q - 1]));
            }
        }
        assert forall|y: Seq<char>| after.to_set().contains(y) <==> before_call.to_set().insert(
            w,
        ).contains(y) by {
            if after.to_set().contains(y) {
                let k = choose|k: int| 0 <= k < after.len() && after[k] == y;
                if k < i {
                    assert(before_call[k] == y);
                } else if k > i {
                    assert(before_call[k - 1] == y);
                }
            }
            if before_call.to_set().contains(y) {
                let k = choose|k: int| 0 <= k < before_call.len() && before_call[k] == y;
                if k < i {
                    assert(after[k] == y);
                } else {
                    assert(after[k + 1] == y);
                }
            }
            if y == w {
                assert(after[i as int] == y);
            }
        }
        assert(after.to_set() =~= before_call.to_set().insert(w));
    }
}

/// The distinct members of `v`, in ascending order.
pub fn sort_dedup(v: &Vec<String>) -> (out: Vec<String>)
    ensures
        ascending(views(out@)),
        views(out@).to_set() == views(v@).to_set(),
        views(out@) == in_order(views(v@).to_set()),
{
    let mut out: Vec<String> = Vec::new();
    let mut i: usize = 0;
    assert(views(v@).take(0).to_set() =~= views(out@).to_set());
    while i < v.len()
        invariant
            i <= v.len(),
            ascending(views(out@)),
            views(out@).to_set() == views(v@).take(i as int).to_set(),
        decreases v.len() - i,
    {
        insert_name(&mut out, v[i].clone());
        proof {
            let all = views(v@);
            assert(all.take(i + 1) == all.take(i as int).push(all[i as int]));
            push_to_set(all.take(i as int), all[i as int]);
        }
        i = i + 1;
    }
    proof {
        assert(views(v@).take(i as int) == views(v@));
        ascending_is_in_order(views(out@));
    }
    out
}

/// Pushing a member inserts it into the set of members.
pub proof fn push_to_set<A>(s: Seq<A>, x: A)
    ensures
        s.push(x).to_set() == s.to_set().insert(x),
{
    let t = s.push(x);
    assert forall|y: A| t.to_set().contains(y) <==> s.to_set().insert(x).contains(y) by {
        if t.to_set().contains(y) {
            let k = choose|k: int| 0 <= k < t.len() && t[k] == y;
            if k < s.len() {
                assert(s[k] == y);
            }
        }
        if s.to_set().contains(y) {
            let k = choose|k: int| 0 <= k < s.len() && s[k] == y;
            assert(t[k] == y);
        }
        if y == x {
            assert(t[s.len() as int] == y);
        }
    }
    assert(t.to_set() =~= s.to_set().insert(x));
}

/// The keys of a list of entries.
pub open spec fn keys_of(s: Seq<(String, String)>) -> Seq<Seq<char>> {
    Seq::new(s.len(), |i: int| s[i].0@)
}

/// The position of the entry under `k`.
pub open spec fn key_index(s: Seq<(String, String)>, k: Seq<char>) -> int {
    choose|i: int| 0 <= i < s.len() && #[trigger] s[i].0@ == k
}

/// The map that a list of entries with distinct keys stands for.
pub open spec fn map_of(s: Seq<(String, String)>) -> Map<Seq<char>, Seq<char>> {
    Map::new(
        |k: Seq<char>| exists|i: int| 0 <= i < s.len() && #[trigger] s[i].0@ == k,
        |k: Seq<char>| s[key_index(s, k)].1@,
    )
}

/// A map from strings to strings, in ascending key order.
#[derive(Debug, PartialEq)]
pub struct StringMap {
    entries: Vec<(String, String)>,
}

impl View for StringMap {
    type V = Map<Seq<char>, Seq<char>>;

    closed spec fn view(&self) -> Map<Seq<char>, Seq<char>> {
        map_of(self.entries@)
    }
}

impl StringMap {
    #[verifier::type_invariant]
    spec fn wf(self) -> bool {
        ascending(keys_of(self.entries@))
    }

    /// The map with no entries.
    pub fn new() -> (m: StringMap)
        ensures
            m@ == Map::<Seq<char>, Seq<char>>::empty(),
    {
        let m = StringMap { entries: Vec::new() };
        assert(m@ =~= Map::<Seq<char>, Seq<char>>::empty());
        m
    }

    /// The entries, in ascending key order, each key once.
    pub fn entries(&self) -> (out: &Vec<(String, String)>)
        ensures
            ascending(keys_of(out@)),
            map_of(out@) == self@,
    {
        proof {
            use_type_invariant(self);
        }
        &self.entries
    }

    /// The value under `key`.
    pub fn get(&self, key: &str) -> (r: Option<&String>)
        ensures
            r is Some <==> self@.dom().contains(key@),
            r matches Some(v) ==> v@ == self@[key@],
    {
        proof {
            use_type_invariant(self);
        }
        let mut i: usize = 0;
        while i < self.entries.len()
            invariant
                i <= self.entries.len(),
                forall|k: int| 0 <= k < i ==> (#[trigger] self.entries@[k]).0@ != key@,
                ascending(keys_of(self.entries@)),
            decreases self.entries.len() - i,
        {
            if text::same(self.entries[i].0.as_str(), key) {
                proof {
                    let s = self.entries@;
                    assert(s[i as int].0@ == key@);
                    entry_value(s, i as int);
                }
                return Some(&self.entries[i].1);
            }
            i = i + 1;
        }
        None
    }

    /// Sets the value under `key`, in place of an earlier one.
    pub fn insert(&mut self, key: String, value: String)
        ensures
            final(self)@ == old(self)@.insert(key@, value@),
    {
        proof {
            use_type_invariant(&*self);
        }
        let mut e: Vec<(String, String)> = Vec::new();
        std::mem::swap(&mut e, &mut self.entries);
        insert_entry(&mut e, key, value);
        self.entries = e;
    }

    /// A copy of the map.
    pub fn copy(&self) -> (m: StringMap)
        ensures
            m@ == self@,
    {
        proof {
            use_type_invariant(self);
        }
        let mut e: Vec<(String, String)> = Vec::new();
        let mut i: usize = 0;
        while i < self.entries.len()
            invariant
                i <= self.entries.len(),
                e.len() == i,
                forall|k: int|
                    0 <= k < i ==> (#[trigger] e@[k]).0@ == self.entries@[k].0@ && e@[k].1@
                        == self.entries@[k].1@,
                ascending(keys_of(self.entries@)),
            decreases self.entries.len() - i,
        {
            e.push((self.entries[i].0.clone(), self.entries[i].1.clone()));
            i = i + 1;
        }
        assert(keys_of(e@) =~= keys_of(self.entries@));
        proof {
            let a = e@;
            let b = self.entries@;
            assert forall|k: Seq<char>| map_of(a).dom().contains(k) <==> map_of(b).dom().contains(
                k,
            ) by {
                if map_of(a).dom().contains(k) {
                    let j = choose|j: int| 0 <= j < a.len() && #[trigger] a[j].0@ == k;
                    assert(b[j].0@ == k);
                }
                if map_of(b).dom().contains(k) {
                    let j = choose|j: int| 0 <= j < b.len() && #[trigger] b[j].0@ == k;
                    assert(a[j].0@ == k);
                }
            }
            assert forall|k: Seq<char>| map_of(a).dom().contains(k) implies map_of(a)[k] == map_of(
                b,
            )[k] by {
                let j = choose|j: int| 0 <= j < a.len() && #[trigger] a[j].0@ == k;
                assert(b[j].0@ == k);
                entry_value(a, j);
                entry_value(b, j);
            }
            assert(map_of(a) =~= map_of(b));
        }
        StringMap { entries: e }
    }
}

/// The map holds each entry's value under its key.
pub proof fn entry_value(s: Seq<(String, String)>, i: int)
    requires
        ascending(keys_of(s)),
        0 <= i < s.len(),
    ensures
        map_of(s).dom().contains(s[i].0@),
        map_of(s)[s[i].0@] == s[i].1@,
{
    let k = s[i].0@;
    assert(s[i].0@ == k);
    let j = key_index(s, k);
    if j != i {
        let q = keys_of(s);
        if j < i {
            assert(text::before(q[j], q[i]));
        } else {
            assert(text::before(q[i], q[j]));
        }
        text::before_irreflexive(k);
    }
}

/// Sets the value under `key` in a list of entries in ascending key order.
fn insert_entry(e: &mut Vec<(String, String)>, key: String, value: String)
    requires
        ascending(keys_of(old(e)@)),
    ensures
        ascending(keys_of(final(e)@)),
        map_of(final(e)@) == map_of(old(e)@).insert(key@, value@),
{
    let ghost s0 = e@;
    let mut i: usize = 0;
    while i < e.len() && text::is_before(e[i].0.as_str(), key.as_str())
        invariant
            i <= e.len(),
            e@ == s0,
            forall|k: int| 0 <= k < i ==> text::before((#[trigger] s0[k]).0@, key@),
        decreases e.len() - i,
    {
        i = i + 1;
    }
    let ghost kv = key@;
    let ghost vv = value@;
    let found: bool = i < e.len() && text::same(e[i].0.as_str(), key.as_str());
    if found {
        e.set(i, (key, value));
    } else {
        e.insert(i, (key, value));
    }
    proof {
        let s1 = e@;
        let q0 = keys_of(s0);
        let q1 = keys_of(s1);
        if found {
            assert(q1 =~= q0);
        } else {
            assert(q1 =~= q0.insert(i as int, kv));
            if i < q0.len() {
                text::before_total(q0[i as int], kv);
                assert(text::before(kv, q0[i as int]));
            }
            assert forall|a: int, b: int| 0 <= a < b < q1.len() implies text::before(
                #[trigger] q1[a],
                #[trigger] q1[b],
            ) by {
                if a < i && b < i {
                    assert(text::before(q0[a], q0[b]));
                } else if a < i && b == i {
                    assert(text::before(s0[a].0@, kv));
                } else if a < i && b > i {
                    assert(text::before(q0[a], q0[b - 1]));
                } else if a == i {
                    if b - 1 > i {
                        assert(text::before(q0[i as int], q0[b - 1]));
                        text::before_transitive(kv, q0[i as int], q0[b - 1]);
                    }
                } else {
                    assert(text::before(q0[a - 1], q0[b - 1]));
                }
            }
        }
        assert(ascending(q1));
        let m0 = map_of(s0);
        let m1 = map_of(s1);
        entry_value(s1, i as int);
        assert forall|k: Seq<char>| m1.dom().contains(k) <==> m0.insert(kv, vv).dom().contains(
            k,
        ) by {
            if m1.dom().contains(k) {
                let j = choose|j: int| 0 <= j < s1.len() && #[trigger] s1[j].0@ == k;
                if j < i {
                    assert(s0[j].0@ == k);
                } else if j > i {
                    if found {
                        assert(s0[j].0@ == k);
                    } else {
                        assert(s0[j - 1].0@ == k);
                    }
                }
            }
            if m0.dom().contains(k) {
                let j = choose|j: int| 0 <= j < s0.len() && #[trigger] s0[j].0@ == k;
                if j < i || found {
                    assert(s1[j].0@ == k);
                } else {
                    assert(s1[j + 1].0@ == k);
                }
            }
        }
        assert forall|k: Seq<char>| m1.dom().contains(k) implies m1[k] == m0.insert(kv, vv)[k] by {
            let j = choose|j: int| 0 <= j < s1.len() && #[trigger] s1[j].0@ == k;
            entry_value(s1, j);
            if j < i {
                entry_value(s0, j);
                text::before_irreflexive(kv);
            } else if j > i {
                assert(text::before(q1[i as int], q1[j]));
                text::before_irreflexive(kv);
                if found {
                    entry_value(s0, j);
                } else {
                    entry_value(s0, j - 1);
                }
            }
        }
        assert(m1 =~= m0.insert(kv, vv));
    }
}

} // verus!
