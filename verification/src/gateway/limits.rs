//! Per-identity caps on concurrent sessions, so that one client cannot exhaust the
//! gateway for everyone else.

use vstd::prelude::*;

use crate::text;

verus! {

/// The position of the count of `identity`, or the length where there is none.
pub open spec fn slot(s: Seq<(String, usize)>, identity: Seq<char>) -> int
    decreases s.len(),
{
    if s.len() == 0 || s[0].0@ == identity {
        0
    } else {
        1 + slot(s.drop_first(), identity)
    }
}

/// How many sessions `identity` holds.
pub open spec fn count_in(s: Seq<(String, usize)>, identity: Seq<char>) -> nat {
    let i = slot(s, identity);
    if i < s.len() {
        s[i].1 as nat
    } else {
        0
    }
}

/// `slot` gives the first position of the identity.
proof fn slot_is_first(s: Seq<(String, usize)>, identity: Seq<char>)
    ensures
        0 <= slot(s, identity) <= s.len(),
        slot(s, identity) < s.len() ==> s[slot(s, identity)].0@ == identity,
        forall|i: int| 0 <= i < slot(s, identity) ==> (#[trigger] s[i]).0@ != identity,
    decreases s.len(),
{
    if s.len() > 0 && s[0].0@ != identity {
        let rest = s.drop_first();
        slot_is_first(rest, identity);
        assert forall|i: int| 0 <= i < slot(s, identity) implies (#[trigger] s[i]).0@
            != identity by {
            if i > 0 {
                assert(rest[i - 1] == s[i]);
            }
        }
    }
}

/// The first position is where the identity first occurs.
proof fn slot_at(s: Seq<(String, usize)>, identity: Seq<char>, p: int)
    requires
        0 <= p <= s.len(),
        p < s.len() ==> s[p].0@ == identity,
        forall|i: int| 0 <= i < p ==> (#[trigger] s[i]).0@ != identity,
    ensures
        slot(s, identity) == p,
{
    slot_is_first(s, identity);
    let q = slot(s, identity);
    if q < p {
        assert(s[q].0@ != identity);
    }
    if p < q {
        assert(s[p].0@ != identity);
    }
}

/// A session of an identity. One that no limit applies to has no identity to give
/// its slot back to.
#[derive(Debug, PartialEq)]
pub struct ConnGuard {
    pub identity: Option<String>,
}

/// Tracks concurrent sessions per identity and enforces a cap.
#[derive(Debug, PartialEq)]
pub struct ConnLimiter {
    max_per_identity: usize,
    counts: Vec<(String, usize)>,
}

/// Whether one session more of `identity` is all that changed.
pub open spec fn takes(before: ConnLimiter, after: ConnLimiter, identity: Seq<char>) -> bool {
    &&& after.cap() == before.cap()
    &&& after.held(identity) == before.held(identity) + 1
    &&& forall|other: Seq<char>|
        other != identity ==> #[trigger] after.held(other) == before.held(other)
}

/// Whether one session less of `identity`, where it held one, is all that changed.
pub open spec fn gives_back(before: ConnLimiter, after: ConnLimiter, identity: Seq<char>) -> bool {
    &&& after.cap() == before.cap()
    &&& after.held(identity) == (if before.held(identity) > 0 {
        (before.held(identity) - 1) as nat
    } else {
        0
    })
    &&& forall|other: Seq<char>|
        other != identity ==> #[trigger] after.held(other) == before.held(other)
}

/// To give a slot back undoes taking it, for every identity.
pub proof fn release_undoes_acquire(
    start: ConnLimiter,
    during: ConnLimiter,
    end: ConnLimiter,
    identity: Seq<char>,
    anyone: Seq<char>,
)
    requires
        takes(start, during, identity),
        gives_back(during, end, identity),
    ensures
        end.held(anyone) == start.held(anyone),
        end.cap() == start.cap(),
{
    if anyone != identity {
        assert(during.held(anyone) == start.held(anyone));
        assert(end.held(anyone) == during.held(anyone));
    }
}

impl ConnLimiter {
    #[verifier::type_invariant]
    spec fn wf(self) -> bool {
        &&& forall|i: int|
            0 <= i < self.counts@.len() ==> 0 < (#[trigger] self.counts@[i]).1
                <= self.max_per_identity
        &&& forall|i: int, j: int|
            0 <= i < j < self.counts@.len() ==> (#[trigger] self.counts@[i]).0@ != (
            #[trigger] self.counts@[j]).0@
    }

    /// The cap. 0 is none.
    pub closed spec fn cap(self) -> nat {
        self.max_per_identity as nat
    }

    /// How many sessions `identity` holds.
    pub closed spec fn held(self, identity: Seq<char>) -> nat {
        count_in(self.counts@, identity)
    }

    /// Whether the identity is among those that are counted.
    pub closed spec fn counted(self, identity: Seq<char>) -> bool {
        slot(self.counts@, identity) < self.counts@.len()
    }

    /// A limiter of which no slot is taken.
    pub fn new(max_per_identity: usize) -> (l: ConnLimiter)
        ensures
            l.cap() == max_per_identity,
            forall|identity: Seq<char>| #[trigger] l.held(identity) == 0,
    {
        ConnLimiter { max_per_identity, counts: Vec::new() }
    }

    /// How many sessions `identity` holds: at least one, or it is not counted at
    /// all.
    pub fn count(&self, identity: &str) -> (r: Option<usize>)
        ensures
            r is Some <==> self.counted(identity@),
            r matches Some(n) ==> n == self.held(identity@) && n > 0 && n <= self.cap(),
            r is None ==> self.held(identity@) == 0,
    {
        proof {
            use_type_invariant(self);
        }
        let i: usize = self.find(identity);
        if i < self.counts.len() {
            Some(self.counts[i].1)
        } else {
            None
        }
    }

    fn find(&self, identity: &str) -> (i: usize)
        ensures
            i == slot(self.counts@, identity@),
            i <= self.counts@.len(),
    {
        let mut i: usize = 0;
        while i < self.counts.len() && !text::same(self.counts[i].0.as_str(), identity)
            invariant
                i <= self.counts.len(),
                forall|k: int| 0 <= k < i ==> (#[trigger] self.counts@[k]).0@ != identity@,
            decreases self.counts.len() - i,
        {
            i = i + 1;
        }
        proof {
            slot_at(self.counts@, identity@, i as int);
        }
        i
    }

    /// Try to take a slot for `identity`. Without a cap it is always there; under a
    /// cap only while the identity holds fewer sessions than that.
    pub fn acquire(&mut self, identity: &str) -> (r: Option<ConnGuard>)
        ensures
            final(self).cap() == old(self).cap(),
            old(self).cap() == 0 ==> {
                &&& r matches Some(g) && g.identity is None
                &&& *final(self) == *old(self)
            },
            old(self).cap() > 0 ==> {
                &&& r is Some <==> old(self).held(identity@) < old(self).cap()
                &&& r matches Some(g) ==> {
                    &&& g.identity matches Some(i) && i@ == identity@
                    &&& takes(*old(self), *final(self), identity@)
                    &&& final(self).held(identity@) <= final(self).cap()
                }
                &&& r is None ==> *final(self) == *old(self)
            },
    {
        proof {
            use_type_invariant(&*self);
        }
        if self.max_per_identity == 0 {
            return Some(ConnGuard { identity: None });
        }
        let i: usize = self.find(identity);
        let ghost before = self.counts@;
        let max: usize = self.max_per_identity;
        proof {
            slot_is_first(before, identity@);
        }
        if i < self.counts.len() {
            let n: usize = self.counts[i].1;
            if n >= max {
                return None;
            }
            let mut counts: Vec<(String, usize)> = Vec::new();
            std::mem::swap(&mut counts, &mut self.counts);
            counts.set(i, (identity.to_owned(), n + 1));
            proof {
                let after = counts@;
                assert forall|a: int, b: int| 0 <= a < b < after.len() implies (
                #[trigger] after[a]).0@ != (#[trigger] after[b]).0@ by {
                    assert(after[a].0@ == before[a].0@);
                    assert(after[b].0@ == before[b].0@);
                    assert(before[a].0@ != before[b].0@);
                }
                Self::same_names_same_slots(before, after, identity@);
                assert forall|other: Seq<char>| other != identity@ implies count_in(after, other)
                    == count_in(before, other) by {
                    Self::same_names_same_slots(before, after, other);
                    slot_is_first(before, other);
                }
            }
            self.counts = counts;
        } else {
            let mut counts: Vec<(String, usize)> = Vec::new();
            std::mem::swap(&mut counts, &mut self.counts);
            counts.push((identity.to_owned(), 1));
            proof {
                let after = counts@;
                assert forall|a: int, b: int| 0 <= a < b < after.len() implies (
                #[trigger] after[a]).0@ != (#[trigger] after[b]).0@ by {
                    assert(after[a] == before[a]);
                    if b < before.len() {
                        assert(before[a].0@ != before[b].0@);
                    }
                }
                slot_at(after, identity@, before.len() as int);
                assert forall|other: Seq<char>| other != identity@ implies count_in(after, other)
                    == count_in(before, other) by {
                    slot_is_first(before, other);
                    let q = slot(before, other);
                    if q < before.len() {
                        slot_at(after, other, q);
                    } else {
                        slot_at(after, other, after.len() as int);
                    }
                }
            }
            self.counts = counts;
        }
        Some(ConnGuard { identity: Some(identity.to_owned()) })
    }

    /// Lists with the same names have them in the same places.
    proof fn same_names_same_slots(
        a: Seq<(String, usize)>,
        b: Seq<(String, usize)>,
        identity: Seq<char>,
    )
        requires
            a.len() == b.len(),
            forall|i: int| 0 <= i < a.len() ==> (#[trigger] a[i]).0@ == b[i].0@,
        ensures
            slot(a, identity) == slot(b, identity),
    {
        slot_is_first(a, identity);
        let p = slot(a, identity);
        assert forall|i: int| 0 <= i < p implies (#[trigger] b[i]).0@ != identity by {
            assert(a[i].0@ == b[i].0@);
        }
        slot_at(b, identity, p);
    }

    /// Give the slot of a session back. An identity that holds none any more is no
    /// longer counted, so that the counts do not grow without bound.
    pub fn release(&mut self, guard: ConnGuard)
        ensures
            final(self).cap() == old(self).cap(),
            guard.identity is None ==> *final(self) == *old(self),
            guard.identity matches Some(identity) ==> {
                &&& gives_back(*old(self), *final(self), identity@)
                &&& final(self).counted(identity@) <==> final(self).held(identity@) > 0
            },
    {
        proof {
            use_type_invariant(&*self);
        }
        let identity = match guard.identity {
            Some(i) => i,
            None => {
                return;
            },
        };
        let i: usize = self.find(identity.as_str());
        let ghost before = self.counts@;
        proof {
            slot_is_first(before, identity@);
        }
        if i >= self.counts.len() {
            return;
        }
        let n: usize = self.counts[i].1;
        let ghost name = identity@;
        let mut counts: Vec<(String, usize)> = Vec::new();
        std::mem::swap(&mut counts, &mut self.counts);
        if n > 1 {
            counts.set(i, (identity, n - 1));
            proof {
                let after = counts@;
                assert forall|a: int, b: int| 0 <= a < b < after.len() implies (
                #[trigger] after[a]).0@ != (#[trigger] after[b]).0@ by {
                    assert(after[a].0@ == before[a].0@);
                    assert(after[b].0@ == before[b].0@);
                    assert(before[a].0@ != before[b].0@);
                }
                Self::same_names_same_slots(before, after, name);
                assert forall|other: Seq<char>| other != name implies count_in(after, other)
                    == count_in(before, other) by {
                    Self::same_names_same_slots(before, after, other);
                    slot_is_first(before, other);
                }
            }
        } else {
            counts.remove(i);
            proof {
                let after = counts@;
                let p = i as int;
                assert(after == before.remove(p));
                assert forall|a: int, b: int| 0 <= a < b < after.len() implies (
                #[trigger] after[a]).0@ != (#[trigger] after[b]).0@ by {
                    let x = if a < p {
                        a
                    } else {
                        a + 1
                    };
                    let y = if b < p {
                        b
                    } else {
                        b + 1
                    };
                    assert(after[a] == before[x]);
                    assert(after[b] == before[y]);
                    assert(before[x].0@ != before[y].0@);
                }
                assert forall|a: int| 0 <= a < after.len() implies (#[trigger] after[a]).0@
                    != name by {
                    if a < p {
                        assert(after[a] == before[a]);
                    } else {
                        assert(after[a] == before[a + 1]);
                        assert(before[p].0@ != before[a + 1].0@);
                    }
                }
                assert forall|a: int| 0 <= a < after.len() implies 0 < (#[trigger] after[a]).1
                    <= self.max_per_identity by {
                    let x = if a < p {
                        a
                    } else {
                        a + 1
                    };
                    assert(after[a] == before[x]);
                }
                slot_at(after, name, after.len() as int);
                assert forall|other: Seq<char>| other != name implies count_in(after, other)
                    == count_in(before, other) by {
                    slot_is_first(before, other);
                    let q = slot(before, other);
                    if q == before.len() {
                        assert forall|a: int| 0 <= a < after.len() implies (#[trigger] after[a]).0@
                            != other by {
                            let x = if a < p {
                                a
                            } else {
                                a + 1
                            };
                            assert(after[a] == before[x]);
                        }
                        slot_at(after, other, after.len() as int);
                    } else if q < p {
                        assert forall|a: int| 0 <= a < q implies (#[trigger] after[a]).0@
                            != other by {
                            assert(after[a] == before[a]);
                        }
                        slot_at(after, other, q);
                    } else {
                        assert forall|a: int| 0 <= a < q - 1 implies (#[trigger] after[a]).0@
                            != other by {
                            let x = if a < p {
                                a
                            } else {
                                a + 1
                            };
                            assert(after[a] == before[x]);
                        }
                        slot_at(after, other, q - 1);
                    }
                }
            }
        }
        self.counts = counts;
    }
}

} // verus!
