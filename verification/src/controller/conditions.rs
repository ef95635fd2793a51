//! Status conditions. [`set`] is an upsert keyed on `type` that keeps
//! `lastTransitionTime` unless `status` flips, and stamps `observedGeneration`
//! from the object under reconcile.

use vstd::prelude::*;

use crate::collections;
use crate::k8s::{Condition, ConditionView};
use crate::text;
use crate::time::Time;

verus! {

pub const READY: &'static str = "Ready";

pub const RESTART_REQUIRED: &'static str = "RestartRequired";

/// The position of the first condition of type `t`, or the length of `cs` where
/// there is none.
pub open spec fn find(cs: Seq<ConditionView>, t: Seq<char>) -> int
    decreases cs.len(),
{
    if cs.len() == 0 || cs[0].type_ == t {
        0
    } else {
        1 + find(cs.drop_first(), t)
    }
}

/// What replaces `old` where `new` is of the same type: `new`, under the old
/// transition time unless the status has flipped.
pub open spec fn replaced(old: ConditionView, new: ConditionView) -> ConditionView {
    if old.status == new.status {
        ConditionView { last_transition_time: old.last_transition_time, ..new }
    } else {
        new
    }
}

/// The conditions after an upsert of `c` by its type.
pub open spec fn upserted(cs: Seq<ConditionView>, c: ConditionView) -> Seq<ConditionView> {
    let i = find(cs, c.type_);
    if i < cs.len() {
        cs.update(i, replaced(cs[i], c))
    } else {
        cs.push(c)
    }
}

/// Whether no two conditions are of one type.
pub open spec fn distinct_types(cs: Seq<ConditionView>) -> bool {
    forall|i: int, j: int|
        0 <= i < j < cs.len() ==> (#[trigger] cs[i]).type_ != (#[trigger] cs[j]).type_
}

/// `find` gives the first position of the type.
pub proof fn find_is_first(cs: Seq<ConditionView>, t: Seq<char>)
    ensures
        0 <= find(cs, t) <= cs.len(),
        find(cs, t) < cs.len() ==> cs[find(cs, t)].type_ == t,
        forall|i: int| 0 <= i < find(cs, t) ==> (#[trigger] cs[i]).type_ != t,
    decreases cs.len(),
{
    if cs.len() > 0 && cs[0].type_ != t {
        let rest = cs.drop_first();
        find_is_first(rest, t);
        assert forall|i: int| 0 <= i < find(cs, t) implies (#[trigger] cs[i]).type_ != t by {
            if i > 0 {
                assert(rest[i - 1] == cs[i]);
            }
        }
    }
}

/// Upsert by `type`, keeping the prior `lastTransitionTime` unless `status`
/// changed.
pub fn set(conditions: &mut Vec<Condition>, condition: Condition)
    ensures
        collections::views(final(conditions)@) == upserted(
            collections::views(old(conditions)@),
            condition@,
        ),
{
    let ghost before = collections::views(conditions@);
    let ghost target = condition@.type_;
    let mut i: usize = 0;
    while i < conditions.len() && !text::same(
        conditions[i].type_.as_str(),
        condition.type_.as_str(),
    )
        invariant
            i <= conditions.len(),
            collections::views(conditions@) == before,
            target == condition@.type_,
            forall|k: int| 0 <= k < i ==> (#[trigger] before[k]).type_ != target,
        decreases conditions.len() - i,
    {
        assert(before[i as int].type_ == conditions@[i as int].type_@);
        i = i + 1;
    }
    proof {
        find_is_first(before, target);
        let p = find(before, target);
        if i < before.len() {
            assert(before[i as int].type_ == target);
        }
        if p < i {
            assert(before[p].type_ != target);
        }
        assert(i == p);
    }
    let ghost c = condition@;
    if i < conditions.len() {
        let mut next = condition;
        if text::same(conditions[i].status.as_str(), next.status.as_str()) {
            next.last_transition_time = conditions[i].last_transition_time;
        }
        assert(next@ == replaced(before[i as int], c));
        conditions.set(i, next);
        assert(collections::views(conditions@) =~= before.update(
            i as int,
            replaced(before[i as int], c),
        ));
    } else {
        conditions.push(condition);
        assert(collections::views(conditions@) =~= before.push(c));
    }
}

/// How a condition spells its status.
pub open spec fn status_text(status: bool) -> Seq<char> {
    if status {
        "True"@
    } else {
        "False"@
    }
}

/// A condition of the given type.
pub open spec fn condition_view(
    type_: Seq<char>,
    status: bool,
    reason: Seq<char>,
    message: Seq<char>,
    generation: Option<i64>,
    now: int,
) -> ConditionView {
    ConditionView {
        type_,
        status: status_text(status),
        reason,
        message,
        last_transition_time: now,
        observed_generation: generation,
    }
}

fn condition(
    type_: &str,
    status: bool,
    reason: &str,
    message: &str,
    generation: Option<i64>,
    now: Time,
) -> (c: Condition)
    ensures
        c@ == condition_view(type_@, status, reason@, message@, generation, now@),
{
    Condition {
        type_: type_.to_owned(),
        status: (if status {
            "True"
        } else {
            "False"
        }).to_owned(),
        reason: reason.to_owned(),
        message: message.to_owned(),
        last_transition_time: now,
        observed_generation: generation,
    }
}

/// Whether the sandbox can be reached.
pub fn ready(
    status: bool,
    reason: &str,
    message: &str,
    generation: Option<i64>,
    now: Time,
) -> (c: Condition)
    ensures
        c@ == condition_view(READY@, status, reason@, message@, generation, now@),
{
    condition(READY, status, reason, message, generation, now)
}

/// A `spec.cpus`/`spec.memory` edit that could not be applied live: the sandbox
/// booted without hotplug headroom, or the control socket was unreachable. The
/// controller never restarts a sandbox to apply it; the user does.
pub fn restart_required(
    status: bool,
    reason: &str,
    message: &str,
    generation: Option<i64>,
    now: Time,
) -> (c: Condition)
    ensures
        c@ == condition_view(RESTART_REQUIRED@, status, reason@, message@, generation, now@),
{
    condition(RESTART_REQUIRED, status, reason, message, generation, now)
}

/// A copy of a list of conditions.
pub fn clone_conditions(cs: &Vec<Condition>) -> (out: Vec<Condition>)
    ensures
        collections::views(out@) == collections::views(cs@),
{
    let mut out: Vec<Condition> = Vec::new();
    let mut i: usize = 0;
    while i < cs.len()
        invariant
            i <= cs.len(),
            out.len() == i,
            forall|k: int| 0 <= k < i ==> (#[trigger] out@[k])@ == cs@[k]@,
        decreases cs.len() - i,
    {
        let c = &cs[i];
        out.push(
            Condition {
                type_: c.type_.clone(),
                status: c.status.clone(),
                reason: c.reason.clone(),
                message: c.message.clone(),
                last_transition_time: c.last_transition_time,
                observed_generation: c.observed_generation,
            },
        );
        i = i + 1;
    }
    assert(collections::views(out@) =~= collections::views(cs@));
    out
}

/// An upsert keeps the types distinct.
pub proof fn upsert_keeps_types_distinct(cs: Seq<ConditionView>, c: ConditionView)
    requires
        distinct_types(cs),
    ensures
        distinct_types(upserted(cs, c)),
{
    find_is_first(cs, c.type_);
}

/// An upsert leaves the conditions of other types as they were.
pub proof fn upsert_leaves_other_types(cs: Seq<ConditionView>, c: ConditionView, i: int)
    requires
        0 <= i < cs.len(),
        cs[i].type_ != c.type_,
    ensures
        upserted(cs, c)[i] == cs[i],
{
    find_is_first(cs, c.type_);
}

/// After an upsert the first condition of the type says what was set, and its
/// transition time is the old one exactly where a condition of that type with
/// the same status was there.
pub proof fn upsert_records(cs: Seq<ConditionView>, c: ConditionView)
    ensures
        ({
            let out = upserted(cs, c);
            let i = find(out, c.type_);
            &&& i < out.len()
            &&& i == find(cs, c.type_)
            &&& out[i].type_ == c.type_
            &&& out[i].status == c.status
            &&& out[i].reason == c.reason
            &&& out[i].message == c.message
            &&& out[i].observed_generation == c.observed_generation
            &&& out[i].last_transition_time == (if i < cs.len() && cs[i].status == c.status {
                cs[i].last_transition_time
            } else {
                c.last_transition_time
            })
        }),
{
    let out = upserted(cs, c);
    let p = find(cs, c.type_);
    find_is_first(cs, c.type_);
    find_is_first(out, c.type_);
    let q = find(out, c.type_);
    assert(out[p].type_ == c.type_);
    if q < p {
        assert(out[q] == cs[q]);
        assert(cs[q].type_ != c.type_);
    }
    if p < q {
        assert(out[p].type_ != c.type_);
    }
}

/// Setting a condition twice is setting it once.
pub proof fn upsert_is_idempotent(cs: Seq<ConditionView>, c: ConditionView)
    ensures
        upserted(upserted(cs, c), c) == upserted(cs, c),
{
    upsert_records(cs, c);
    find_is_first(cs, c.type_);
    let out = upserted(cs, c);
    let i = find(out, c.type_);
    assert(replaced(out[i], c) == out[i]);
    assert(upserted(out, c) =~= out);
}

} // verus!
