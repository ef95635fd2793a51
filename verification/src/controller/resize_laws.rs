//! What holds of a resize: what is asked for, what is recorded, and how the two relate.

use vstd::prelude::*;

use crate::collections;
use crate::controller::conditions;
use crate::controller::config::ControllerConfig;
use crate::controller::observe;
use crate::controller::plan::{Action, ErrorView};
use crate::controller::reconcile;
use crate::controller::reconcile::{ResizeReplies, StepView};
use crate::controller::record_laws;
use crate::controller::resize;
use crate::controller::resize::ResizeError;
use crate::json;
use crate::json::JsonScalarView;
use crate::k8s::{ConditionView, Pod};
use crate::sandbox::{Sandbox, SandboxPhase};
use crate::text;
use crate::time::Time;

verus! {

/// Whether a resize comes to this step, given the replies so far.
pub open spec fn steps(
    sandbox: Sandbox,
    cfg: ControllerConfig,
    now: Time,
    replies: ResizeReplies,
    step: StepView,
) -> bool {
    reconcile::resize_outcome(sandbox, cfg, now, replies) == Ok::<StepView, ErrorView>(step)
}

/// The request for so many vCPUs, in words.
pub open spec fn asks_for_cpus(request: Seq<char>, n: u32) -> bool {
    request == "{\"online\":"@ + text::dec(n as nat) + ",\"op\":\"cpu_target\"}"@
}

/// The request for so much memory, in words.
pub open spec fn asks_for_memory(request: Seq<char>, mib: u32) -> bool {
    request == "{\"op\":\"memory_target\",\"total_mib\":"@ + text::dec(mib as nat) + "}"@
}

/// A request tells the size that it asks for: no two sizes are asked for alike.
pub proof fn a_request_tells_its_size(request: Seq<char>, a: u32, b: u32)
    ensures
        asks_for_cpus(request, a) && asks_for_cpus(request, b) ==> a == b,
        asks_for_memory(request, a) && asks_for_memory(request, b) ==> a == b,
{
    if asks_for_cpus(request, a) && asks_for_cpus(request, b) {
        between("{\"online\":"@, text::dec(a as nat), text::dec(b as nat), ",\"op\":\"cpu_target\"}"@);
        text::dec_injective(a as nat, b as nat);
    }
    if asks_for_memory(request, a) && asks_for_memory(request, b) {
        between(
            "{\"op\":\"memory_target\",\"total_mib\":"@,
            text::dec(a as nat),
            text::dec(b as nat),
            "}"@,
        );
        text::dec_injective(a as nat, b as nat);
    }
}

/// What stands between the same texts is the same.
proof fn between(front: Seq<char>, x: Seq<char>, y: Seq<char>, back: Seq<char>)
    requires
        front + x + back == front + y + back,
    ensures
        x == y,
{
    let (l, r) = (front + x + back, front + y + back);
    assert(l.len() == r.len());
    assert(l.subrange(front.len() as int, (front.len() + x.len()) as int) =~= x);
    assert(r.subrange(front.len() as int, (front.len() + y.len()) as int) =~= y);
}

/// Whenever a resize asks for vCPUs, it asks for those of the specification, which differ
/// from those applied and may be raised; whenever it asks for memory, likewise, and the
/// vCPUs are not pending any more. It asks at the recorded Service, in the namespace of
/// the sandbox, at the configured port.
pub proof fn a_resize_asks_for_the_specified_size(
    sandbox: Sandbox,
    cfg: ControllerConfig,
    now: Time,
    replies: ResizeReplies,
    step: StepView,
)
    requires
        steps(sandbox, cfg, now, replies, step),
    ensures
        step is AskCpus ==> {
            &&& asks_for_cpus(step->AskCpus_request, sandbox.spec.cpus)
            &&& sandbox.status->0.applied_cpus != Some(sandbox.spec.cpus)
            &&& sandbox.spec.max_cpus is Some
            &&& replies.cpus is None
        },
        step is AskMemory ==> {
            &&& asks_for_memory(step->AskMemory_request, sandbox.spec.memory)
            &&& sandbox.status->0.applied_memory != Some(sandbox.spec.memory)
            &&& sandbox.spec.max_memory is Some
            &&& replies.memory is None
            &&& sandbox.status->0.applied_cpus != Some(sandbox.spec.cpus) ==> replies.cpus
                == Some(Ok::<(), ResizeError>(()))
        },
        !(step is Done) ==> {
            let url = if step is AskCpus {
                step->AskCpus_url
            } else {
                step->AskMemory_url
            };
            &&& sandbox.status is Some
            &&& sandbox.status->0.service_name is Some
            &&& sandbox.metadata.namespace is Some
            &&& url == "http://"@ + sandbox.status->0.service_name->0@ + "."@
                + sandbox.metadata.namespace->0@ + ".svc:"@ + text::dec_int(
                cfg.bridge_control_port as int,
            ) + "/control"@
        },
{
    if sandbox.status is Some {
        let s = sandbox.status->0;
        assert(s@.service_name == collections::opt(s.service_name));
    }
    if step is AskMemory && observe::cpus_changed(sandbox) {
        assert(replies.cpus is Some && replies.cpus->0 is Ok);
        assert(replies.cpus->0->Ok_0 == ());
    }
}

/// What is recorded as applied once a request has succeeded is what that request asked
/// for: memory, after a request for memory.
pub proof fn memory_is_recorded_as_it_was_asked_for(
    sandbox: Sandbox,
    cfg: ControllerConfig,
    now: Time,
    later: Time,
    replies: ResizeReplies,
    answered: ResizeReplies,
    step: StepView,
    next: StepView,
)
    requires
        steps(sandbox, cfg, now, replies, step),
        step is AskMemory,
        answered.cpus == replies.cpus,
        answered.memory == Some(Ok::<(), ResizeError>(())),
        steps(sandbox, cfg, later, answered, next),
    ensures
        next is Done,
        next->Done_0.effects.len() == 1,
        next->Done_0.effects[0] is PatchResize,
        next->Done_0.effects[0]->applied_memory is Some,
        asks_for_memory(step->AskMemory_request, next->Done_0.effects[0]->applied_memory->0),
{
}

/// What is recorded as applied once a request has succeeded is what that request asked
/// for: vCPUs, after a request for vCPUs. If memory is wanted too, it is asked for next.
pub proof fn cpus_are_recorded_as_they_were_asked_for(
    sandbox: Sandbox,
    cfg: ControllerConfig,
    now: Time,
    later: Time,
    replies: ResizeReplies,
    answered: ResizeReplies,
    step: StepView,
    next: StepView,
)
    requires
        steps(sandbox, cfg, now, replies, step),
        step is AskCpus,
        answered.memory == replies.memory,
        answered.cpus == Some(Ok::<(), ResizeError>(())),
        steps(sandbox, cfg, later, answered, next),
    ensures
        !(next is AskCpus),
        next is AskMemory <==> observe::memory_changed(sandbox) && replies.memory is None,
        next is Done ==> {
            &&& next->Done_0.effects.len() == 1
            &&& next->Done_0.effects[0] is PatchResize
            &&& next->Done_0.effects[0]->applied_cpus is Some
            &&& asks_for_cpus(step->AskCpus_request, next->Done_0.effects[0]->applied_cpus->0)
        },
{
}

/// What setting the `RestartRequired` condition says.
proof fn restart_required_says(
    sandbox: Sandbox,
    status: bool,
    reason: Seq<char>,
    message: Seq<char>,
    now: Time,
)
    ensures
        says_restart(
            sandbox,
            reconcile::with_restart_required(sandbox, status, reason, message, now),
            status,
            reason,
            now,
        ),
{
    record_laws::upserted_says(
        reconcile::prior(sandbox).conditions,
        conditions::condition_view(
            conditions::RESTART_REQUIRED@,
            status,
            reason,
            message,
            sandbox.metadata.generation,
            now@,
        ),
    );
}

/// Whether these conditions say whether a restart is required, and why, and are otherwise
/// what they were.
pub open spec fn says_restart(
    sandbox: Sandbox,
    cs: Seq<ConditionView>,
    required: bool,
    reason: Seq<char>,
    now: Time,
) -> bool {
    &&& record_laws::says(
        reconcile::prior(sandbox).conditions,
        cs,
        "RestartRequired"@,
        if required {
            "True"@
        } else {
            "False"@
        },
        reason,
        sandbox.metadata.generation,
        now@,
    )
    &&& record_laws::keeps_others(reconcile::prior(sandbox).conditions, cs, "RestartRequired"@)
}

/// A size that the sandbox has no room for is not asked for: that a restart is required
/// is recorded, and nothing as applied.
pub proof fn without_room_a_restart_is_required(
    sandbox: Sandbox,
    cfg: ControllerConfig,
    now: Time,
    replies: ResizeReplies,
)
    requires
        sandbox.status is Some,
        (sandbox.status->0.applied_cpus != Some(sandbox.spec.cpus) && sandbox.spec.max_cpus is None)
            || (sandbox.status->0.applied_memory != Some(sandbox.spec.memory)
            && sandbox.spec.max_memory is None),
    ensures
        ({
            let r = reconcile::resize_outcome(sandbox, cfg, now, replies);
            &&& r is Ok
            &&& r->Ok_0 is Done
            &&& r->Ok_0->Done_0.effects.len() == 1
            &&& r->Ok_0->Done_0.effects[0] is PatchConditions
            &&& says_restart(
                sandbox,
                r->Ok_0->Done_0.effects[0]->PatchConditions_0,
                true,
                "NoHotplugHeadroom"@,
                now,
            )
        }),
{
    restart_required_says(
        sandbox,
        true,
        "NoHotplugHeadroom"@,
        reconcile::NO_HEADROOM_TEXT@,
        now,
    );
}

/// A request that failed leaves what is applied as it was recorded, and a restart is
/// required for it. vCPUs that were raised before memory failed are recorded all the
/// same; memory is not asked for once vCPUs have failed.
pub proof fn a_failed_request_applies_nothing(
    sandbox: Sandbox,
    cfg: ControllerConfig,
    now: Time,
    replies: ResizeReplies,
    step: StepView,
)
    requires
        steps(sandbox, cfg, now, replies, step),
        sandbox.status is Some,
        step is Done,
        step->Done_0.effects.len() == 1,
        step->Done_0.effects[0] is PatchResize,
    ensures
        ({
            let e = step->Done_0.effects[0];
            let s = sandbox.status->0;
            let cpus = s.applied_cpus != Some(sandbox.spec.cpus);
            let memory = s.applied_memory != Some(sandbox.spec.memory);
            let cpus_failed = cpus && replies.cpus is Some && replies.cpus->0 is Err;
            let memory_failed = memory && !cpus_failed && replies.memory is Some
                && replies.memory->0 is Err;
            &&& cpus || memory
            &&& cpus_failed ==> e->applied_cpus == s.applied_cpus && e->applied_memory
                == s.applied_memory
            &&& memory_failed ==> e->applied_memory == s.applied_memory && e->applied_cpus == Some(
                sandbox.spec.cpus,
            )
            &&& !cpus_failed && !memory_failed ==> e->applied_cpus == Some(sandbox.spec.cpus)
                && e->applied_memory == Some(sandbox.spec.memory)
            &&& cpus_failed || memory_failed ==> says_restart(
                sandbox,
                e->PatchResize_conditions,
                true,
                "ControlSocketUnreachable"@,
                now,
            )
            &&& !cpus_failed && !memory_failed ==> says_restart(
                sandbox,
                e->PatchResize_conditions,
                false,
                "Resized"@,
                now,
            )
        }),
{
    let s = sandbox.status->0;
    assert(s@.applied_cpus == s.applied_cpus);
    assert(s@.applied_memory == s.applied_memory);
    let cpus_failed = observe::cpus_changed(sandbox) && replies.cpus_failed();
    if cpus_failed {
        restart_required_says(
            sandbox,
            true,
            "ControlSocketUnreachable"@,
            reconcile::unreachable_text(
                resize::resize_error_text(replies.cpus->0->Err_0),
            ),
            now,
        );
    } else if observe::memory_changed(sandbox) && replies.memory_failed() {
        restart_required_says(
            sandbox,
            true,
            "ControlSocketUnreachable"@,
            reconcile::unreachable_text(
                resize::resize_error_text(replies.memory->0->Err_0),
            ),
            now,
        );
    } else {
        restart_required_says(sandbox, false, "Resized"@, "resize applied live"@, now);
    }
}

/// Where nothing is pending, nothing is asked for. A demand for a restart that is still
/// recorded is withdrawn, and nothing else is recorded.
pub proof fn nothing_pending_withdraws_the_demand(
    sandbox: Sandbox,
    cfg: ControllerConfig,
    now: Time,
    replies: ResizeReplies,
    i: int,
)
    requires
        sandbox.status is Some,
        sandbox.status->0.applied_cpus == Some(sandbox.spec.cpus),
        sandbox.status->0.applied_memory == Some(sandbox.spec.memory),
    ensures
        ({
            let r = reconcile::resize_outcome(sandbox, cfg, now, replies);
            let p = r->Ok_0->Done_0;
            let cs = sandbox.status->0.conditions@;
            &&& r is Ok
            &&& r->Ok_0 is Done
            &&& 0 <= i < cs.len() && cs[i].type_@ == "RestartRequired"@ && cs[i].status@ == "True"@
                ==> {
                &&& p.effects.len() == 1
                &&& p.effects[0] is PatchConditions
                &&& says_restart(sandbox, p.effects[0]->PatchConditions_0, false, "Resized"@, now)
            }
            &&& p.effects.len() > 0 ==> reconcile::restart_flagged(sandbox)
        }),
{
    restart_required_says(sandbox, false, "Resized"@, "resize applied"@, now);
    let s = sandbox.status->0;
    let cs = reconcile::prior(sandbox).conditions;
    assert(cs == collections::views(s.conditions@));
    if 0 <= i < s.conditions@.len() {
        assert(cs[i] == s.conditions@[i]@);
        assert(cs[i].type_ == s.conditions@[i].type_@);
        assert(cs[i].status == s.conditions@[i].status@);
        if s.conditions@[i].type_@ == "RestartRequired"@ && s.conditions@[i].status@ == "True"@ {
            assert(reconcile::demands_restart(cs[i]));
        }
    }
}

/// The reply of the control endpoint counts as a success exactly where it says so.
pub proof fn a_reply_is_believed_only_where_it_says_ok(members: Seq<(Seq<char>, JsonScalarView)>)
    ensures
        resize::reply_outcome(members) is Ok <==> json::member(members, "ok"@)
            == Some(JsonScalarView::Bool(true)),
        resize::reply_outcome(members) is Err ==> (json::member(
            members,
            "error"@,
        ) matches Some(JsonScalarView::Text(e)) ==> resize::reply_outcome(
            members,
        )->Err_0 == e),
{
}

/// A demand for a restart tells which request failed, and how.
pub proof fn a_failed_request_is_told(
    sandbox: Sandbox,
    cfg: ControllerConfig,
    now: Time,
    replies: ResizeReplies,
    step: StepView,
)
    requires
        steps(sandbox, cfg, now, replies, step),
        step is Done,
        step->Done_0.effects.len() == 1,
        step->Done_0.effects[0] is PatchResize,
        replies.cpus_failed() && observe::cpus_changed(sandbox) || replies.memory_failed()
            && observe::memory_changed(sandbox),
    ensures
        ({
            let error = if replies.cpus_failed() && observe::cpus_changed(sandbox) {
                replies.cpus->0->Err_0
            } else {
                replies.memory->0->Err_0
            };
            let cs = step->Done_0.effects[0]->PatchResize_conditions;
            exists|i: int|
                {
                    &&& 0 <= i < cs.len()
                    &&& (#[trigger] cs[i]).type_ == "RestartRequired"@
                    &&& cs[i].message == "live resize failed ("@ + resize::resize_error_text(error)
                        + "); restart the sandbox (desiredState Stopped then Running) to apply spec.cpus/spec.memory"@
                }
        }),
{
    let error = if replies.cpus_failed() && observe::cpus_changed(sandbox) {
        replies.cpus->0->Err_0
    } else {
        replies.memory->0->Err_0
    };
    let c = conditions::condition_view(
        conditions::RESTART_REQUIRED@,
        true,
        "ControlSocketUnreachable"@,
        reconcile::unreachable_text(resize::resize_error_text(error)),
        sandbox.metadata.generation,
        now@,
    );
    let before = reconcile::prior(sandbox).conditions;
    conditions::upsert_records(before, c);
    let cs = step->Done_0.effects[0]->PatchResize_conditions;
    assert(cs == conditions::upserted(before, c));
    let i = conditions::find(cs, c.type_);
    conditions::find_is_first(cs, c.type_);
    assert(cs[i].type_ == "RestartRequired"@);
}

/// While a resize goes on, and after it, a running sandbox is woken for its deadline as
/// ever; only where its Service is not known yet is it looked at again in half a second.
pub proof fn a_resize_keeps_the_deadline(
    sandbox: Sandbox,
    cfg: ControllerConfig,
    now: Time,
    replies: ResizeReplies,
    step: StepView,
)
    requires
        steps(sandbox, cfg, now, replies, step),
        step is Done,
    ensures
        step->Done_0.action == reconcile::running_action_of(sandbox, now) || (
        reconcile::prior(sandbox).service_name is None && step->Done_0.effects.len() == 0
            && step->Done_0.action == (Action::Requeue { secs: 0, millis: 500 })),
{
}

/// A size that the sandbox has room for is asked for, vCPUs first, once its Service is
/// known: it takes no room for a dimension that stays as it is.
pub proof fn with_room_a_resize_is_asked_for(
    sandbox: Sandbox,
    cfg: ControllerConfig,
    now: Time,
    replies: ResizeReplies,
)
    requires
        sandbox.status is Some,
        sandbox.status->0.service_name is Some,
        sandbox.metadata.namespace is Some,
        replies.cpus is None,
        replies.memory is None,
        sandbox.status->0.applied_cpus != Some(sandbox.spec.cpus)
            || sandbox.status->0.applied_memory != Some(sandbox.spec.memory),
        sandbox.status->0.applied_cpus != Some(sandbox.spec.cpus) ==> sandbox.spec.max_cpus is Some,
        sandbox.status->0.applied_memory != Some(sandbox.spec.memory)
            ==> sandbox.spec.max_memory is Some,
    ensures
        ({
            let r = reconcile::resize_outcome(sandbox, cfg, now, replies);
            &&& r is Ok
            &&& sandbox.status->0.applied_cpus != Some(sandbox.spec.cpus) ==> r->Ok_0 is AskCpus
            &&& sandbox.status->0.applied_cpus == Some(sandbox.spec.cpus) ==> r->Ok_0 is AskMemory
        }),
{
    let s = sandbox.status->0;
    assert(s@.service_name == collections::opt(s.service_name));
}

/// A sandbox that is recorded to run, and whose pod is up, is held to its specification:
/// its reconcile is its resize.
pub proof fn a_running_sandbox_is_held_to_its_size(
    sandbox: Sandbox,
    pod: Pod,
    cfg: ControllerConfig,
    now: Time,
    spec_json: Result<Seq<char>, Seq<char>>,
    replies: ResizeReplies,
)
    requires
        record_laws::looked_after(sandbox, now),
        record_laws::is_up(pod),
        sandbox.phase() == Some(SandboxPhase::Running),
        replies.cpus is None,
        replies.memory is None,
    ensures
        reconcile::reconcile_outcome(sandbox, Some(pod), cfg, now, spec_json)
            == reconcile::resize_outcome(sandbox, cfg, now, replies),
{
    assert(replies == (ResizeReplies { cpus: None, memory: None }));
}

} // verus!
