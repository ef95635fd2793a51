//! What holds of the lifecycle as a whole.

use vstd::prelude::*;

use crate::controller::conditions;
use crate::controller::config::ControllerConfig;
use crate::controller::observe;
use crate::controller::plan;
use crate::controller::plan::{Action, EffectView, ErrorView, PlanView};
use crate::controller::pod;
use crate::controller::reconcile;
use crate::controller::reconcile::{ResizeReplies, StepView};
use crate::controller::service;
use crate::k8s::Pod;
use crate::sandbox::{
    DesiredState, RunPolicy, Sandbox, SandboxPhase, ShutdownPolicy, TerminationReason,
};
use crate::time::Time;

verus! {

/// Whether a plan creates a pod.
pub open spec fn creates_pod(p: PlanView) -> bool {
    exists|i: int| 0 <= i < p.effects.len() && (#[trigger] p.effects[i]) is ApplyPod
}

/// Whether a plan deletes a pod.
pub open spec fn deletes_pod(p: PlanView) -> bool {
    exists|i: int| 0 <= i < p.effects.len() && (#[trigger] p.effects[i]) is DeletePod
}

/// Whether every effect of a plan only records something in the status.
pub open spec fn only_records(p: PlanView) -> bool {
    forall|i: int|
        0 <= i < p.effects.len() ==> (#[trigger] p.effects[i]) is PatchConditions || p.effects[i]
            is PatchResize
}

/// Under `Once` no end is retried: the sandbox settles, with the restarts it had.
pub proof fn once_never_retries(sandbox: Sandbox, pod: Pod, now: Time)
    requires
        sandbox.spec.run_policy == RunPolicy::Once,
    ensures
        ({
            let s = reconcile::terminated_status(sandbox, pod, now);
            &&& s.phase == Some(SandboxPhase::Succeeded) || s.phase == Some(SandboxPhase::Failed)
            &&& s.restart_count == reconcile::prior(sandbox).restart_count
        }),
        reconcile::terminate_plan(sandbox, pod, now).action == Action::AwaitChange,
        reconcile::vanished_status(sandbox, now).phase == Some(SandboxPhase::Failed),
        reconcile::vanished_status(sandbox, now).restart_count == reconcile::prior(
            sandbox,
        ).restart_count,
        reconcile::vanished_plan(sandbox, now).action == Action::AwaitChange,
{
}

/// A clean exit is never retried, whatever the policy.
pub proof fn clean_exit_stops(sandbox: Sandbox, pod: Pod, now: Time)
    requires
        reconcile::succeeded(pod),
    ensures
        reconcile::terminated_status(sandbox, pod, now).phase == Some(SandboxPhase::Succeeded),
        reconcile::terminate_plan(sandbox, pod, now).action == Action::AwaitChange,
{
}

/// Under `RerunOnFailure` an unclean end leaves the sandbox pending, with exactly
/// one restart more, and is looked at again after the backoff.
pub proof fn unclean_end_is_retried(sandbox: Sandbox, pod: Pod, now: Time)
    requires
        sandbox.spec.run_policy == RunPolicy::RerunOnFailure,
        !reconcile::succeeded(pod),
        reconcile::prior(sandbox).restart_count < u32::MAX,
    ensures
        ({
            let n = reconcile::prior(sandbox).restart_count;
            let s = reconcile::terminated_status(sandbox, pod, now);
            let v = reconcile::vanished_status(sandbox, now);
            let again = Action::Requeue { secs: observe::backoff(n as nat) as u64, millis: 0 };
            &&& s.phase == Some(SandboxPhase::Pending)
            &&& s.restart_count == n + 1
            &&& s.pod_name is None
            &&& reconcile::terminate_plan(sandbox, pod, now).action == again
            &&& v.phase == Some(SandboxPhase::Pending)
            &&& v.restart_count == n + 1
            &&& reconcile::vanished_plan(sandbox, now).action == again
        }),
{
}

/// A terminal sandbox without a pod is left alone: no pod comes back.
pub proof fn terminal_sandbox_rests(
    sandbox: Sandbox,
    cfg: ControllerConfig,
    now: Time,
    spec_json: Result<Seq<char>, Seq<char>>,
)
    requires
        observe::terminal(sandbox),
        sandbox.spec.desired_state == DesiredState::Running,
        sandbox.metadata.namespace is Some,
        !observe::expired(sandbox, now),
    ensures
        reconcile::reconcile_outcome(sandbox, None, cfg, now, spec_json) == Ok::<_, ErrorView>(
            StepView::Done(plan::idle_view(Action::AwaitChange)),
        ),
{
}

/// A pod is created only for a sandbox that has none, that is to run, that has
/// neither expired nor ended nor lost a running pod, and whose ports collide with
/// no port of the bridge.
pub proof fn pod_is_created_only_when_due(
    sandbox: Sandbox,
    existing: Option<Pod>,
    cfg: ControllerConfig,
    now: Time,
    spec_json: Result<Seq<char>, Seq<char>>,
)
    requires
        ({
            let r = reconcile::reconcile_outcome(sandbox, existing, cfg, now, spec_json);
            r is Ok && r->Ok_0 is Done && creates_pod(r->Ok_0->Done_0)
        }),
    ensures
        existing is None,
        !observe::expired(sandbox, now),
        sandbox.spec.desired_state == DesiredState::Running,
        !observe::terminal(sandbox),
        sandbox.phase() != Some(SandboxPhase::Running),
        service::first_conflict(cfg, sandbox.spec.network.published_ports@) is None,
{
    let p = reconcile::reconcile_outcome(sandbox, existing, cfg, now, spec_json)->Ok_0->Done_0;
    let i = choose|i: int| 0 <= i < p.effects.len() && (#[trigger] p.effects[i]) is ApplyPod;
    assert(p.effects[i] is ApplyPod);
}

/// Whenever a pod is due and can be built, it is created, with its Service.
pub proof fn due_pod_is_created(
    sandbox: Sandbox,
    cfg: ControllerConfig,
    now: Time,
    spec_json: Result<Seq<char>, Seq<char>>,
)
    requires
        sandbox.metadata.namespace is Some,
        !observe::expired(sandbox, now),
        sandbox.spec.desired_state == DesiredState::Running,
        !observe::terminal(sandbox),
        sandbox.phase() != Some(SandboxPhase::Running),
        service::first_conflict(cfg, sandbox.spec.network.published_ports@) is None,
        pod::built(sandbox, cfg, spec_json) is Ok,
    ensures
        ({
            let r = reconcile::reconcile_outcome(sandbox, None, cfg, now, spec_json);
            &&& r is Ok
            &&& r->Ok_0 is Done
            &&& r->Ok_0->Done_0.effects.len() == 2
            &&& r->Ok_0->Done_0.effects[0] == EffectView::ApplyPod(
                pod::built(sandbox, cfg, spec_json)->Ok_0,
            )
            &&& r->Ok_0->Done_0.effects[1] is ApplyService
        }),
{
}

/// A deadline that has passed comes before everything else: the pod and the Service
/// are deleted whatever the policy, and the object too where the policy says so.
/// Where it does not, the expiry is recorded, unless it is already.
pub proof fn expiry_comes_first(
    sandbox: Sandbox,
    existing: Option<Pod>,
    cfg: ControllerConfig,
    now: Time,
    spec_json: Result<Seq<char>, Seq<char>>,
)
    requires
        sandbox.metadata.namespace is Some,
        observe::expired(sandbox, now),
    ensures
        ({
            let r = reconcile::reconcile_outcome(sandbox, existing, cfg, now, spec_json);
            let p = r->Ok_0->Done_0;
            &&& r is Ok
            &&& r->Ok_0 is Done
            &&& p.effects[0] == EffectView::DeletePod(
                pod::pod_name_of(sandbox.metadata.any_name()),
            )
            &&& p.effects[1] == EffectView::DeleteService(
                service::service_name_of(sandbox.metadata.any_name()),
            )
            &&& p.action == Action::AwaitChange
            &&& (exists|i: int|
                0 <= i < p.effects.len() && (#[trigger] p.effects[i]) is DeleteSandbox)
                <==> sandbox.spec.lifecycle.shutdown_policy == ShutdownPolicy::Delete
            &&& sandbox.spec.lifecycle.shutdown_policy == ShutdownPolicy::Retain
                && reconcile::prior(sandbox).termination_reason != Some(
                TerminationReason::Expired,
            ) ==> p.effects[2] == EffectView::PatchStatus(reconcile::expired_status(sandbox, now))
        }),
{
    let p = reconcile::expire_plan(sandbox, now);
    if sandbox.spec.lifecycle.shutdown_policy == ShutdownPolicy::Delete {
        assert(p.effects[2] is DeleteSandbox);
    }
}

/// A sandbox without a deadline never expires.
pub proof fn no_deadline_never_expires(sandbox: Sandbox, now: Time)
    requires
        sandbox.spec.lifecycle.shutdown_time is None,
    ensures
        !observe::expired(sandbox, now),
{
}

/// The record of a sandbox that settled keeps what the Running phase recorded.
pub proof fn settled_status_keeps_the_running_record(sandbox: Sandbox, pod: Pod, now: Time)
    requires
        !reconcile::retries(sandbox.spec.run_policy, reconcile::succeeded(pod)),
    ensures
        ({
            let before = reconcile::prior(sandbox);
            let after = reconcile::terminated_status(sandbox, pod, now);
            &&& after.service_name == before.service_name
            &&& after.node_name == before.node_name
            &&& after.started_at == before.started_at
            &&& after.exposed_ports == before.exposed_ports
        }),
{
}

/// A sandbox of which a settled end is recorded is terminal; one of which a retry
/// is recorded is neither terminal nor running, so that its next pod is due.
pub proof fn end_is_recorded(sandbox: Sandbox, pod: Pod, now: Time, later: Sandbox)
    requires
        later.status is Some,
        later.status->0@ == reconcile::terminated_status(sandbox, pod, now),
    ensures
        observe::terminal(later) <==> !reconcile::retries(
            sandbox.spec.run_policy,
            reconcile::succeeded(pod),
        ),
        later.phase() != Some(SandboxPhase::Running),
{
    assert(later.status->0@.phase == later.phase());
}

/// A stop is no failure: the restarts stay as they were, and once it is recorded
/// the sandbox is neither terminal nor taken for one whose pod vanished.
pub proof fn stop_is_no_failure(sandbox: Sandbox, now: Time, later: Sandbox)
    requires
        later.status is Some,
        later.status->0@ == reconcile::stopped_status(sandbox, now),
    ensures
        later.status->0.restart_count == reconcile::prior(sandbox).restart_count,
        !observe::terminal(later),
        later.phase() != Some(SandboxPhase::Running),
{
    assert(later.status->0@.phase == later.phase());
    assert(later.status->0@.restart_count == later.status->0.restart_count);
}

/// A stopped sandbox whose pod is gone is recorded once, then left alone.
pub proof fn stopped_sandbox_rests(
    sandbox: Sandbox,
    cfg: ControllerConfig,
    now: Time,
    spec_json: Result<Seq<char>, Seq<char>>,
)
    requires
        sandbox.spec.desired_state == DesiredState::Stopped,
        sandbox.phase() == Some(SandboxPhase::Stopped),
        sandbox.metadata.namespace is Some,
        !observe::expired(sandbox, now),
    ensures
        reconcile::reconcile_outcome(sandbox, None, cfg, now, spec_json) == Ok::<_, ErrorView>(
            StepView::Done(plan::idle_view(Action::AwaitChange)),
        ),
{
}

/// A pod on its way out is not acted on: nothing is counted or deleted twice.
pub proof fn leaving_pod_is_not_acted_on(
    sandbox: Sandbox,
    pod: Pod,
    cfg: ControllerConfig,
    now: Time,
    spec_json: Result<Seq<char>, Seq<char>>,
)
    requires
        pod.metadata.deletion_timestamp is Some,
        sandbox.metadata.namespace is Some,
        !observe::expired(sandbox, now),
    ensures
        ({
            let r = reconcile::reconcile_outcome(sandbox, Some(pod), cfg, now, spec_json);
            let p = r->Ok_0->Done_0;
            &&& r is Ok
            &&& r->Ok_0 is Done
            &&& !deletes_pod(p)
            &&& sandbox.spec.desired_state == DesiredState::Running ==> p == plan::idle_view(
                plan::soon(),
            )
        }),
{
    let p = reconcile::present_outcome(sandbox, pod, cfg, now)->Ok_0->Done_0;
    if sandbox.spec.desired_state == DesiredState::Stopped {
        let rest = reconcile::stopped_plan(sandbox, now);
        assert(p.effects =~= rest.effects);
    }
}

/// The exit of the runtime ends the sandbox, even where the bridge keeps the pod
/// in phase Running.
pub proof fn runtime_exit_ends_the_sandbox(
    sandbox: Sandbox,
    pod: Pod,
    cfg: ControllerConfig,
    now: Time,
    spec_json: Result<Seq<char>, Seq<char>>,
)
    requires
        observe::runtime_end(pod) is Some,
        pod.metadata.deletion_timestamp is None,
        sandbox.spec.desired_state == DesiredState::Running,
        sandbox.metadata.namespace is Some,
        !observe::expired(sandbox, now),
    ensures
        reconcile::reconcile_outcome(sandbox, Some(pod), cfg, now, spec_json) == Ok::<
            _,
            ErrorView,
        >(StepView::Done(reconcile::terminate_plan(sandbox, pod, now))),
{
}

/// Running is recorded only once the bridge can be dialed.
pub proof fn running_waits_for_the_bridge(
    sandbox: Sandbox,
    pod: Pod,
    cfg: ControllerConfig,
    now: Time,
    spec_json: Result<Seq<char>, Seq<char>>,
)
    requires
        observe::phase_of(pod) == Some("Running"@),
        !observe::bridge_is_ready(pod),
        observe::runtime_end(pod) is None,
        sandbox.spec.desired_state == DesiredState::Running,
        sandbox.metadata.namespace is Some,
        !observe::expired(sandbox, now),
    ensures
        reconcile::reconcile_outcome(sandbox, Some(pod), cfg, now, spec_json) == Ok::<
            _,
            ErrorView,
        >(StepView::Done(plan::idle_view(plan::soon()))),
{
}

/// A resize never restarts a sandbox: all it does to the cluster is to record.
pub proof fn resize_only_records(
    sandbox: Sandbox,
    cfg: ControllerConfig,
    now: Time,
    replies: ResizeReplies,
)
    ensures
        ({
            let r = reconcile::resize_outcome(sandbox, cfg, now, replies);
            r is Ok && r->Ok_0 is Done ==> only_records(r->Ok_0->Done_0)
        }),
{
}

/// A pending resize is never passed over in silence: it is asked for or recorded,
/// or, where the name of the Service is not known yet, looked at again soon. It
/// fails only for a sandbox without a namespace.
pub proof fn resize_is_never_silent(
    sandbox: Sandbox,
    cfg: ControllerConfig,
    now: Time,
    replies: ResizeReplies,
)
    requires
        observe::cpus_changed(sandbox) || observe::memory_changed(sandbox),
    ensures
        ({
            let r = reconcile::resize_outcome(sandbox, cfg, now, replies);
            &&& r is Err ==> sandbox.metadata.namespace is None
            &&& r is Ok && r->Ok_0 is Done ==> {
                ||| r->Ok_0->Done_0.effects.len() == 1
                ||| reconcile::prior(sandbox).service_name is None && r->Ok_0->Done_0
                    == plan::idle_view(plan::soon())
            }
        }),
{
}

/// Once both requests have succeeded, what is recorded as applied is what was
/// asked for.
pub proof fn resize_applies_the_spec(sandbox: Sandbox, now: Time, replies: ResizeReplies)
    requires
        sandbox.status is Some,
        !replies.cpus_failed(),
        !replies.memory_failed(),
    ensures
        ({
            let e = reconcile::resized_plan(sandbox, now, replies).effects[0];
            &&& e is PatchResize
            &&& e->applied_cpus == Some(sandbox.spec.cpus)
            &&& e->applied_memory == Some(sandbox.spec.memory)
        }),
{
}

/// A sandbox that comes up has nothing to resize.
pub proof fn boot_applies_the_spec(sandbox: Sandbox, pod: Pod, now: Time, later: Sandbox)
    requires
        later.status is Some,
        later.status->0@ == reconcile::running_status(sandbox, pod, now),
        later.spec.cpus == sandbox.spec.cpus,
        later.spec.memory == sandbox.spec.memory,
    ensures
        !observe::cpus_changed(later),
        !observe::memory_changed(later),
        later.phase() == Some(SandboxPhase::Running),
        later.status->0.restart_count == reconcile::prior(sandbox).restart_count,
{
    let v = later.status->0@;
    assert(v.applied_cpus == later.status->0.applied_cpus);
    assert(v.applied_memory == later.status->0.applied_memory);
    assert(v.phase == later.phase());
    assert(v.restart_count == later.status->0.restart_count);
}

/// A running sandbox with a deadline is looked at again after a second or more;
/// without one, only when something changes.
pub proof fn running_sandbox_is_woken_for_its_deadline(sandbox: Sandbox, now: Time)
    ensures
        match sandbox.spec.lifecycle.shutdown_time {
            None => reconcile::running_action_of(sandbox, now) == Action::AwaitChange,
            Some(d) => {
                let w = observe::wait_secs(d, now);
                &&& w >= 1
                &&& now@ < d@ ==> now@ + w * 1_000_000_000 <= d@ + 1_000_000_000
            },
        },
{
}

/// Every status that a reconcile records keeps the types of the conditions
/// distinct.
pub proof fn conditions_stay_distinct(
    sandbox: Sandbox,
    status: bool,
    reason: Seq<char>,
    message: Seq<char>,
    now: Time,
)
    requires
        conditions::distinct_types(reconcile::prior(sandbox).conditions),
    ensures
        conditions::distinct_types(reconcile::with_ready(sandbox, status, reason, message, now)),
        conditions::distinct_types(
            reconcile::with_restart_required(sandbox, status, reason, message, now),
        ),
{
    let cs = reconcile::prior(sandbox).conditions;
    conditions::upsert_keeps_types_distinct(
        cs,
        conditions::condition_view(
            conditions::READY@,
            status,
            reason,
            message,
            sandbox.metadata.generation,
            now@,
        ),
    );
    conditions::upsert_keeps_types_distinct(
        cs,
        conditions::condition_view(
            conditions::RESTART_REQUIRED@,
            status,
            reason,
            message,
            sandbox.metadata.generation,
            now@,
        ),
    );
}

/// A reason that the pod's status tells is clean exactly where the sandbox ended
/// well, given that the runtime has exited and was neither evicted nor killed for
/// its memory.
pub proof fn reason_agrees_with_the_exit(pod: Pod)
    requires
        observe::runtime_end(pod) is Some,
        observe::reason_of(pod) != Some(TerminationReason::Evicted),
        observe::reason_of(pod) != Some(TerminationReason::OomKilled),
    ensures
        observe::reason_of(pod) is Some,
        observe::reason_of(pod)->0.clean() <==> reconcile::succeeded(pod),
{
}

} // verus!
