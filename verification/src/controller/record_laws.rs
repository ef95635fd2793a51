//! What holds of what a reconcile records of a sandbox.

use vstd::prelude::*;

use crate::collections;
use crate::controller::conditions;
use crate::controller::config::ControllerConfig;
use crate::controller::object_laws;
use crate::controller::observe;
use crate::controller::plan::{Action, EffectView, EventType, PlanView};
use crate::controller::reconcile;
use crate::controller::reconcile::StepView;
use crate::controller::service;
use crate::gateway::error::GatewayErrorView;
use crate::gateway::resolve;
use crate::k8s::{
    ConditionView, ContainerStateTerminated, ContainerStatus, Pod, PodView, ServiceView,
};
use crate::sandbox::{
    DesiredState, PortProtocol, RunPolicy, Sandbox, SandboxPhase, ShutdownPolicy, StatusView,
    TerminationReason,
};
use crate::text;
use crate::time;
use crate::time::Time;

verus! {

/// Whether a reconcile comes to this plan.
pub open spec fn plans(
    sandbox: Sandbox,
    existing: Option<Pod>,
    cfg: ControllerConfig,
    now: Time,
    json: Result<Seq<char>, Seq<char>>,
    p: PlanView,
) -> bool {
    let r = reconcile::reconcile_outcome(sandbox, existing, cfg, now, json);
    r is Ok && r->Ok_0 == StepView::Done(p)
}

/// Whether a plan records this status.
pub open spec fn records(p: PlanView, s: StatusView) -> bool {
    exists|i: int| 0 <= i < p.effects.len() && #[trigger] p.effects[i] == EffectView::PatchStatus(s)
}

/// Whether, of the conditions of this kind, the first says this. Its transition time is
/// `now`, or that of a condition of the same kind and status that was there before.
pub open spec fn says(
    before: Seq<ConditionView>,
    after: Seq<ConditionView>,
    kind: Seq<char>,
    status: Seq<char>,
    reason: Seq<char>,
    generation: Option<i64>,
    now: int,
) -> bool {
    exists|i: int|
        {
            &&& 0 <= i < after.len()
            &&& (#[trigger] after[i]).type_ == kind
            &&& after[i].status == status
            &&& after[i].reason == reason
            &&& after[i].observed_generation == generation
            &&& (i < before.len() && before[i].type_ == kind && before[i].status == status
                ==> after[i].last_transition_time == before[i].last_transition_time)
            &&& (!(i < before.len() && before[i].type_ == kind && before[i].status == status)
                ==> after[i].last_transition_time == now)
            &&& forall|j: int| 0 <= j < i ==> (#[trigger] after[j]).type_ != kind
        }
}

/// What `Ready` is to say of a sandbox: whether it runs.
pub open spec fn readiness(s: StatusView) -> Seq<char> {
    if s.phase == Some(SandboxPhase::Running) {
        "True"@
    } else {
        "False"@
    }
}

/// Whether the conditions of all other kinds are as they were.
pub open spec fn keeps_others(
    before: Seq<ConditionView>,
    after: Seq<ConditionView>,
    kind: Seq<char>,
) -> bool {
    forall|i: int|
        0 <= i < before.len() && (#[trigger] before[i]).type_ != kind ==> i < after.len() && after[i]
            == before[i]
}

/// What an upsert of a condition says.
pub proof fn upserted_says(before: Seq<ConditionView>, c: ConditionView)
    ensures
        says(
            before,
            conditions::upserted(before, c),
            c.type_,
            c.status,
            c.reason,
            c.observed_generation,
            c.last_transition_time,
        ),
        keeps_others(before, conditions::upserted(before, c), c.type_),
{
    let after = conditions::upserted(before, c);
    conditions::upsert_records(before, c);
    conditions::find_is_first(after, c.type_);
    conditions::find_is_first(before, c.type_);
    let i = conditions::find(after, c.type_);
    assert(after[i].type_ == c.type_);
    assert forall|k: int| 0 <= k < before.len() && (#[trigger] before[k]).type_ != c.type_ implies k
        < after.len() && after[k] == before[k] by {
        conditions::upsert_leaves_other_types(before, c, k);
    }
}

/// What setting the `Ready` condition says.
proof fn ready_says(sandbox: Sandbox, status: bool, reason: Seq<char>, message: Seq<char>, now: Time)
    ensures
        says(
            reconcile::prior(sandbox).conditions,
            reconcile::with_ready(sandbox, status, reason, message, now),
            "Ready"@,
            if status {
                "True"@
            } else {
                "False"@
            },
            reason,
            sandbox.metadata.generation,
            now@,
        ),
        keeps_others(
            reconcile::prior(sandbox).conditions,
            reconcile::with_ready(sandbox, status, reason, message, now),
            "Ready"@,
        ),
{
    upserted_says(
        reconcile::prior(sandbox).conditions,
        conditions::condition_view(
            conditions::READY@,
            status,
            reason,
            message,
            sandbox.metadata.generation,
            now@,
        ),
    );
}

/// A plan records one status at most, and it is the first of its effects but for the
/// deletion of objects.
proof fn recorded(p: PlanView, s: StatusView) -> (i: int)
    requires
        records(p, s),
    ensures
        0 <= i < p.effects.len(),
        p.effects[i] == EffectView::PatchStatus(s),
{
    choose|i: int| 0 <= i < p.effects.len() && #[trigger] p.effects[i] == EffectView::PatchStatus(s)
}

/// Whenever a status is recorded, `Ready` is true of it exactly where the sandbox runs,
/// as of the generation that was looked at, and says why; the conditions of other kinds
/// stay.
pub proof fn ready_says_whether_it_runs(
    sandbox: Sandbox,
    existing: Option<Pod>,
    cfg: ControllerConfig,
    now: Time,
    json: Result<Seq<char>, Seq<char>>,
    p: PlanView,
    s: StatusView,
)
    requires
        plans(sandbox, existing, cfg, now, json, p),
        records(p, s),
    ensures
        ({
            let before = reconcile::prior(sandbox).conditions;
            &&& keeps_others(before, s.conditions, "Ready"@)
            &&& exists|reason: Seq<char>|
                {
                    &&& #[trigger] says(
                        before,
                        s.conditions,
                        "Ready"@,
                        readiness(s),
                        reason,
                        sandbox.metadata.generation,
                        now@,
                    )
                    &&& s.phase == Some(SandboxPhase::Running) ==> reason == "PodRunning"@
                    &&& s.phase == Some(SandboxPhase::Stopped) ==> reason == "Stopped"@
                    &&& s.termination_reason is Some && s.termination_reason != Some(
                        TerminationReason::Failed,
                    ) ==> reason == s.termination_reason->0.label()
                }
        }),
{
    let i = recorded(p, s);
    let conflict = service::first_conflict(cfg, sandbox.spec.network.published_ports@);
    let (status, reason, message) = if observe::expired(sandbox, now) {
        (false, "Expired"@, "shutdownTime deadline passed"@)
    } else if sandbox.spec.desired_state == DesiredState::Stopped {
        (false, "Stopped"@, "sandbox is stopped by desiredState"@)
    } else if s.phase == Some(SandboxPhase::Running) {
        (true, "PodRunning"@, "sandbox pod is running"@)
    } else {
        match existing {
            Some(pod) => (
                false,
                reconcile::reason_text(observe::termination_reason_of(pod)),
                "sandbox exited"@,
            ),
            None => if sandbox.phase() == Some(SandboxPhase::Running) {
                (false, "NodeLost"@, "sandbox pod disappeared"@)
            } else {
                (false, "PortConflict"@, reconcile::conflict_text(conflict->0))
            },
        }
    };
    ready_says(sandbox, status, reason, message, now);
    assert(s.conditions == reconcile::with_ready(sandbox, status, reason, message, now));
    assert(says(
        reconcile::prior(sandbox).conditions,
        s.conditions,
        "Ready"@,
        readiness(s),
        reason,
        sandbox.metadata.generation,
        now@,
    ));
}

/// The pod that a sandbox is recorded to run in is up: it is in phase Running, its bridge
/// is ready, its runtime has not exited, and it is not on its way out; and the sandbox is
/// to run. Nothing else leads to the record.
pub proof fn running_is_recorded_of_a_pod_that_is_up(
    sandbox: Sandbox,
    existing: Option<Pod>,
    cfg: ControllerConfig,
    now: Time,
    json: Result<Seq<char>, Seq<char>>,
    p: PlanView,
    s: StatusView,
)
    requires
        plans(sandbox, existing, cfg, now, json, p),
        records(p, s),
        s.phase == Some(SandboxPhase::Running),
    ensures
        existing is Some,
        observe::phase_of(existing->0) == Some("Running"@),
        observe::bridge_is_ready(existing->0),
        observe::runtime_end(existing->0) is None,
        existing->0.metadata.deletion_timestamp is None,
        sandbox.spec.desired_state == DesiredState::Running,
        sandbox.phase() != Some(SandboxPhase::Running),
        !observe::expired(sandbox, now),
{
    let i = recorded(p, s);
}

/// The record of a sandbox that runs tells where: in the pod that was looked at, on the
/// node of that pod, since now; with the vCPUs and the memory of the specification, and
/// with the restarts counted so far. An end that was recorded before is no longer told.
pub proof fn the_running_record_tells_where_it_runs(
    sandbox: Sandbox,
    existing: Option<Pod>,
    cfg: ControllerConfig,
    now: Time,
    json: Result<Seq<char>, Seq<char>>,
    p: PlanView,
    s: StatusView,
)
    requires
        plans(sandbox, existing, cfg, now, json, p),
        records(p, s),
        s.phase == Some(SandboxPhase::Running),
    ensures
        s.pod_name == Some(existing->0.metadata.any_name()),
        s.node_name == (match existing->0.spec {
            Some(spec) => collections::opt(spec.node_name),
            None => None,
        }),
        s.started_at == Some(now@),
        s.applied_cpus == Some(sandbox.spec.cpus),
        s.applied_memory == Some(sandbox.spec.memory),
        s.restart_count == reconcile::prior(sandbox).restart_count,
        s.terminated_at is None,
        s.termination_reason is None,
        s.exit_code is None,
        p.effects.len() == 2,
        p.effects[1] is Publish,
        p.effects[1]->Publish_0.type_ == EventType::Normal,
        p.effects[1]->Publish_0.reason == "Running"@,
        p.action is AwaitChange <==> sandbox.spec.lifecycle.shutdown_time is None,
        p.action == reconcile::running_action_of(sandbox, now),
{
    let i = recorded(p, s);
}

/// The Service that a running sandbox is recorded under is the one that is applied for
/// it, whatever else of the sandbox has changed since; and the ports that it is recorded
/// to expose are those that the Service has beyond the bridge's own.
pub proof fn the_running_record_names_the_applied_service(
    created: Sandbox,
    json: Seq<char>,
    made: PodView,
    svc: ServiceView,
    sandbox: Sandbox,
    existing: Option<Pod>,
    cfg: ControllerConfig,
    now: Time,
    later_json: Result<Seq<char>, Seq<char>>,
    p: PlanView,
    s: StatusView,
)
    requires
        object_laws::applies(created, cfg, json, made, svc),
        sandbox.metadata.any_name() == created.metadata.any_name(),
        sandbox.spec.network.published_ports@ == created.spec.network.published_ports@,
        plans(sandbox, existing, cfg, now, later_json, p),
        records(p, s),
        s.phase == Some(SandboxPhase::Running),
    ensures
        s.service_name is Some,
        s.service_name == svc.metadata.name,
        s.exposed_ports.len() + 2 == svc.spec.ports.len(),
        forall|i: int|
            0 <= i < s.exposed_ports.len() ==> {
                let port = svc.spec.ports[2 + i];
                &&& (#[trigger] s.exposed_ports[i]).port == port.port
                &&& Some(s.exposed_ports[i].name) == port.name
                &&& s.exposed_ports[i].protocol == PortProtocol::Tcp <==> port.protocol == Some(
                    "TCP"@,
                )
                &&& s.exposed_ports[i].protocol == PortProtocol::Udp <==> port.protocol == Some(
                    "UDP"@,
                )
            },
{
    let i = recorded(p, s);
    reveal_strlit("TCP");
    reveal_strlit("UDP");
    assert("TCP"@[0] != "UDP"@[0]);
    let both = seq![EffectView::ApplyPod(made), EffectView::ApplyService(svc)];
    let e = reconcile::create_outcome(created, cfg, Ok(json))->Ok_0.effects;
    assert(e[1] == both[1]);
}

/// What the gateway dials for a sandbox that is recorded to run is the Service that was
/// applied for it, in the namespace it was applied to.
pub proof fn the_gateway_dials_the_applied_service(
    created: Sandbox,
    json: Seq<char>,
    made: PodView,
    svc: ServiceView,
    sandbox: Sandbox,
    existing: Option<Pod>,
    cfg: ControllerConfig,
    now: Time,
    later_json: Result<Seq<char>, Seq<char>>,
    p: PlanView,
    running: Sandbox,
    name: Seq<char>,
)
    requires
        object_laws::applies(created, cfg, json, made, svc),
        sandbox.metadata.any_name() == created.metadata.any_name(),
        sandbox.spec.network.published_ports@ == created.spec.network.published_ports@,
        plans(sandbox, existing, cfg, now, later_json, p),
        running.status is Some,
        records(p, running.status->0@),
        running.status->0@.phase == Some(SandboxPhase::Running),
    ensures
        resolve::target_of(running, svc.metadata.namespace->0, name) == Ok::<
            Seq<char>,
            GatewayErrorView,
        >(
            "ws://"@ + svc.metadata.name->0 + "."@ + svc.metadata.namespace->0
                + ".svc.cluster.local:"@ + text::dec(7000) + "/"@,
        ),
        svc.metadata.namespace == Some(created.metadata.namespace->0@),
{
    the_running_record_names_the_applied_service(
        created,
        json,
        made,
        svc,
        sandbox,
        existing,
        cfg,
        now,
        later_json,
        p,
        running.status->0@,
    );
    let both = seq![EffectView::ApplyPod(made), EffectView::ApplyService(svc)];
    let e = reconcile::create_outcome(created, cfg, Ok(json))->Ok_0.effects;
    assert(e[1] == both[1]);
    let status = running.status->0;
    assert(status@.service_name == collections::opt(status.service_name));
    assert(status@.phase == status.phase);
}

/// What expires is what was applied: the pod and the Service that the deadline deletes
/// are those that were applied for the sandbox.
pub proof fn expiry_deletes_what_was_applied(
    created: Sandbox,
    json: Seq<char>,
    made: PodView,
    svc: ServiceView,
    sandbox: Sandbox,
    existing: Option<Pod>,
    cfg: ControllerConfig,
    now: Time,
    later_json: Result<Seq<char>, Seq<char>>,
    p: PlanView,
)
    requires
        object_laws::applies(created, cfg, json, made, svc),
        sandbox.metadata.any_name() == created.metadata.any_name(),
        observe::expired(sandbox, now),
        plans(sandbox, existing, cfg, now, later_json, p),
    ensures
        p.effects.len() >= 2,
        p.effects[0] == EffectView::DeletePod(made.metadata.name->0),
        p.effects[1] == EffectView::DeleteService(svc.metadata.name->0),
{
    let both = seq![EffectView::ApplyPod(made), EffectView::ApplyService(svc)];
    let e = reconcile::create_outcome(created, cfg, Ok(json))->Ok_0.effects;
    assert(e[0] == both[0]);
    assert(e[1] == both[1]);
}

/// The status of a container is that of the first of its name.
proof fn first_of_its_name(cs: Seq<ContainerStatus>, name: Seq<char>, i: int)
    requires
        0 <= i < cs.len(),
        cs[i].name@ == name,
        forall|j: int| 0 <= j < i ==> (#[trigger] cs[j]).name@ != name,
    ensures
        observe::container_named(cs, name) == Some(cs[i]),
    decreases cs.len(),
{
    if i > 0 {
        assert(cs[0].name@ != name);
        let rest = cs.drop_first();
        assert forall|j: int| 0 <= j < i - 1 implies (#[trigger] rest[j]).name@ != name by {
            assert(cs[j + 1].name@ != name);
        }
        first_of_its_name(rest, name, i - 1);
    }
}

/// The end of a sandbox is that of its `msb-runtime` container, whatever the other
/// containers do.
pub proof fn the_runtime_container_tells_the_end(pod: Pod, i: int)
    requires
        pod.status is Some,
        0 <= i < pod.status->0.container_statuses@.len(),
        pod.status->0.container_statuses@[i].name@ == "msb-runtime"@,
        forall|j: int|
            0 <= j < i ==> (#[trigger] pod.status->0.container_statuses@[j]).name@
                != "msb-runtime"@,
    ensures
        observe::runtime_end(pod) == pod.status->0.container_statuses@[i].terminated,
        observe::exit_code_of(pod) == (match pod.status->0.container_statuses@[i].terminated {
            Some(t) => Some(t.exit_code),
            None => None,
        }),
{
    first_of_its_name(pod.status->0.container_statuses@, "msb-runtime"@, i);
}

/// The bridge can be dialed once its sidecar is ready, whatever the other containers do.
pub proof fn the_bridge_sidecar_tells_its_readiness(pod: Pod, i: int)
    requires
        pod.status is Some,
        0 <= i < pod.status->0.init_container_statuses@.len(),
        pod.status->0.init_container_statuses@[i].name@ == "msb-bridge"@,
        forall|j: int|
            0 <= j < i ==> (#[trigger] pod.status->0.init_container_statuses@[j]).name@
                != "msb-bridge"@,
    ensures
        observe::bridge_is_ready(pod) == pod.status->0.init_container_statuses@[i].ready,
{
    first_of_its_name(pod.status->0.init_container_statuses@, "msb-bridge"@, i);
}

/// Whether a sandbox without its pod, or with this one, is to be looked after: it has a
/// namespace, is to run, and its deadline has not passed.
pub open spec fn looked_after(sandbox: Sandbox, now: Time) -> bool {
    &&& sandbox.metadata.namespace is Some
    &&& sandbox.spec.desired_state == DesiredState::Running
    &&& !observe::expired(sandbox, now)
}

/// The exit of the runtime is recorded as the runtime tells it, before the pod that tells
/// it is deleted. An exit with 0 is a success, under any policy. Any other is a failure
/// under `Once`, and a retry under `RerunOnFailure`: one restart more, without a pod,
/// looked at again after the pause. What the sandbox ran on stays recorded.
pub proof fn an_exit_is_recorded_as_the_runtime_tells(
    sandbox: Sandbox,
    pod: Pod,
    cfg: ControllerConfig,
    now: Time,
    json: Result<Seq<char>, Seq<char>>,
    p: PlanView,
    t: ContainerStateTerminated,
)
    requires
        plans(sandbox, Some(pod), cfg, now, json, p),
        looked_after(sandbox, now),
        pod.metadata.deletion_timestamp is None,
        observe::runtime_end(pod) == Some(t),
        reconcile::prior(sandbox).restart_count < u32::MAX,
    ensures
        ({
            let before = reconcile::prior(sandbox);
            let clean = t.exit_code == 0;
            let retry = !clean && sandbox.spec.run_policy == RunPolicy::RerunOnFailure;
            let s = p.effects[0]->PatchStatus_0;
            let e = p.effects[1]->Publish_0;
            &&& p.effects.len() == 3
            &&& p.effects[0] is PatchStatus
            &&& p.effects[1] is Publish
            &&& p.effects[2] == EffectView::DeletePod(pod.metadata.any_name())
            &&& s.exit_code == Some(t.exit_code)
            &&& s.phase == Some(SandboxPhase::Succeeded) <==> clean
            &&& s.phase == Some(SandboxPhase::Pending) <==> retry
            &&& s.phase == Some(SandboxPhase::Failed) <==> !clean && !retry
            &&& e.type_ == EventType::Normal <==> clean
            &&& e.reason == if clean {
                "Succeeded"@
            } else {
                "Failed"@
            }
            &&& s.termination_reason matches Some(why) ==> e.note == "sandbox terminated: "@
                + why.label()
            &&& s.service_name == before.service_name
            &&& s.node_name == before.node_name
            &&& s.exposed_ports == before.exposed_ports
            &&& s.applied_cpus is None
            &&& s.applied_memory is None
            &&& retry ==> {
                &&& s.restart_count == before.restart_count + 1
                &&& s.pod_name is None
                &&& s.started_at is None
                &&& p.action == Action::Requeue {
                    secs: observe::backoff(before.restart_count as nat) as u64,
                    millis: 0,
                }
            }
            &&& !retry ==> {
                &&& s.restart_count == before.restart_count
                &&& s.pod_name == Some(pod.metadata.any_name())
                &&& s.started_at == before.started_at
                &&& p.action == Action::AwaitChange
            }
        }),
{
}

/// A pod that ended without telling how its runtime did is judged by its own phase.
pub proof fn a_finished_pod_ends_the_sandbox(
    sandbox: Sandbox,
    pod: Pod,
    cfg: ControllerConfig,
    now: Time,
    json: Result<Seq<char>, Seq<char>>,
    p: PlanView,
)
    requires
        plans(sandbox, Some(pod), cfg, now, json, p),
        looked_after(sandbox, now),
        pod.metadata.deletion_timestamp is None,
        observe::runtime_end(pod) is None,
        observe::phase_of(pod) == Some("Succeeded"@) || observe::phase_of(pod) == Some("Failed"@),
    ensures
        p.effects.len() == 3,
        p.effects[0] is PatchStatus,
        p.effects[2] == EffectView::DeletePod(pod.metadata.any_name()),
        p.effects[0]->PatchStatus_0.exit_code is None,
        p.effects[0]->PatchStatus_0.phase == Some(SandboxPhase::Succeeded) <==> observe::phase_of(
            pod,
        ) == Some("Succeeded"@),
        p.effects[0]->PatchStatus_0.phase == Some(SandboxPhase::Failed) <==> observe::phase_of(pod)
            == Some("Failed"@) && sandbox.spec.run_policy == RunPolicy::Once,
{
    reveal_strlit("Succeeded");
    reveal_strlit("Failed");
    reveal_strlit("Running");
    assert("Succeeded"@.len() == 9 && "Failed"@.len() == 6 && "Running"@.len() == 7);
}

/// Whether a pod carries this annotation.
pub open spec fn annotated(pod: Pod, key: Seq<char>) -> bool {
    pod.metadata.annotations@.dom().contains(key)
}

/// Why and when a sandbox ended is told by its pod. Without an annotation of its own, it
/// ended now: for an eviction, where the pod was evicted; else for want of memory, where
/// the runtime was killed for that; else it completed exactly where it exited with 0.
pub proof fn the_reason_is_what_the_pod_tells(
    sandbox: Sandbox,
    pod: Pod,
    cfg: ControllerConfig,
    now: Time,
    json: Result<Seq<char>, Seq<char>>,
    p: PlanView,
    t: ContainerStateTerminated,
)
    requires
        plans(sandbox, Some(pod), cfg, now, json, p),
        looked_after(sandbox, now),
        pod.metadata.deletion_timestamp is None,
        observe::runtime_end(pod) == Some(t),
    ensures
        ({
            let s = p.effects[0]->PatchStatus_0;
            let evicted = pod.status->0.reason is Some && pod.status->0.reason->0@ == "Evicted"@;
            let killed = t.reason is Some && t.reason->0@ == "OOMKilled"@;
            &&& !annotated(pod, "microsandbox.dev/terminated-at"@) ==> s.terminated_at == Some(now@)
            &&& annotated(pod, "microsandbox.dev/terminated-at"@) ==> s.terminated_at == Some(
                match time::parsed_timestamp(
                    pod.metadata.annotations@["microsandbox.dev/terminated-at"@],
                ) {
                    Some(t) => t,
                    None => now@,
                },
            )
            &&& !annotated(pod, "microsandbox.dev/termination-reason"@) ==> {
                &&& s.termination_reason == Some(TerminationReason::Evicted) <==> evicted
                &&& s.termination_reason == Some(TerminationReason::OomKilled) <==> !evicted
                    && killed
                &&& s.termination_reason == Some(TerminationReason::Completed) <==> !evicted
                    && !killed && t.exit_code == 0
                &&& s.termination_reason == Some(TerminationReason::Failed) <==> !evicted
                    && !killed && t.exit_code != 0
            }
        }),
{
}

/// A reason that an annotation of the pod names is believed before anything else.
pub proof fn an_annotated_reason_is_believed(pod: Pod, reason: TerminationReason)
    requires
        annotated(pod, "microsandbox.dev/termination-reason"@),
        pod.metadata.annotations@["microsandbox.dev/termination-reason"@] == (match reason {
            TerminationReason::OomKilled => "OOMKilled"@,
            TerminationReason::Completed => "Completed"@,
            TerminationReason::MaxDurationExceeded => "MaxDurationExceeded"@,
            TerminationReason::IdleTimeout => "IdleTimeout"@,
            TerminationReason::ShutdownRequested => "ShutdownRequested"@,
            TerminationReason::Failed => "Failed"@,
            TerminationReason::Evicted => "Evicted"@,
            TerminationReason::NodeLost => "NodeLost"@,
            TerminationReason::Expired => "Expired"@,
        }),
    ensures
        observe::termination_reason_of(pod) == Some(reason),
{
    let a = pod.metadata.annotations@;
    assert(observe::wire_name(reason) == a[observe::ANN_TERMINATION_REASON@]);
    observe::wire_names_differ(reason, observe::annotated_reason(pod)->0);
}

/// A sandbox that was running and has no pod any more has lost its node, now. It is tried
/// again under `RerunOnFailure`, and has failed under `Once`; what it ran on, and where,
/// stays recorded unless it is tried again.
pub proof fn a_vanished_pod_is_a_lost_node(
    sandbox: Sandbox,
    cfg: ControllerConfig,
    now: Time,
    json: Result<Seq<char>, Seq<char>>,
    p: PlanView,
)
    requires
        plans(sandbox, None, cfg, now, json, p),
        looked_after(sandbox, now),
        sandbox.phase() == Some(SandboxPhase::Running),
        reconcile::prior(sandbox).restart_count < u32::MAX,
    ensures
        ({
            let before = reconcile::prior(sandbox);
            let retry = sandbox.spec.run_policy == RunPolicy::RerunOnFailure;
            let s = p.effects[0]->PatchStatus_0;
            let e = p.effects[1]->Publish_0;
            &&& p.effects.len() == 2
            &&& p.effects[0] is PatchStatus
            &&& p.effects[1] is Publish
            &&& e.type_ == EventType::Warning
            &&& e.reason == "NodeLost"@
            &&& s.termination_reason == Some(TerminationReason::NodeLost)
            &&& s.terminated_at == Some(now@)
            &&& s.exit_code is None
            &&& s.service_name == before.service_name
            &&& s.node_name == before.node_name
            &&& s.exposed_ports == before.exposed_ports
            &&& s.phase == Some(SandboxPhase::Pending) <==> retry
            &&& s.phase == Some(SandboxPhase::Failed) <==> !retry
            &&& retry ==> {
                &&& s.restart_count == before.restart_count + 1
                &&& s.pod_name is None
                &&& s.started_at is None
                &&& s.applied_cpus is None
                &&& s.applied_memory is None
                &&& p.action == Action::Requeue {
                    secs: observe::backoff(before.restart_count as nat) as u64,
                    millis: 0,
                }
            }
            &&& !retry ==> {
                &&& s.restart_count == before.restart_count
                &&& s.pod_name == before.pod_name
                &&& s.started_at == before.started_at
                &&& s.applied_cpus == before.applied_cpus
                &&& s.applied_memory == before.applied_memory
                &&& p.action == Action::AwaitChange
            }
        }),
{
}

/// A sandbox that is to be at rest is recorded so once, with the restarts it had and
/// nothing of the run that is over; its pod, where it is there and not yet on its way out,
/// is deleted first. Nothing else is deleted, and nothing is applied.
pub proof fn a_stop_deletes_the_pod_and_rests(
    sandbox: Sandbox,
    existing: Option<Pod>,
    cfg: ControllerConfig,
    now: Time,
    json: Result<Seq<char>, Seq<char>>,
    p: PlanView,
    s: StatusView,
    i: int,
)
    requires
        plans(sandbox, existing, cfg, now, json, p),
        sandbox.spec.desired_state == DesiredState::Stopped,
        !observe::expired(sandbox, now),
    ensures
        p.action == Action::AwaitChange,
        records(p, s) ==> {
            &&& s.phase == Some(SandboxPhase::Stopped)
            &&& s.restart_count == reconcile::prior(sandbox).restart_count
            &&& s.pod_name is None
            &&& s.service_name is None
            &&& s.node_name is None
            &&& s.started_at is None
            &&& s.terminated_at is None
            &&& s.termination_reason is None
            &&& s.exit_code is None
            &&& s.exposed_ports.len() == 0
            &&& s.applied_cpus is None
            &&& s.applied_memory is None
            &&& sandbox.phase() != Some(SandboxPhase::Stopped)
        },
        sandbox.phase() != Some(SandboxPhase::Stopped) ==> p.effects.len() >= 2
            && p.effects[p.effects.len() - 2] is PatchStatus
            && p.effects[p.effects.len() - 1] is Publish,
        0 <= i < p.effects.len() ==> {
            &&& p.effects[i] is DeletePod || p.effects[i] is PatchStatus || p.effects[i] is Publish
            &&& p.effects[i] is DeletePod ==> i == 0 && existing is Some && p.effects[i]
                == EffectView::DeletePod(existing->0.metadata.any_name())
            &&& p.effects[i] is Publish ==> p.effects[i]->Publish_0.type_ == EventType::Normal
                && p.effects[i]->Publish_0.reason == "Stopped"@
        },
        existing is Some && existing->0.metadata.deletion_timestamp is None ==> p.effects.len() > 0
            && p.effects[0] is DeletePod,
{
    let rest = reconcile::stopped_plan(sandbox, now);
    if existing is Some {
        assert(rest.effects.len() <= 2);
        if existing->0.metadata.deletion_timestamp is Some {
            assert(p.effects =~= rest.effects);
        }
    }
    if records(p, s) {
        let k = recorded(p, s);
    }
}

/// The record of an expiry: the sandbox has succeeded, as of now, for the one reason that
/// its deadline passed; it tells when it had started and how often it was restarted, and
/// no longer of a pod or a Service.
pub proof fn an_expiry_is_recorded(
    sandbox: Sandbox,
    existing: Option<Pod>,
    cfg: ControllerConfig,
    now: Time,
    json: Result<Seq<char>, Seq<char>>,
    p: PlanView,
    s: StatusView,
)
    requires
        plans(sandbox, existing, cfg, now, json, p),
        observe::expired(sandbox, now),
        records(p, s),
    ensures
        sandbox.spec.lifecycle.shutdown_policy == ShutdownPolicy::Retain,
        s.phase == Some(SandboxPhase::Succeeded),
        s.termination_reason == Some(TerminationReason::Expired),
        s.terminated_at == Some(now@),
        s.started_at == reconcile::prior(sandbox).started_at,
        s.restart_count == reconcile::prior(sandbox).restart_count,
        s.exit_code is None,
        s.pod_name is None,
        s.service_name is None,
        p.effects.len() == 4,
        p.effects[3] is Publish,
        p.effects[3]->Publish_0.type_ == EventType::Normal,
        p.effects[3]->Publish_0.reason == "Expired"@,
{
    let k = recorded(p, s);
}

/// A sandbox has expired exactly where its deadline is not ahead any more.
pub proof fn a_deadline_is_past_from_its_instant_on(sandbox: Sandbox, deadline: Time, now: Time)
    requires
        sandbox.spec.lifecycle.shutdown_time == Some(deadline),
    ensures
        observe::expired(sandbox, now) <==> deadline@ <= now@,
{
}

/// A sandbox that publishes a port of the bridge's fails for it, with a warning; it gets
/// neither a pod nor a Service, and none is told of. The plan does so for a sandbox of
/// which the failure is not recorded yet.
pub proof fn a_port_conflict_fails_the_sandbox(
    sandbox: Sandbox,
    cfg: ControllerConfig,
    now: Time,
    json: Result<Seq<char>, Seq<char>>,
    p: PlanView,
)
    requires
        plans(sandbox, None, cfg, now, json, p),
        looked_after(sandbox, now),
        !observe::terminal(sandbox),
        sandbox.phase() != Some(SandboxPhase::Running),
        exists|i: int|
            0 <= i < sandbox.spec.network.published_ports@.len() && {
                let n = (#[trigger] sandbox.spec.network.published_ports@[i]).host();
                n as i32 == cfg.bridge_port || n as i32 == cfg.bridge_control_port
            },
    ensures
        p.effects.len() == 2,
        p.effects[0] is PatchStatus,
        p.effects[0]->PatchStatus_0.phase == Some(SandboxPhase::Failed),
        p.effects[0]->PatchStatus_0.termination_reason == Some(TerminationReason::Failed),
        p.effects[0]->PatchStatus_0.pod_name is None,
        p.effects[0]->PatchStatus_0.service_name is None,
        p.effects[0]->PatchStatus_0.exit_code is None,
        p.effects[0]->PatchStatus_0.exposed_ports.len() == 0,
        p.effects[1] is Publish,
        p.effects[1]->Publish_0.type_ == EventType::Warning,
        p.effects[1]->Publish_0.reason == "PortConflict"@,
        p.action == Action::AwaitChange,
{
    let published = sandbox.spec.network.published_ports@;
    service::no_conflict_means_no_collision(cfg, published);
    let i = choose|i: int|
        0 <= i < published.len() && {
            let n = (#[trigger] published[i]).host();
            n as i32 == cfg.bridge_port || n as i32 == cfg.bridge_control_port
        };
    assert(service::reserved(cfg, published[i].host()));
}

/// While a pod is on its way, be it up or out, it is looked at again in half a second, and
/// nothing is done.
pub proof fn a_pod_on_its_way_is_waited_for(
    sandbox: Sandbox,
    pod: Pod,
    cfg: ControllerConfig,
    now: Time,
    json: Result<Seq<char>, Seq<char>>,
    p: PlanView,
)
    requires
        plans(sandbox, Some(pod), cfg, now, json, p),
        looked_after(sandbox, now),
        pod.metadata.deletion_timestamp is Some || (observe::runtime_end(pod) is None
            && observe::phase_of(pod) != Some("Succeeded"@) && observe::phase_of(pod) != Some(
            "Failed"@,
        ) && (observe::phase_of(pod) != Some("Running"@) || !observe::bridge_is_ready(pod))),
    ensures
        p.effects.len() == 0,
        p.action == (Action::Requeue { secs: 0, millis: 500 }),
{
}

/// What was just applied is looked at again in half a second.
pub proof fn what_was_applied_is_waited_for(
    sandbox: Sandbox,
    cfg: ControllerConfig,
    json: Result<Seq<char>, Seq<char>>,
)
    requires
        reconcile::create_outcome(sandbox, cfg, json) is Ok,
    ensures
        reconcile::create_outcome(sandbox, cfg, json)->Ok_0.action == (Action::Requeue {
            secs: 0,
            millis: 500,
        }),
{
}

/// The pause before a retry is 5 seconds at first, and twice the one before for each
/// restart that was, until it is 300.
pub proof fn the_pause_doubles(restarts: nat)
    ensures
        observe::backoff(0) == 5,
        observe::backoff(restarts + 1) == if 2 * observe::backoff(restarts) > 300 {
            300
        } else {
            2 * observe::backoff(restarts)
        },
{
    observe::doubled_grows(0, restarts);
}

/// A running sandbox with a deadline is looked at again in whole seconds, one at least:
/// by the deadline, or a second from now, and less than a second before it.
pub proof fn a_deadline_is_not_slept_through(sandbox: Sandbox, deadline: Time, now: Time)
    requires
        sandbox.spec.lifecycle.shutdown_time == Some(deadline),
    ensures
        ({
            let a = reconcile::running_action_of(sandbox, now);
            let wake = now@ + observe::wait_secs(deadline, now) * 1_000_000_000;
            &&& observe::wait_secs(deadline, now) >= 1
            &&& wake <= deadline@ || wake == now@ + 1_000_000_000
            &&& deadline@ < wake + 1_000_000_000
            &&& observe::wait_secs(deadline, now) <= u64::MAX ==> a == (Action::Requeue {
                secs: observe::wait_secs(deadline, now) as u64,
                millis: 0,
            })
        }),
{
}

/// A restart is counted exactly where one is due, and then once.
pub proof fn a_restart_is_counted_where_it_is_due(
    sandbox: Sandbox,
    existing: Option<Pod>,
    cfg: ControllerConfig,
    now: Time,
    json: Result<Seq<char>, Seq<char>>,
    p: PlanView,
    s: StatusView,
)
    requires
        plans(sandbox, existing, cfg, now, json, p),
        reconcile::prior(sandbox).restart_count < u32::MAX,
    ensures
        records(p, s) ==> (s.restart_count == reconcile::prior(sandbox).restart_count + 1
            <==> reconcile::restart_due(sandbox, existing, now)),
        reconcile::restart_due(sandbox, existing, now) ==> p.effects.len() > 0
            && p.effects[0] is PatchStatus,
{
    reveal_strlit("Succeeded");
    reveal_strlit("Failed");
    reveal_strlit("Running");
    assert("Succeeded"@.len() == 9 && "Failed"@.len() == 6 && "Running"@.len() == 7);
    if records(p, s) {
        let k = recorded(p, s);
    }
}

/// Whether a pod is up: in phase Running, with its bridge ready and its runtime going, and
/// not on its way out.
pub open spec fn is_up(pod: Pod) -> bool {
    &&& observe::phase_of(pod) == Some("Running"@)
    &&& observe::bridge_is_ready(pod)
    &&& observe::runtime_end(pod) is None
    &&& pod.metadata.deletion_timestamp is None
}

/// A sandbox whose pod is up is recorded to run, unless it already is.
pub proof fn a_pod_that_is_up_is_recorded(
    sandbox: Sandbox,
    pod: Pod,
    cfg: ControllerConfig,
    now: Time,
    json: Result<Seq<char>, Seq<char>>,
)
    requires
        looked_after(sandbox, now),
        is_up(pod),
        sandbox.phase() != Some(SandboxPhase::Running),
    ensures
        ({
            let r = reconcile::reconcile_outcome(sandbox, Some(pod), cfg, now, json);
            &&& r is Ok
            &&& r->Ok_0 is Done
            &&& r->Ok_0->Done_0.effects.len() == 2
            &&& r->Ok_0->Done_0.effects[0] is PatchStatus
            &&& r->Ok_0->Done_0.effects[0]->PatchStatus_0.phase == Some(SandboxPhase::Running)
        }),
{
}

/// What a reconcile goes by is what the status of the sandbox says, field by field; of a
/// sandbox without one, nothing is recorded.
pub proof fn a_reconcile_goes_by_the_status(sandbox: Sandbox, i: int)
    ensures
        sandbox.status is None ==> {
            let before = reconcile::prior(sandbox);
            &&& sandbox.phase() is None
            &&& before.phase is None
            &&& before.pod_name is None
            &&& before.service_name is None
            &&& before.started_at is None
            &&& before.termination_reason is None
            &&& before.restart_count == 0
            &&& before.exposed_ports.len() == 0
            &&& before.applied_cpus is None
            &&& before.applied_memory is None
            &&& before.conditions.len() == 0
        },
        sandbox.status matches Some(s) ==> {
            let before = reconcile::prior(sandbox);
            &&& sandbox.phase() == s.phase
            &&& before.phase == s.phase
            &&& before.pod_name == collections::opt(s.pod_name)
            &&& before.service_name == collections::opt(s.service_name)
            &&& before.node_name == collections::opt(s.node_name)
            &&& before.started_at == collections::opt(s.started_at)
            &&& before.terminated_at == collections::opt(s.terminated_at)
            &&& before.termination_reason == s.termination_reason
            &&& before.exit_code == s.exit_code
            &&& before.restart_count == s.restart_count
            &&& before.applied_cpus == s.applied_cpus
            &&& before.applied_memory == s.applied_memory
            &&& before.exposed_ports.len() == s.exposed_ports@.len()
            &&& 0 <= i < s.exposed_ports@.len() ==> {
                &&& before.exposed_ports[i].port == s.exposed_ports@[i].port
                &&& before.exposed_ports[i].protocol == s.exposed_ports@[i].protocol
                &&& before.exposed_ports[i].name == s.exposed_ports@[i].name@
            }
            &&& before.conditions.len() == s.conditions@.len()
            &&& 0 <= i < s.conditions@.len() ==> {
                &&& before.conditions[i].type_ == s.conditions@[i].type_@
                &&& before.conditions[i].status == s.conditions@[i].status@
                &&& before.conditions[i].reason == s.conditions@[i].reason@
                &&& before.conditions[i].message == s.conditions@[i].message@
                &&& before.conditions[i].last_transition_time
                    == s.conditions@[i].last_transition_time@
                &&& before.conditions[i].observed_generation
                    == s.conditions@[i].observed_generation
            }
        },
{
}

/// A pod is in the phase that the kubelet reports of it, and goes by its own name.
pub proof fn a_pod_is_in_its_reported_phase(pod: Pod)
    ensures
        pod.status matches Some(s) ==> observe::phase_of(pod) == collections::opt(s.phase),
        pod.status is None ==> observe::phase_of(pod) is None && observe::runtime_end(pod) is None
            && !observe::bridge_is_ready(pod),
        pod.metadata.name matches Some(name) ==> pod.metadata.any_name() == name@,
{
}

/// A bridge of which the pod tells nothing is not ready.
pub proof fn a_bridge_that_is_not_told_of_is_not_ready(pod: Pod)
    requires
        pod.status is Some,
        forall|j: int|
            0 <= j < pod.status->0.init_container_statuses@.len() ==> (
            #[trigger] pod.status->0.init_container_statuses@[j]).name@ != "msb-bridge"@,
    ensures
        !observe::bridge_is_ready(pod),
{
    none_of_the_name(pod.status->0.init_container_statuses@, "msb-bridge"@);
}

/// Where no container has a name, none is found by it.
proof fn none_of_the_name(cs: Seq<ContainerStatus>, name: Seq<char>)
    requires
        forall|j: int| 0 <= j < cs.len() ==> (#[trigger] cs[j]).name@ != name,
    ensures
        observe::container_named(cs, name) is None,
    decreases cs.len(),
{
    if cs.len() > 0 {
        let rest = cs.drop_first();
        assert forall|j: int| 0 <= j < rest.len() implies (#[trigger] rest[j]).name@ != name by {
            assert(rest[j] == cs[j + 1]);
        }
        none_of_the_name(rest, name);
    }
}

} // verus!
