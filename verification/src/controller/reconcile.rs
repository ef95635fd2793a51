//! The lifecycle of a sandbox: from what is asked for, what is recorded and what
//! its pod reports, to what to do next.

use vstd::prelude::*;

use crate::collections;
use crate::controller::conditions;
use crate::controller::config::ControllerConfig;
use crate::controller::observe;
use crate::controller::plan;
use crate::controller::plan::{
    Action, Effect, EffectView, Error, ErrorView, EventType, Plan, PlanView,
};
use crate::controller::pod;
use crate::controller::resize;
use crate::controller::resize::ResizeError;
use crate::controller::service;
use crate::k8s;
use crate::k8s::{Condition, ConditionView, Pod};
use crate::sandbox;
use crate::sandbox::{
    DesiredState, ExposedPort, ExposedPortView, RunPolicy, Sandbox, SandboxPhase, SandboxStatus,
    ShutdownPolicy, StatusView, TerminationReason,
};
use crate::text;
use crate::time::Time;

verus! {

/// What is recorded of a sandbox.
pub open spec fn prior(sandbox: Sandbox) -> StatusView {
    match sandbox.status {
        Some(s) => s@,
        None => sandbox::empty_status(),
    }
}

/// The recorded conditions.
pub fn prior_conditions(sandbox: &Sandbox) -> (out: Vec<Condition>)
    ensures
        collections::views(out@) == prior(*sandbox).conditions,
{
    match &sandbox.status {
        Some(s) => conditions::clone_conditions(&s.conditions),
        None => {
            let out: Vec<Condition> = Vec::new();
            assert(collections::views(out@) =~= Seq::empty());
            out
        },
    }
}

/// The recorded number of restarts.
fn prior_restarts(sandbox: &Sandbox) -> (n: u32)
    ensures
        n == prior(*sandbox).restart_count,
{
    match &sandbox.status {
        Some(s) => s.restart_count,
        None => 0,
    }
}

fn prior_service_name(sandbox: &Sandbox) -> (r: Option<String>)
    ensures
        collections::opt(r) == prior(*sandbox).service_name,
{
    match &sandbox.status {
        Some(s) => k8s::clone_opt(&s.service_name),
        None => None,
    }
}

fn prior_node_name(sandbox: &Sandbox) -> (r: Option<String>)
    ensures
        collections::opt(r) == prior(*sandbox).node_name,
{
    match &sandbox.status {
        Some(s) => k8s::clone_opt(&s.node_name),
        None => None,
    }
}

fn prior_pod_name(sandbox: &Sandbox) -> (r: Option<String>)
    ensures
        collections::opt(r) == prior(*sandbox).pod_name,
{
    match &sandbox.status {
        Some(s) => k8s::clone_opt(&s.pod_name),
        None => None,
    }
}

fn prior_started_at(sandbox: &Sandbox) -> (r: Option<Time>)
    ensures
        collections::opt(r) == prior(*sandbox).started_at,
{
    match &sandbox.status {
        Some(s) => s.started_at,
        None => None,
    }
}

fn prior_ports(sandbox: &Sandbox) -> (out: Vec<ExposedPort>)
    ensures
        collections::views(out@) == prior(*sandbox).exposed_ports,
{
    let mut out: Vec<ExposedPort> = Vec::new();
    if let Some(s) = &sandbox.status {
        let ports = &s.exposed_ports;
        let ghost all = collections::views(ports@);
        let mut i: usize = 0;
        assert(collections::views(out@) =~= all.take(0));
        while i < ports.len()
            invariant
                i <= ports.len(),
                all == collections::views(ports@),
                out.len() == i,
                collections::views(out@) == all.take(i as int),
            decreases ports.len() - i,
        {
            let p = &ports[i];
            let ghost before = out@;
            out.push(ExposedPort { port: p.port, protocol: p.protocol, name: p.name.clone() });
            proof {
                collections::grown(before, out@, all);
            }
            i = i + 1;
        }
        assert(all.take(i as int) =~= all);
    } else {
        assert(collections::views(out@) =~= Seq::empty());
    }
    out
}

/// The recorded conditions, with this `Ready` condition set.
pub open spec fn with_ready(
    sandbox: Sandbox,
    status: bool,
    reason: Seq<char>,
    message: Seq<char>,
    now: Time,
) -> Seq<ConditionView> {
    conditions::upserted(
        prior(sandbox).conditions,
        conditions::condition_view(
            conditions::READY@,
            status,
            reason,
            message,
            sandbox.metadata.generation,
            now@,
        ),
    )
}

fn set_ready(sandbox: &Sandbox, status: bool, reason: &str, message: &str, now: Time) -> (out: Vec<
    Condition,
>)
    ensures
        collections::views(out@) == with_ready(*sandbox, status, reason@, message@, now),
{
    let mut out = prior_conditions(sandbox);
    conditions::set(
        &mut out,
        conditions::ready(status, reason, message, sandbox.metadata.generation, now),
    );
    out
}

/// The recorded conditions, with this `RestartRequired` condition set.
pub open spec fn with_restart_required(
    sandbox: Sandbox,
    status: bool,
    reason: Seq<char>,
    message: Seq<char>,
    now: Time,
) -> Seq<ConditionView> {
    conditions::upserted(
        prior(sandbox).conditions,
        conditions::condition_view(
            conditions::RESTART_REQUIRED@,
            status,
            reason,
            message,
            sandbox.metadata.generation,
            now@,
        ),
    )
}

fn set_restart_required(
    sandbox: &Sandbox,
    status: bool,
    reason: &str,
    message: &str,
    now: Time,
) -> (out: Vec<Condition>)
    ensures
        collections::views(out@) == with_restart_required(
            *sandbox,
            status,
            reason@,
            message@,
            now,
        ),
{
    let mut out = prior_conditions(sandbox);
    conditions::set(
        &mut out,
        conditions::restart_required(status, reason, message, sandbox.metadata.generation, now),
    );
    out
}

/// When to look at a running sandbox again: at its deadline, where it has one, as
/// nothing else would report that.
pub open spec fn running_action_of(sandbox: Sandbox, now: Time) -> Action {
    match sandbox.spec.lifecycle.shutdown_time {
        Some(d) => Action::Requeue { secs: observe::wait_secs(d, now) as u64, millis: 0 },
        None => Action::AwaitChange,
    }
}

/// Requeue at the `shutdownTime` deadline, else await the next change.
pub fn running_action(sandbox: &Sandbox, now: Time) -> (a: Action)
    ensures
        a == running_action_of(*sandbox, now),
{
    match sandbox.spec.lifecycle.shutdown_time {
        Some(d) => Action::Requeue { secs: observe::requeue_until(d, now), millis: 0 },
        None => Action::AwaitChange,
    }
}

/// The ports that the Service of a sandbox exposes.
pub open spec fn exposed(sandbox: Sandbox) -> Seq<ExposedPortView> {
    let published = sandbox.spec.network.published_ports@;
    Seq::new(
        published.len(),
        |i: int|
            ExposedPortView {
                port: published[i].host(),
                protocol: published[i].protocol,
                name: pod::port_name_of(published[i].host()),
            },
    )
}

fn exposed_ports(sandbox: &Sandbox) -> (out: Vec<ExposedPort>)
    ensures
        collections::views(out@) == exposed(*sandbox),
{
    let published = &sandbox.spec.network.published_ports;
    let mut out: Vec<ExposedPort> = Vec::new();
    let ghost all = exposed(*sandbox);
    let mut i: usize = 0;
    assert(collections::views(out@) =~= all.take(0));
    while i < published.len()
        invariant
            i <= published.len(),
            published@ == sandbox.spec.network.published_ports@,
            all == exposed(*sandbox),
            out.len() == i,
            collections::views(out@) == all.take(i as int),
        decreases published.len() - i,
    {
        let p = &published[i];
        let ghost before = out@;
        out.push(
            ExposedPort {
                port: p.host_port(),
                protocol: p.protocol,
                name: pod::port_name(p.host_port()),
            },
        );
        proof {
            collections::grown(before, out@, all);
        }
        i = i + 1;
    }
    assert(all.take(i as int) =~= all);
    out
}

/// The status of a sandbox whose pod has come up.
pub open spec fn running_status(sandbox: Sandbox, pod: Pod, now: Time) -> StatusView {
    StatusView {
        phase: Some(SandboxPhase::Running),
        pod_name: Some(pod.metadata.any_name()),
        service_name: match sandbox.metadata.namespace {
            Some(_) => Some(service::service_name_of(sandbox.metadata.any_name())),
            None => None,
        },
        node_name: match pod.spec {
            Some(s) => collections::opt(s.node_name),
            None => None,
        },
        started_at: Some(now@),
        restart_count: prior(sandbox).restart_count,
        exposed_ports: exposed(sandbox),
        applied_cpus: Some(sandbox.spec.cpus),
        applied_memory: Some(sandbox.spec.memory),
        conditions: with_ready(sandbox, true, "PodRunning"@, "sandbox pod is running"@, now),
        ..sandbox::empty_status()
    }
}

/// The plan for a sandbox whose pod has come up.
pub open spec fn running_plan(sandbox: Sandbox, pod: Pod, now: Time) -> PlanView {
    plan::settle_view(
        running_status(sandbox, pod, now),
        plan::event_view(EventType::Normal, "Running"@, "sandbox pod is running"@),
        running_action_of(sandbox, now),
    )
}

/// Record that the pod has come up. The retry count is kept across the transition.
fn record_running(sandbox: &Sandbox, pod: &Pod, now: Time) -> (p: Plan)
    ensures
        p@ == running_plan(*sandbox, *pod, now),
{
    let name = sandbox.metadata.name_any();
    let service_name = match &sandbox.metadata.namespace {
        Some(_) => Some(service::service_name(name.as_str())),
        None => None,
    };
    let node_name = match &pod.spec {
        Some(s) => k8s::clone_opt(&s.node_name),
        None => None,
    };
    let status = SandboxStatus {
        phase: Some(SandboxPhase::Running),
        pod_name: Some(pod.metadata.name_any()),
        service_name,
        node_name,
        started_at: Some(now),
        terminated_at: None,
        termination_reason: None,
        exit_code: None,
        restart_count: prior_restarts(sandbox),
        exposed_ports: exposed_ports(sandbox),
        applied_cpus: Some(sandbox.spec.cpus),
        applied_memory: Some(sandbox.spec.memory),
        conditions: set_ready(sandbox, true, "PodRunning", "sandbox pod is running", now),
    };
    assert(status@ =~= running_status(*sandbox, *pod, now));
    plan::settle(
        status,
        plan::event(EventType::Normal, "Running", "sandbox pod is running"),
        running_action(sandbox, now),
    )
}

/// Whether the sandbox ended well: its runtime exited with 0; where its exit is
/// unknown, the pod succeeded.
pub open spec fn succeeded(pod: Pod) -> bool {
    match observe::exit_code_of(pod) {
        Some(c) => c == 0,
        None => observe::phase_of(pod) == Some("Succeeded"@),
    }
}

fn ended_well(pod: &Pod) -> (r: bool)
    ensures
        r == succeeded(*pod),
{
    match observe::runtime_exit_code(pod) {
        Some(c) => c == 0,
        None => observe::in_phase(pod, "Succeeded"),
    }
}

/// Whether a sandbox that ended is tried again: an unclean end, under a policy
/// that asks for it.
pub open spec fn retries(policy: RunPolicy, ended_well: bool) -> bool {
    !ended_well && policy == RunPolicy::RerunOnFailure
}

/// Whether a sandbox that ended is tried again.
pub fn retrying(policy: RunPolicy, ended_well: bool) -> (r: bool)
    ensures
        r == retries(policy, ended_well),
{
    !ended_well && policy == RunPolicy::RerunOnFailure
}

/// How a condition and an event name a termination reason.
pub open spec fn reason_text(reason: Option<TerminationReason>) -> Seq<char> {
    match reason {
        Some(r) => r.label(),
        None => "Unknown"@,
    }
}

/// The status of a sandbox that ended. One that is tried again is pending, without
/// a pod, with one restart more; any other keeps what the Running phase recorded.
pub open spec fn terminated_status(sandbox: Sandbox, pod: Pod, now: Time) -> StatusView {
    let before = prior(sandbox);
    let reason = observe::termination_reason_of(pod);
    let retry = retries(sandbox.spec.run_policy, succeeded(pod));
    StatusView {
        phase: Some(
            if retry {
                SandboxPhase::Pending
            } else if succeeded(pod) {
                SandboxPhase::Succeeded
            } else {
                SandboxPhase::Failed
            },
        ),
        pod_name: if retry {
            None
        } else {
            Some(pod.metadata.any_name())
        },
        service_name: before.service_name,
        node_name: before.node_name,
        started_at: if retry {
            None
        } else {
            before.started_at
        },
        terminated_at: Some(observe::terminated_instant(pod, now)),
        termination_reason: reason,
        exit_code: observe::exit_code_of(pod),
        restart_count: if retry {
            (before.restart_count + 1) as u32
        } else {
            before.restart_count
        },
        exposed_ports: before.exposed_ports,
        applied_cpus: None,
        applied_memory: None,
        conditions: with_ready(sandbox, false, reason_text(reason), "sandbox exited"@, now),
    }
}

/// When to look again at a sandbox that ended: after the backoff, where it is tried
/// again.
pub open spec fn ended_action(sandbox: Sandbox, retry: bool) -> Action {
    if retry {
        Action::Requeue {
            secs: observe::backoff(prior(sandbox).restart_count as nat) as u64,
            millis: 0,
        }
    } else {
        Action::AwaitChange
    }
}

fn after_end(sandbox: &Sandbox, retry: bool) -> (a: Action)
    ensures
        a == ended_action(*sandbox, retry),
{
    if retry {
        Action::Requeue { secs: observe::retry_backoff(prior_restarts(sandbox)), millis: 0 }
    } else {
        plan::finish()
    }
}

/// The plan for a sandbox that ended: record it, then delete the pod.
pub open spec fn terminate_plan(sandbox: Sandbox, pod: Pod, now: Time) -> PlanView {
    let ok = succeeded(pod);
    PlanView {
        effects: seq![
            EffectView::PatchStatus(terminated_status(sandbox, pod, now)),
            EffectView::Publish(
                plan::event_view(
                    if ok {
                        EventType::Normal
                    } else {
                        EventType::Warning
                    },
                    if ok {
                        "Succeeded"@
                    } else {
                        "Failed"@
                    },
                    "sandbox terminated: "@ + reason_text(observe::termination_reason_of(pod)),
                ),
            ),
            EffectView::DeletePod(pod.metadata.any_name()),
        ],
        action: ended_action(sandbox, retries(sandbox.spec.run_policy, ok)),
    }
}

/// The sandbox ended. What its pod tells is read before the pod is deleted. A
/// sandbox that is tried again gets a fresh pod by a later reconcile, once this
/// one is gone.
pub fn terminate(sandbox: &Sandbox, pod: &Pod, now: Time) -> (p: Plan)
    requires
        retries(sandbox.spec.run_policy, succeeded(*pod)) ==> prior(*sandbox).restart_count
            < u32::MAX,
    ensures
        p@ == terminate_plan(*sandbox, *pod, now),
{
    let reason = observe::termination_reason(pod);
    let ok = ended_well(pod);
    let retry = retrying(sandbox.spec.run_policy, ok);
    let restarts: u32 = prior_restarts(sandbox);
    let reason_name = match &reason {
        Some(r) => r.name(),
        None => "Unknown",
    };
    let conditions = set_ready(sandbox, false, reason_name, "sandbox exited", now);
    let status = if retry {
        SandboxStatus {
            phase: Some(SandboxPhase::Pending),
            pod_name: None,
            service_name: prior_service_name(sandbox),
            node_name: prior_node_name(sandbox),
            started_at: None,
            terminated_at: Some(observe::terminated_at(pod, now)),
            termination_reason: reason,
            exit_code: observe::runtime_exit_code(pod),
            restart_count: restarts + 1,
            exposed_ports: prior_ports(sandbox),
            applied_cpus: None,
            applied_memory: None,
            conditions,
        }
    } else {
        SandboxStatus {
            phase: Some(
                if ok {
                    SandboxPhase::Succeeded
                } else {
                    SandboxPhase::Failed
                },
            ),
            pod_name: Some(pod.metadata.name_any()),
            service_name: prior_service_name(sandbox),
            node_name: prior_node_name(sandbox),
            started_at: prior_started_at(sandbox),
            terminated_at: Some(observe::terminated_at(pod, now)),
            termination_reason: reason,
            exit_code: observe::runtime_exit_code(pod),
            restart_count: restarts,
            exposed_ports: prior_ports(sandbox),
            applied_cpus: None,
            applied_memory: None,
            conditions,
        }
    };
    assert(status@ =~= terminated_status(*sandbox, *pod, now));
    let event = plan::event(
        if ok {
            EventType::Normal
        } else {
            EventType::Warning
        },
        if ok {
            "Succeeded"
        } else {
            "Failed"
        },
        "sandbox terminated: ".to_owned().concat(reason_name).as_str(),
    );
    let recorded = plan::settle(status, event, after_end(sandbox, retry));
    let p = plan::and_do(recorded, Effect::DeletePod(pod.metadata.name_any()));
    assert(p@.effects =~= terminate_plan(*sandbox, *pod, now).effects);
    p
}

/// The status of a sandbox whose pod disappeared while it ran.
pub open spec fn vanished_status(sandbox: Sandbox, now: Time) -> StatusView {
    let before = prior(sandbox);
    let retry = retries(sandbox.spec.run_policy, false);
    StatusView {
        phase: Some(
            if retry {
                SandboxPhase::Pending
            } else {
                SandboxPhase::Failed
            },
        ),
        pod_name: if retry {
            None
        } else {
            before.pod_name
        },
        service_name: before.service_name,
        node_name: before.node_name,
        started_at: if retry {
            None
        } else {
            before.started_at
        },
        terminated_at: Some(now@),
        termination_reason: Some(TerminationReason::NodeLost),
        exit_code: None,
        restart_count: if retry {
            (before.restart_count + 1) as u32
        } else {
            before.restart_count
        },
        exposed_ports: before.exposed_ports,
        applied_cpus: if retry {
            None
        } else {
            before.applied_cpus
        },
        applied_memory: if retry {
            None
        } else {
            before.applied_memory
        },
        conditions: with_ready(sandbox, false, "NodeLost"@, "sandbox pod disappeared"@, now),
    }
}

/// The plan for a sandbox whose pod disappeared while it ran.
pub open spec fn vanished_plan(sandbox: Sandbox, now: Time) -> PlanView {
    plan::settle_view(
        vanished_status(sandbox, now),
        plan::event_view(EventType::Warning, "NodeLost"@, "sandbox pod disappeared"@),
        ended_action(sandbox, retries(sandbox.spec.run_policy, false)),
    )
}

/// A Running pod disappeared. Record it as a `NodeLost` unclean exit, then apply
/// the same runPolicy decision as a Failed exit: retry under `RerunOnFailure`,
/// otherwise settle terminal `Failed`.
pub fn handle_vanished_pod(sandbox: &Sandbox, now: Time) -> (p: Plan)
    requires
        retries(sandbox.spec.run_policy, false) ==> prior(*sandbox).restart_count < u32::MAX,
    ensures
        p@ == vanished_plan(*sandbox, now),
{
    let retry = retrying(sandbox.spec.run_policy, false);
    let restarts: u32 = prior_restarts(sandbox);
    let (applied_cpus, applied_memory) = match &sandbox.status {
        Some(s) if !retry => (s.applied_cpus, s.applied_memory),
        _ => (None, None),
    };
    let status = SandboxStatus {
        phase: Some(
            if retry {
                SandboxPhase::Pending
            } else {
                SandboxPhase::Failed
            },
        ),
        pod_name: if retry {
            None
        } else {
            prior_pod_name(sandbox)
        },
        service_name: prior_service_name(sandbox),
        node_name: prior_node_name(sandbox),
        started_at: if retry {
            None
        } else {
            prior_started_at(sandbox)
        },
        terminated_at: Some(now),
        termination_reason: Some(TerminationReason::NodeLost),
        exit_code: None,
        restart_count: if retry {
            restarts + 1
        } else {
            restarts
        },
        exposed_ports: prior_ports(sandbox),
        applied_cpus,
        applied_memory,
        conditions: set_ready(sandbox, false, "NodeLost", "sandbox pod disappeared", now),
    };
    assert(status@ =~= vanished_status(*sandbox, now));
    plan::settle(
        status,
        plan::event(EventType::Warning, "NodeLost", "sandbox pod disappeared"),
        after_end(sandbox, retry),
    )
}

/// The status of a sandbox at rest.
pub open spec fn stopped_status(sandbox: Sandbox, now: Time) -> StatusView {
    StatusView {
        phase: Some(SandboxPhase::Stopped),
        restart_count: prior(sandbox).restart_count,
        conditions: with_ready(
            sandbox,
            false,
            "Stopped"@,
            "sandbox is stopped by desiredState"@,
            now,
        ),
        ..sandbox::empty_status()
    }
}

/// The plan for a sandbox at rest: record it, once.
pub open spec fn stopped_plan(sandbox: Sandbox, now: Time) -> PlanView {
    if sandbox.phase() == Some(SandboxPhase::Stopped) {
        plan::idle_view(Action::AwaitChange)
    } else {
        plan::settle_view(
            stopped_status(sandbox, now),
            plan::event_view(EventType::Normal, "Stopped"@, "sandbox stopped by desiredState"@),
            Action::AwaitChange,
        )
    }
}

/// Record the resting `Stopped` phase for a desired stop. Not a terminal state and
/// not a failure: runPolicy does not fire and the restart count is kept. The
/// per-sandbox Service is left in place so identity is stable across a stop and a
/// start.
pub fn mark_stopped(sandbox: &Sandbox, now: Time) -> (p: Plan)
    ensures
        p@ == stopped_plan(*sandbox, now),
{
    if matches!(sandbox.recorded_phase(), Some(SandboxPhase::Stopped)) {
        return plan::idle(Action::AwaitChange);
    }
    let status = SandboxStatus {
        phase: Some(SandboxPhase::Stopped),
        restart_count: prior_restarts(sandbox),
        conditions: set_ready(
            sandbox,
            false,
            "Stopped",
            "sandbox is stopped by desiredState",
            now,
        ),
        ..SandboxStatus::default()
    };
    assert(status@ =~= stopped_status(*sandbox, now));
    plan::settle(
        status,
        plan::event(EventType::Normal, "Stopped", "sandbox stopped by desiredState"),
        Action::AwaitChange,
    )
}

/// What a port conflict is reported as.
pub open spec fn conflict_text(port: u16) -> Seq<char> {
    "publishedPort "@ + text::dec(port as nat)
        + " collides with a reserved bridge port; choose a different hostPort"@
}

/// The plan for a sandbox that publishes a reserved port: settle it as failed,
/// once, and create nothing.
pub open spec fn conflict_plan(sandbox: Sandbox, port: u16, now: Time) -> PlanView {
    if prior(sandbox).termination_reason == Some(TerminationReason::Failed) && sandbox.phase()
        == Some(SandboxPhase::Failed) {
        plan::idle_view(Action::AwaitChange)
    } else {
        plan::settle_view(
            StatusView {
                phase: Some(SandboxPhase::Failed),
                termination_reason: Some(TerminationReason::Failed),
                conditions: with_ready(
                    sandbox,
                    false,
                    "PortConflict"@,
                    conflict_text(port),
                    now,
                ),
                ..sandbox::empty_status()
            },
            plan::event_view(EventType::Warning, "PortConflict"@, conflict_text(port)),
            Action::AwaitChange,
        )
    }
}

/// Settle a sandbox `Failed` with a `PortConflict` condition and create nothing, so
/// that status never advertises a Service the collision cannot produce.
pub fn mark_port_conflict(sandbox: &Sandbox, port: u16, now: Time) -> (p: Plan)
    ensures
        p@ == conflict_plan(*sandbox, port, now),
{
    if let Some(s) = &sandbox.status {
        if matches!(s.termination_reason, Some(TerminationReason::Failed)) && matches!(
            s.phase,
            Some(SandboxPhase::Failed)
        ) {
            return plan::idle(Action::AwaitChange);
        }
    }
    let message = "publishedPort ".to_owned().concat(text::decimal(port as u64).as_str()).concat(
        " collides with a reserved bridge port; choose a different hostPort",
    );
    let status = SandboxStatus {
        phase: Some(SandboxPhase::Failed),
        termination_reason: Some(TerminationReason::Failed),
        conditions: set_ready(sandbox, false, "PortConflict", message.as_str(), now),
        ..SandboxStatus::default()
    };
    let ghost expected = StatusView {
        phase: Some(SandboxPhase::Failed),
        termination_reason: Some(TerminationReason::Failed),
        conditions: with_ready(*sandbox, false, "PortConflict"@, conflict_text(port), now),
        ..sandbox::empty_status()
    };
    assert(status@ =~= expected);
    plan::settle(
        status,
        plan::event(EventType::Warning, "PortConflict", message.as_str()),
        Action::AwaitChange,
    )
}

/// The status of a sandbox whose deadline has passed.
pub open spec fn expired_status(sandbox: Sandbox, now: Time) -> StatusView {
    StatusView {
        phase: Some(SandboxPhase::Succeeded),
        termination_reason: Some(TerminationReason::Expired),
        terminated_at: Some(now@),
        started_at: prior(sandbox).started_at,
        restart_count: prior(sandbox).restart_count,
        conditions: with_ready(sandbox, false, "Expired"@, "shutdownTime deadline passed"@, now),
        ..sandbox::empty_status()
    }
}

/// The plan for a sandbox whose deadline has passed: delete the pod and the Service,
/// then delete the object or, by default, record its expiry, once.
pub open spec fn expire_plan(sandbox: Sandbox, now: Time) -> PlanView {
    let name = sandbox.metadata.any_name();
    let pod = EffectView::DeletePod(pod::pod_name_of(name));
    let svc = EffectView::DeleteService(service::service_name_of(name));
    PlanView {
        effects: if sandbox.spec.lifecycle.shutdown_policy == ShutdownPolicy::Delete {
            seq![pod, svc, EffectView::DeleteSandbox]
        } else if prior(sandbox).termination_reason == Some(TerminationReason::Expired) {
            seq![pod, svc]
        } else {
            seq![
                pod,
                svc,
                EffectView::PatchStatus(expired_status(sandbox, now)),
                EffectView::Publish(
                    plan::event_view(
                        EventType::Normal,
                        "Expired"@,
                        "shutdownTime deadline passed"@,
                    ),
                ),
            ]
        },
        action: Action::AwaitChange,
    }
}

/// The `shutdownTime` deadline passed: delete the pod and the Service, then delete or
/// (default) retain-as-`Expired` the object. Only the wall-clock deadline leads here;
/// a guest exiting on its own does not.
pub fn expire(sandbox: &Sandbox, now: Time) -> (p: Plan)
    ensures
        p@ == expire_plan(*sandbox, now),
{
    let name = sandbox.metadata.name_any();
    let delete_pod = Effect::DeletePod(pod::pod_name(name.as_str()));
    let delete_service = Effect::DeleteService(service::service_name(name.as_str()));
    let rest = if sandbox.spec.lifecycle.shutdown_policy == ShutdownPolicy::Delete {
        plan::single(Effect::DeleteSandbox, Action::AwaitChange)
    } else if expiry_is_recorded(sandbox) {
        plan::idle(Action::AwaitChange)
    } else {
        let status = SandboxStatus {
            phase: Some(SandboxPhase::Succeeded),
            termination_reason: Some(TerminationReason::Expired),
            terminated_at: Some(now),
            started_at: prior_started_at(sandbox),
            restart_count: prior_restarts(sandbox),
            conditions: set_ready(sandbox, false, "Expired", "shutdownTime deadline passed", now),
            ..SandboxStatus::default()
        };
        assert(status@ =~= expired_status(*sandbox, now));
        plan::settle(
            status,
            plan::event(EventType::Normal, "Expired", "shutdownTime deadline passed"),
            Action::AwaitChange,
        )
    };
    let p = plan::do_first(delete_pod, plan::do_first(delete_service, rest));
    assert(p@.effects =~= expire_plan(*sandbox, now).effects);
    p
}

/// Whether the expiry of a sandbox is already recorded.
fn expiry_is_recorded(sandbox: &Sandbox) -> (r: bool)
    ensures
        r == (prior(*sandbox).termination_reason == Some(TerminationReason::Expired)),
{
    match &sandbox.status {
        Some(s) => matches!(s.termination_reason, Some(TerminationReason::Expired)),
        None => false,
    }
}

/// What comes of creating the pod and the Service of a sandbox.
pub open spec fn create_outcome(
    sandbox: Sandbox,
    cfg: ControllerConfig,
    spec_json: Result<Seq<char>, Seq<char>>,
) -> Result<PlanView, ErrorView> {
    match sandbox.metadata.namespace {
        None => Err(
            ErrorView::MissingObjectKey {
                sandbox: sandbox.metadata.any_name(),
                key: "namespace"@,
            },
        ),
        Some(ns) => match pod::built(sandbox, cfg, spec_json) {
            Err(source) => Err(
                ErrorView::BuildPod { sandbox: sandbox.metadata.any_name(), source },
            ),
            Ok(p) => Ok(
                PlanView {
                    effects: seq![
                        EffectView::ApplyPod(p),
                        EffectView::ApplyService(
                            service::service_view(sandbox, cfg, sandbox.metadata.any_name(), ns@),
                        ),
                    ],
                    action: plan::soon(),
                },
            ),
        },
    }
}

/// Create the pod, then the Service that fronts its bridge. Both are owned by the
/// sandbox and applied server-side, so that a repeated creation changes nothing.
pub fn create_pod(
    sandbox: &Sandbox,
    cfg: &ControllerConfig,
    spec_json: Result<String, String>,
) -> (r: Result<Plan, Error>)
    ensures
        collections::res(r) == create_outcome(*sandbox, *cfg, collections::res(spec_json)),
{
    let name = sandbox.metadata.name_any();
    let namespace = match &sandbox.metadata.namespace {
        Some(ns) => ns,
        None => {
            return Err(Error::MissingObjectKey { sandbox: name, key: "namespace" });
        },
    };
    let desired = match pod::build(sandbox, cfg, spec_json) {
        Ok(p) => p,
        Err(source) => {
            return Err(Error::BuildPod { sandbox: name, source });
        },
    };
    let svc = service::build(sandbox, cfg, name.as_str(), namespace.as_str());
    let p = plan::and_do(
        plan::single(Effect::ApplyPod(desired), plan::requeue_soon()),
        Effect::ApplyService(svc),
    );
    proof {
        let v = create_outcome(*sandbox, *cfg, collections::res(spec_json))->Ok_0;
        assert(p@.effects =~= v.effects);
    }
    Ok(p)
}

/// What the control endpoint has answered so far to the requests of a resize.
#[derive(Debug, PartialEq)]
pub struct ResizeReplies {
    pub cpus: Option<Result<(), ResizeError>>,
    pub memory: Option<Result<(), ResizeError>>,
}

impl ResizeReplies {
    /// Nothing was asked yet.
    pub fn none() -> (r: ResizeReplies)
        ensures
            r.cpus is None,
            r.memory is None,
    {
        ResizeReplies { cpus: None, memory: None }
    }

    /// Whether the request for vCPUs failed.
    pub open spec fn cpus_failed(self) -> bool {
        self.cpus is Some && self.cpus->0 is Err
    }

    /// Whether the request for memory failed.
    pub open spec fn memory_failed(self) -> bool {
        self.memory is Some && self.memory->0 is Err
    }
}

/// What a reconcile comes to: a plan, or a request to the control endpoint whose
/// reply it needs first.
#[derive(Debug, PartialEq)]
pub enum Step {
    Done(Plan),
    AskCpus { url: String, request: String },
    AskMemory { url: String, request: String },
}

#[verifier::ext_equal]
pub enum StepView {
    Done(PlanView),
    AskCpus { url: Seq<char>, request: Seq<char> },
    AskMemory { url: Seq<char>, request: Seq<char> },
}

impl View for Step {
    type V = StepView;

    open spec fn view(&self) -> StepView {
        match *self {
            Step::Done(p) => StepView::Done(p@),
            Step::AskCpus { url, request } => StepView::AskCpus { url: url@, request: request@ },
            Step::AskMemory { url, request } => StepView::AskMemory {
                url: url@,
                request: request@,
            },
        }
    }
}

/// Whether a condition says that a restart is required.
pub open spec fn demands_restart(c: ConditionView) -> bool {
    c.type_ == conditions::RESTART_REQUIRED@ && c.status == "True"@
}

/// Whether the recorded conditions say that a restart is required.
pub open spec fn restart_flagged(sandbox: Sandbox) -> bool {
    exists|i: int|
        0 <= i < prior(sandbox).conditions.len() && demands_restart(
            #[trigger] prior(sandbox).conditions[i],
        )
}

fn restart_is_flagged(sandbox: &Sandbox) -> (r: bool)
    ensures
        r == restart_flagged(*sandbox),
{
    if let Some(s) = &sandbox.status {
        let cs = &s.conditions;
        let mut i: usize = 0;
        while i < cs.len()
            invariant
                i <= cs.len(),
                collections::views(cs@) == prior(*sandbox).conditions,
                forall|k: int|
                    0 <= k < i ==> !demands_restart(#[trigger] prior(*sandbox).conditions[k]),
            decreases cs.len() - i,
        {
            assert(prior(*sandbox).conditions[i as int] == cs@[i as int]@);
            if text::same(cs[i].type_.as_str(), conditions::RESTART_REQUIRED) && text::same(
                cs[i].status.as_str(),
                "True",
            ) {
                return true;
            }
            i = i + 1;
        }
    }
    false
}

/// The plan for a sandbox without a pending resize: drop a `RestartRequired` that
/// no longer holds.
pub open spec fn clear_plan(sandbox: Sandbox, now: Time) -> PlanView {
    PlanView {
        effects: if restart_flagged(sandbox) {
            seq![
                EffectView::PatchConditions(
                    with_restart_required(sandbox, false, "Resized"@, "resize applied"@, now),
                ),
            ]
        } else {
            Seq::empty()
        },
        action: running_action_of(sandbox, now),
    }
}

/// Clear a stale `RestartRequired: True` once its resize was applied. Nothing is
/// recorded unless the flag is set.
pub fn clear_restart_required(sandbox: &Sandbox, now: Time) -> (p: Plan)
    ensures
        p@ == clear_plan(*sandbox, now),
{
    if !restart_is_flagged(sandbox) {
        return plan::idle(running_action(sandbox, now));
    }
    let cs = set_restart_required(sandbox, false, "Resized", "resize applied", now);
    plan::single(Effect::PatchConditions(cs), running_action(sandbox, now))
}

/// Whether a changed dimension has no headroom: it cannot be resized live.
pub open spec fn lacks_headroom(sandbox: Sandbox) -> bool {
    ||| observe::cpus_changed(sandbox) && sandbox.spec.max_cpus is None
    ||| observe::memory_changed(sandbox) && sandbox.spec.max_memory is None
}

pub const NO_HEADROOM_TEXT: &'static str =
    "spec.cpus/spec.memory changed but the sandbox booted without hotplug headroom (set maxCpus/maxMemory above cpus/memory at creation); restart the sandbox (desiredState Stopped then Running) to apply";

/// What a failed live resize is reported as.
pub open spec fn unreachable_text(error: Seq<char>) -> Seq<char> {
    "live resize failed ("@ + error
        + "); restart the sandbox (desiredState Stopped then Running) to apply spec.cpus/spec.memory"@
}

/// The plan once the control endpoint has answered: record what was applied, and
/// whether a restart is required for the rest.
pub open spec fn resized_plan(sandbox: Sandbox, now: Time, replies: ResizeReplies) -> PlanView {
    let asked_cpus = observe::cpus_changed(sandbox);
    let cpus_failed = asked_cpus && replies.cpus_failed();
    let asked_memory = observe::memory_changed(sandbox) && !cpus_failed;
    let memory_failed = asked_memory && replies.memory_failed();
    PlanView {
        effects: seq![
            EffectView::PatchResize {
                applied_cpus: if asked_cpus && !cpus_failed {
                    Some(sandbox.spec.cpus)
                } else {
                    prior(sandbox).applied_cpus
                },
                applied_memory: if asked_memory && !memory_failed {
                    Some(sandbox.spec.memory)
                } else {
                    prior(sandbox).applied_memory
                },
                conditions: if cpus_failed {
                    with_restart_required(
                        sandbox,
                        true,
                        "ControlSocketUnreachable"@,
                        unreachable_text(resize::resize_error_text(replies.cpus->0->Err_0)),
                        now,
                    )
                } else if memory_failed {
                    with_restart_required(
                        sandbox,
                        true,
                        "ControlSocketUnreachable"@,
                        unreachable_text(resize::resize_error_text(replies.memory->0->Err_0)),
                        now,
                    )
                } else {
                    with_restart_required(sandbox, false, "Resized"@, "resize applied live"@, now)
                },
            },
        ],
        action: running_action_of(sandbox, now),
    }
}

/// What comes of a resize, given what the control endpoint has answered so far.
pub open spec fn resize_outcome(
    sandbox: Sandbox,
    cfg: ControllerConfig,
    now: Time,
    replies: ResizeReplies,
) -> Result<StepView, ErrorView> {
    if !observe::cpus_changed(sandbox) && !observe::memory_changed(sandbox) {
        Ok(StepView::Done(clear_plan(sandbox, now)))
    } else if lacks_headroom(sandbox) {
        Ok(
            StepView::Done(
                PlanView {
                    effects: seq![
                        EffectView::PatchConditions(
                            with_restart_required(
                                sandbox,
                                true,
                                "NoHotplugHeadroom"@,
                                NO_HEADROOM_TEXT@,
                                now,
                            ),
                        ),
                    ],
                    action: running_action_of(sandbox, now),
                },
            ),
        )
    } else {
        match (prior(sandbox).service_name, sandbox.metadata.namespace) {
            (None, _) => Ok(StepView::Done(plan::idle_view(plan::soon()))),
            (Some(_), None) => Err(
                ErrorView::MissingObjectKey {
                    sandbox: sandbox.metadata.any_name(),
                    key: "namespace"@,
                },
            ),
            (Some(svc), Some(ns)) => {
                let url = resize::control_url_of(svc, ns@, cfg.bridge_control_port);
                if observe::cpus_changed(sandbox) && replies.cpus is None {
                    Ok(
                        StepView::AskCpus {
                            url,
                            request: resize::cpu_request_text(sandbox.spec.cpus),
                        },
                    )
                } else if observe::memory_changed(sandbox) && replies.memory is None && !(
                observe::cpus_changed(sandbox) && replies.cpus_failed()) {
                    Ok(
                        StepView::AskMemory {
                            url,
                            request: resize::memory_request_text(sandbox.spec.memory),
                        },
                    )
                } else {
                    Ok(StepView::Done(resized_plan(sandbox, now, replies)))
                }
            },
        }
    }
}

/// The plan once the control endpoint has answered.
fn record_resize(sandbox: &Sandbox, now: Time, replies: &ResizeReplies) -> (p: Plan)
    requires
        observe::cpus_changed(*sandbox) ==> replies.cpus is Some,
        observe::memory_changed(*sandbox) && !(observe::cpus_changed(*sandbox)
            && replies.cpus_failed()) ==> replies.memory is Some,
    ensures
        p@ == resized_plan(*sandbox, now, *replies),
{
    let (mut applied_cpus, mut applied_memory) = match &sandbox.status {
        Some(s) => (s.applied_cpus, s.applied_memory),
        None => (None, None),
    };
    let mut live_error: Option<String> = None;
    if observe::cpus_pending(sandbox) {
        match &replies.cpus {
            Some(Err(e)) => {
                live_error = Some(e.message());
            },
            _ => {
                applied_cpus = Some(sandbox.spec.cpus);
            },
        }
    }
    if live_error.is_none() && observe::memory_pending(sandbox) {
        match &replies.memory {
            Some(Err(e)) => {
                live_error = Some(e.message());
            },
            _ => {
                applied_memory = Some(sandbox.spec.memory);
            },
        }
    }
    let conditions = match &live_error {
        Some(error) => {
            let message = "live resize failed (".to_owned().concat(error.as_str()).concat(
                "); restart the sandbox (desiredState Stopped then Running) to apply spec.cpus/spec.memory",
            );
            set_restart_required(
                sandbox,
                true,
                "ControlSocketUnreachable",
                message.as_str(),
                now,
            )
        },
        None => set_restart_required(sandbox, false, "Resized", "resize applied live", now),
    };
    plan::single(
        Effect::PatchResize { applied_cpus, applied_memory, conditions },
        running_action(sandbox, now),
    )
}

/// Applies a pending `spec.cpus`/`spec.memory` edit to an already-Running sandbox:
/// live over the bridge control endpoint when the sandbox booted with hotplug
/// headroom, else `RestartRequired`. Never a silent no-op, never an automatic
/// restart, which would lose guest state. Memory is asked for once vCPUs have been
/// applied.
pub fn reconcile_resize(
    sandbox: &Sandbox,
    cfg: &ControllerConfig,
    now: Time,
    replies: &ResizeReplies,
) -> (r: Result<Step, Error>)
    ensures
        collections::res(r) == resize_outcome(*sandbox, *cfg, now, *replies),
{
    if !observe::resize_pending(sandbox) {
        return Ok(Step::Done(clear_restart_required(sandbox, now)));
    }
    let cpus = observe::cpus_pending(sandbox);
    let memory = observe::memory_pending(sandbox);
    if (cpus && !resize::cpus_have_headroom(&sandbox.spec)) || (memory
        && !resize::memory_has_headroom(&sandbox.spec)) {
        let cs = set_restart_required(sandbox, true, "NoHotplugHeadroom", NO_HEADROOM_TEXT, now);
        return Ok(
            Step::Done(
                plan::single(Effect::PatchConditions(cs), running_action(sandbox, now)),
            ),
        );
    }
    let service_name = match prior_service_name(sandbox) {
        Some(s) => s,
        None => {
            return Ok(Step::Done(plan::idle(plan::requeue_soon())));
        },
    };
    let namespace = match &sandbox.metadata.namespace {
        Some(ns) => ns,
        None => {
            return Err(
                Error::MissingObjectKey {
                    sandbox: sandbox.metadata.name_any(),
                    key: "namespace",
                },
            );
        },
    };
    let url = resize::control_url(
        service_name.as_str(),
        namespace.as_str(),
        cfg.bridge_control_port,
    );
    if cpus && replies.cpus.is_none() {
        return Ok(
            Step::AskCpus { url, request: resize::cpu_target_request(sandbox.spec.cpus) },
        );
    }
    let cpus_failed = cpus && matches!(replies.cpus, Some(Err(_)));
    if memory && replies.memory.is_none() && !cpus_failed {
        return Ok(
            Step::AskMemory { url, request: resize::memory_target_request(sandbox.spec.memory) },
        );
    }
    Ok(Step::Done(record_resize(sandbox, now, replies)))
}

/// What comes of a pod that is up and whose bridge can be dialed: record it, or,
/// where it is recorded, resize it.
pub open spec fn up_outcome(sandbox: Sandbox, pod: Pod, cfg: ControllerConfig, now: Time) -> Result<
    StepView,
    ErrorView,
> {
    if sandbox.phase() == Some(SandboxPhase::Running) {
        resize_outcome(sandbox, cfg, now, (ResizeReplies { cpus: None, memory: None }))
    } else {
        Ok(StepView::Done(running_plan(sandbox, pod, now)))
    }
}

/// The pod is up: record it, or, where it is recorded, resize it.
pub fn mark_running(sandbox: &Sandbox, pod: &Pod, cfg: &ControllerConfig, now: Time) -> (r: Result<
    Step,
    Error,
>)
    ensures
        collections::res(r) == up_outcome(*sandbox, *pod, *cfg, now),
{
    if observe::was_running(sandbox) {
        let none = ResizeReplies::none();
        assert(none == (ResizeReplies { cpus: None, memory: None }));
        return reconcile_resize(sandbox, cfg, now, &none);
    }
    Ok(Step::Done(record_running(sandbox, pod, now)))
}

/// What comes of a sandbox without a pod.
pub open spec fn absent_outcome(
    sandbox: Sandbox,
    cfg: ControllerConfig,
    now: Time,
    spec_json: Result<Seq<char>, Seq<char>>,
) -> Result<StepView, ErrorView> {
    if sandbox.spec.desired_state == DesiredState::Stopped {
        Ok(StepView::Done(stopped_plan(sandbox, now)))
    } else if observe::terminal(sandbox) {
        Ok(StepView::Done(plan::idle_view(Action::AwaitChange)))
    } else if sandbox.phase() == Some(SandboxPhase::Running) {
        Ok(StepView::Done(vanished_plan(sandbox, now)))
    } else {
        match service::first_conflict(cfg, sandbox.spec.network.published_ports@) {
            Some(port) => Ok(StepView::Done(conflict_plan(sandbox, port, now))),
            None => match create_outcome(sandbox, cfg, spec_json) {
                Ok(p) => Ok(StepView::Done(p)),
                Err(e) => Err(e),
            },
        }
    }
}

/// What comes of a sandbox whose pod is there.
pub open spec fn present_outcome(
    sandbox: Sandbox,
    pod: Pod,
    cfg: ControllerConfig,
    now: Time,
) -> Result<StepView, ErrorView> {
    if sandbox.spec.desired_state == DesiredState::Stopped {
        let rest = stopped_plan(sandbox, now);
        Ok(
            StepView::Done(
                PlanView {
                    effects: (if pod.metadata.deletion_timestamp is None {
                        seq![EffectView::DeletePod(pod.metadata.any_name())]
                    } else {
                        Seq::empty()
                    }) + rest.effects,
                    action: rest.action,
                },
            ),
        )
    } else if pod.metadata.deletion_timestamp is Some {
        Ok(StepView::Done(plan::idle_view(plan::soon())))
    } else if observe::runtime_end(pod) is Some {
        Ok(StepView::Done(terminate_plan(sandbox, pod, now)))
    } else if observe::phase_of(pod) == Some("Running"@) {
        if observe::bridge_is_ready(pod) {
            up_outcome(sandbox, pod, cfg, now)
        } else {
            Ok(StepView::Done(plan::idle_view(plan::soon())))
        }
    } else if observe::phase_of(pod) == Some("Succeeded"@) || observe::phase_of(pod) == Some(
        "Failed"@,
    ) {
        Ok(StepView::Done(terminate_plan(sandbox, pod, now)))
    } else {
        Ok(StepView::Done(plan::idle_view(plan::soon())))
    }
}

/// What a reconcile comes to.
pub open spec fn reconcile_outcome(
    sandbox: Sandbox,
    existing: Option<Pod>,
    cfg: ControllerConfig,
    now: Time,
    spec_json: Result<Seq<char>, Seq<char>>,
) -> Result<StepView, ErrorView> {
    if sandbox.metadata.namespace is None {
        Err(
            ErrorView::MissingObjectKey {
                sandbox: sandbox.metadata.any_name(),
                key: "namespace"@,
            },
        )
    } else if observe::expired(sandbox, now) {
        Ok(StepView::Done(expire_plan(sandbox, now)))
    } else {
        match existing {
            None => absent_outcome(sandbox, cfg, now, spec_json),
            Some(pod) => present_outcome(sandbox, pod, cfg, now),
        }
    }
}

/// Whether a sandbox without a pod is restarted: its pod vanished, under a policy
/// that asks for another.
pub open spec fn absent_restart(sandbox: Sandbox) -> bool {
    &&& sandbox.spec.desired_state != DesiredState::Stopped
    &&& sandbox.phase() == Some(SandboxPhase::Running)
    &&& retries(sandbox.spec.run_policy, false)
}

/// Whether a sandbox whose pod is there is restarted: it ended, under a policy that
/// asks for another try.
pub open spec fn present_restart(sandbox: Sandbox, pod: Pod) -> bool {
    &&& sandbox.spec.desired_state != DesiredState::Stopped
    &&& pod.metadata.deletion_timestamp is None
    &&& observe::runtime_end(pod) is Some || observe::phase_of(pod) == Some("Succeeded"@)
        || observe::phase_of(pod) == Some("Failed"@)
    &&& retries(sandbox.spec.run_policy, succeeded(pod))
}

/// The pod that a lookup found.
pub open spec fn existing_pod(existing: Option<&Pod>) -> Option<Pod> {
    match existing {
        Some(p) => Some(*p),
        None => None,
    }
}

/// Whether a reconcile counts one restart more.
pub open spec fn restart_due(sandbox: Sandbox, existing: Option<Pod>, now: Time) -> bool {
    &&& sandbox.metadata.namespace is Some
    &&& !observe::expired(sandbox, now)
    &&& match existing {
        None => absent_restart(sandbox),
        Some(pod) => present_restart(sandbox, pod),
    }
}

/// Whether a reconcile counts one restart more. There is no plan for a sandbox whose
/// count is full.
pub fn is_restart_due(sandbox: &Sandbox, existing: Option<&Pod>, now: Time) -> (r: bool)
    ensures
        r == restart_due(*sandbox, existing_pod(existing), now),
{
    if sandbox.metadata.namespace.is_none() || observe::is_expired(sandbox, now)
        || observe::desired_stopped(sandbox) {
        return false;
    }
    match existing {
        None => observe::was_running(sandbox) && retrying(sandbox.spec.run_policy, false),
        Some(pod) => pod.metadata.deletion_timestamp.is_none() && (observe::runtime_terminated(pod)
            || observe::in_phase(pod, "Succeeded") || observe::in_phase(pod, "Failed")) && retrying(
            sandbox.spec.run_policy,
            ended_well(pod),
        ),
    }
}

fn reconcile_absent(
    sandbox: &Sandbox,
    cfg: &ControllerConfig,
    now: Time,
    spec_json: Result<String, String>,
) -> (r: Result<Step, Error>)
    requires
        absent_restart(*sandbox) ==> prior(*sandbox).restart_count < u32::MAX,
    ensures
        collections::res(r) == absent_outcome(*sandbox, *cfg, now, collections::res(spec_json)),
{
    if observe::desired_stopped(sandbox) {
        return Ok(Step::Done(mark_stopped(sandbox, now)));
    }
    // A terminal sandbox must not resurrect its pod.
    if observe::is_terminal(sandbox) {
        return Ok(Step::Done(plan::idle(plan::finish())));
    }
    // A pod that was Running and is now gone vanished uncleanly: node loss, eviction,
    // or an external delete.
    if observe::was_running(sandbox) {
        return Ok(Step::Done(handle_vanished_pod(sandbox, now)));
    }
    if let Some(port) = service::reserved_port_conflict(sandbox, cfg) {
        return Ok(Step::Done(mark_port_conflict(sandbox, port, now)));
    }
    match create_pod(sandbox, cfg, spec_json) {
        Ok(p) => Ok(Step::Done(p)),
        Err(e) => Err(e),
    }
}

fn reconcile_present(sandbox: &Sandbox, pod: &Pod, cfg: &ControllerConfig, now: Time) -> (r: Result<
    Step,
    Error,
>)
    requires
        present_restart(*sandbox, *pod) ==> prior(*sandbox).restart_count < u32::MAX,
    ensures
        collections::res(r) == present_outcome(*sandbox, *pod, *cfg, now),
{
    if observe::desired_stopped(sandbox) {
        let rest = mark_stopped(sandbox, now);
        // A pod on its way out is not deleted again.
        if pod.metadata.deletion_timestamp.is_none() {
            return Ok(
                Step::Done(plan::do_first(Effect::DeletePod(pod.metadata.name_any()), rest)),
            );
        }
        assert(Seq::<EffectView>::empty() + rest@.effects =~= rest@.effects);
        return Ok(Step::Done(rest));
    }
    // A pod on its way out still reports its terminal phase until it is gone. Acting
    // on it again would count the restart twice.
    if pod.metadata.deletion_timestamp.is_some() {
        return Ok(Step::Done(plan::idle(plan::requeue_soon())));
    }
    // The runtime container is the VMM's parent: when it exits, the sandbox is over
    // even if the bridge sidecar keeps the pod in phase Running.
    if observe::runtime_terminated(pod) {
        return Ok(Step::Done(terminate(sandbox, pod, now)));
    }
    // Running is gated on the bridge: the Service has no endpoints until it is ready.
    if observe::in_phase(pod, "Running") {
        if observe::bridge_ready(pod) {
            return mark_running(sandbox, pod, cfg, now);
        }
        return Ok(Step::Done(plan::idle(plan::requeue_soon())));
    }
    if observe::in_phase(pod, "Succeeded") || observe::in_phase(pod, "Failed") {
        return Ok(Step::Done(terminate(sandbox, pod, now)));
    }
    Ok(Step::Done(plan::idle(plan::requeue_soon())))
}

/// One reconcile of a sandbox, given its pod, where there is one, and its
/// specification as JSON. Expiry comes before anything else, so that a pod deleted
/// then is never taken for one that vanished.
pub fn reconcile(
    sandbox: &Sandbox,
    existing: Option<&Pod>,
    cfg: &ControllerConfig,
    now: Time,
    spec_json: Result<String, String>,
) -> (r: Result<Step, Error>)
    requires
        restart_due(*sandbox, existing_pod(existing), now) ==> prior(*sandbox).restart_count
            < u32::MAX,
    ensures
        collections::res(r) == reconcile_outcome(
            *sandbox,
            existing_pod(existing),
            *cfg,
            now,
            collections::res(spec_json),
        ),
{
    if sandbox.metadata.namespace.is_none() {
        return Err(
            Error::MissingObjectKey { sandbox: sandbox.metadata.name_any(), key: "namespace" },
        );
    }
    if observe::is_expired(sandbox, now) {
        return Ok(Step::Done(expire(sandbox, now)));
    }
    match existing {
        None => reconcile_absent(sandbox, cfg, now, spec_json),
        Some(pod) => reconcile_present(sandbox, pod, cfg, now),
    }
}

} // verus!
