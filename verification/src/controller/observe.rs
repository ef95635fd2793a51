//! What the controller reads off a sandbox and its pod.

use vstd::prelude::*;

use crate::controller::pod::{BRIDGE_CONTAINER, RUNTIME_CONTAINER};
use crate::k8s::{ContainerStateTerminated, ContainerStatus, Pod};
use crate::sandbox::{DesiredState, Sandbox, SandboxPhase, TerminationReason};
use crate::text;
use crate::time;
use crate::time::Time;

verus! {

/// Why the sandbox ended, as an annotation of its pod may say.
pub const ANN_TERMINATION_REASON: &'static str = "microsandbox.dev/termination-reason";

/// When the sandbox ended, as an annotation of its pod may say.
pub const ANN_TERMINATED_AT: &'static str = "microsandbox.dev/terminated-at";

/// The status of the first container named `name`.
pub open spec fn container_named(cs: Seq<ContainerStatus>, name: Seq<char>) -> Option<
    ContainerStatus,
>
    decreases cs.len(),
{
    if cs.len() == 0 {
        None
    } else if cs[0].name@ == name {
        Some(cs[0])
    } else {
        container_named(cs.drop_first(), name)
    }
}

fn find_container<'a>(cs: &'a Vec<ContainerStatus>, name: &str) -> (r: Option<&'a ContainerStatus>)
    ensures
        r is Some <==> container_named(cs@, name@) is Some,
        r matches Some(c) ==> container_named(cs@, name@) == Some(*c),
{
    let mut i: usize = 0;
    assert(cs@.skip(0) =~= cs@);
    while i < cs.len()
        invariant
            i <= cs.len(),
            container_named(cs@, name@) == container_named(cs@.skip(i as int), name@),
        decreases cs.len() - i,
    {
        assert(cs@.skip(i as int)[0] == cs@[i as int]);
        if text::same(cs[i].name.as_str(), name) {
            return Some(&cs[i]);
        }
        assert(cs@.skip(i as int).drop_first() =~= cs@.skip(i + 1));
        i = i + 1;
    }
    None
}

/// Whether the bridge sidecar of a pod is ready.
pub open spec fn bridge_is_ready(pod: Pod) -> bool {
    match pod.status {
        Some(s) => match container_named(s.init_container_statuses@, BRIDGE_CONTAINER@) {
            Some(c) => c.ready,
            None => false,
        },
        None => false,
    }
}

/// True once the `msb-bridge` sidecar has passed its readiness probe. As a native
/// sidecar it is an init container; its readiness is what gates the Service
/// endpoint.
pub fn bridge_ready(pod: &Pod) -> (r: bool)
    ensures
        r == bridge_is_ready(*pod),
{
    match &pod.status {
        Some(s) => match find_container(&s.init_container_statuses, BRIDGE_CONTAINER) {
            Some(c) => c.ready,
            None => false,
        },
        None => false,
    }
}

/// How the runtime container of a pod ended, where it has.
pub open spec fn runtime_end(pod: Pod) -> Option<ContainerStateTerminated> {
    match pod.status {
        Some(s) => match container_named(s.container_statuses@, RUNTIME_CONTAINER@) {
            Some(c) => c.terminated,
            None => None,
        },
        None => None,
    }
}

/// The `msb-runtime` container's terminated state, if it has exited. The runtime
/// is the VMM's parent, so this is the authoritative signal for the sandbox's own
/// lifecycle, independent of the bridge sidecar and the pod's overall phase.
pub fn runtime_terminated_state(pod: &Pod) -> (r: Option<&ContainerStateTerminated>)
    ensures
        r is Some <==> runtime_end(*pod) is Some,
        r matches Some(t) ==> runtime_end(*pod) == Some(*t),
{
    match &pod.status {
        Some(s) => match find_container(&s.container_statuses, RUNTIME_CONTAINER) {
            Some(c) => c.terminated.as_ref(),
            None => None,
        },
        None => None,
    }
}

/// True once the `msb-runtime` container has terminated: the sandbox itself has
/// ended, whatever the pod's overall phase.
pub fn runtime_terminated(pod: &Pod) -> (r: bool)
    ensures
        r == runtime_end(*pod) is Some,
{
    runtime_terminated_state(pod).is_some()
}

/// The exit code of the runtime container.
pub open spec fn exit_code_of(pod: Pod) -> Option<i32> {
    match runtime_end(pod) {
        Some(t) => Some(t.exit_code),
        None => None,
    }
}

/// The runtime container's exit code, if it has terminated.
pub fn runtime_exit_code(pod: &Pod) -> (r: Option<i32>)
    ensures
        r == exit_code_of(*pod),
{
    match runtime_terminated_state(pod) {
        Some(t) => Some(t.exit_code),
        None => None,
    }
}

/// The phase that the kubelet reports of a pod.
pub open spec fn phase_of(pod: Pod) -> Option<Seq<char>> {
    match pod.status {
        Some(s) => match s.phase {
            Some(p) => Some(p@),
            None => None,
        },
        None => None,
    }
}

/// The phase that the kubelet reports of a pod.
pub fn pod_phase(pod: &Pod) -> (r: Option<&str>)
    ensures
        r is Some <==> phase_of(*pod) is Some,
        r matches Some(p) ==> phase_of(*pod) == Some(p@),
{
    match &pod.status {
        Some(s) => match &s.phase {
            Some(p) => Some(p.as_str()),
            None => None,
        },
        None => None,
    }
}

/// Whether the kubelet reports the phase `phase` of a pod.
pub fn in_phase(pod: &Pod, phase: &str) -> (r: bool)
    ensures
        r == (phase_of(*pod) == Some(phase@)),
{
    match pod_phase(pod) {
        Some(p) => text::same(p, phase),
        None => false,
    }
}

/// How a termination reason is written down.
pub open spec fn wire_name(reason: TerminationReason) -> Seq<char> {
    match reason {
        TerminationReason::OomKilled => "OOMKilled"@,
        _ => reason.label(),
    }
}

/// The termination reason of this written name. An unrecognised reason yields
/// none, not an error: a value msb adds later must not block the record that the
/// sandbox terminated.
pub fn parse_termination_reason(value: &str) -> (r: Option<TerminationReason>)
    ensures
        r matches Some(x) ==> value@ == wire_name(x),
        r is None <==> forall|x: TerminationReason| value@ != #[trigger] wire_name(x),
{
    let all = [
        TerminationReason::Completed,
        TerminationReason::MaxDurationExceeded,
        TerminationReason::IdleTimeout,
        TerminationReason::ShutdownRequested,
        TerminationReason::Failed,
        TerminationReason::OomKilled,
        TerminationReason::Evicted,
        TerminationReason::NodeLost,
        TerminationReason::Expired,
    ];
    let mut i: usize = 0;
    while i < 9
        invariant
            i <= 9,
            all@.len() == 9,
            forall|k: int| 0 <= k < i ==> value@ != #[trigger] wire_name(all@[k]),
        decreases 9 - i,
    {
        let reason = all[i];
        let name = match reason {
            TerminationReason::OomKilled => "OOMKilled",
            _ => reason.name(),
        };
        assert(name@ == wire_name(reason));
        if text::same(value, name) {
            return Some(reason);
        }
        i = i + 1;
    }
    proof {
        assert forall|x: TerminationReason| value@ != #[trigger] wire_name(x) by {
            let k: int = match x {
                TerminationReason::Completed => 0,
                TerminationReason::MaxDurationExceeded => 1,
                TerminationReason::IdleTimeout => 2,
                TerminationReason::ShutdownRequested => 3,
                TerminationReason::Failed => 4,
                TerminationReason::OomKilled => 5,
                TerminationReason::Evicted => 6,
                TerminationReason::NodeLost => 7,
                TerminationReason::Expired => 8,
            };
            assert(all@[k] == x);
            assert(value@ != wire_name(all@[k]));
        }
    }
    None
}

/// Two reasons are never written alike.
pub proof fn wire_names_differ(a: TerminationReason, b: TerminationReason)
    requires
        wire_name(a) == wire_name(b),
    ensures
        a == b,
{
    reveal_strlit("Completed");
    reveal_strlit("MaxDurationExceeded");
    reveal_strlit("IdleTimeout");
    reveal_strlit("ShutdownRequested");
    reveal_strlit("Failed");
    reveal_strlit("OOMKilled");
    reveal_strlit("Evicted");
    reveal_strlit("NodeLost");
    reveal_strlit("Expired");
    let x = wire_name(a);
    let y = wire_name(b);
    assert(x.len() == y.len());
    assert(x[0] == y[0]);
    assert(x[1] == y[1]);
    assert(x[2] == y[2]);
}

/// Why the sandbox ended, as the status of its pod tells: eviction of the pod
/// comes first, then how the runtime container ended.
pub open spec fn reason_of(pod: Pod) -> Option<TerminationReason> {
    if pod.status is Some && pod.status->0.reason is Some && pod.status->0.reason->0@
        == "Evicted"@ {
        Some(TerminationReason::Evicted)
    } else {
        match runtime_end(pod) {
            None => None,
            Some(t) => if t.reason is Some && t.reason->0@ == "OOMKilled"@ {
                Some(TerminationReason::OomKilled)
            } else if t.exit_code == 0 {
                Some(TerminationReason::Completed)
            } else {
                Some(TerminationReason::Failed)
            },
        }
    }
}

/// Termination reason from Pod status: the runtime container's terminated reason
/// and exit code, plus a pod-level `Evicted`.
pub fn reason_from_pod(pod: &Pod) -> (r: Option<TerminationReason>)
    ensures
        r == reason_of(*pod),
{
    if let Some(s) = &pod.status {
        if let Some(reason) = &s.reason {
            if text::same(reason.as_str(), "Evicted") {
                return Some(TerminationReason::Evicted);
            }
        }
    }
    let terminated = match runtime_terminated_state(pod) {
        Some(t) => t,
        None => {
            return None;
        },
    };
    if let Some(reason) = &terminated.reason {
        if text::same(reason.as_str(), "OOMKilled") {
            return Some(TerminationReason::OomKilled);
        }
    }
    if terminated.exit_code == 0 {
        Some(TerminationReason::Completed)
    } else {
        Some(TerminationReason::Failed)
    }
}

/// The reason that an annotation of the pod names.
pub open spec fn annotated_reason(pod: Pod) -> Option<TerminationReason> {
    let a = pod.metadata.annotations@;
    if a.dom().contains(ANN_TERMINATION_REASON@) && exists|x: TerminationReason|
        #[trigger] wire_name(x) == a[ANN_TERMINATION_REASON@] {
        Some(
            choose|x: TerminationReason| #[trigger] wire_name(x) == a[ANN_TERMINATION_REASON@],
        )
    } else {
        None
    }
}

/// Why the sandbox ended: what an annotation of the pod names, else what the
/// status of the pod tells.
pub open spec fn termination_reason_of(pod: Pod) -> Option<TerminationReason> {
    match annotated_reason(pod) {
        Some(x) => Some(x),
        None => reason_of(pod),
    }
}

/// Why the sandbox ended.
pub fn termination_reason(pod: &Pod) -> (r: Option<TerminationReason>)
    ensures
        r == termination_reason_of(*pod),
{
    if let Some(value) = pod.metadata.annotations.get(ANN_TERMINATION_REASON) {
        if let Some(x) = parse_termination_reason(value.as_str()) {
            proof {
                let y = annotated_reason(*pod)->0;
                assert(wire_name(x) == value@);
                wire_names_differ(x, y);
            }
            return Some(x);
        }
    }
    reason_from_pod(pod)
}

/// When the sandbox ended: what an annotation of the pod says, where it holds a
/// timestamp, else `now`.
pub open spec fn terminated_instant(pod: Pod, now: Time) -> int {
    let a = pod.metadata.annotations@;
    if a.dom().contains(ANN_TERMINATED_AT@) {
        match time::parsed_timestamp(a[ANN_TERMINATED_AT@]) {
            Some(t) => t,
            None => now@,
        }
    } else {
        now@
    }
}

/// When the sandbox ended.
pub fn terminated_at(pod: &Pod, now: Time) -> (t: Time)
    ensures
        t@ == terminated_instant(*pod, now),
{
    if let Some(value) = pod.metadata.annotations.get(ANN_TERMINATED_AT) {
        if let Some(t) = time::parse_timestamp(value.as_str()) {
            return t;
        }
    }
    now
}

/// True if the sandbox's last recorded phase was `Running`: what tells a pod that
/// vanished mid-run from one not yet created.
pub fn was_running(sandbox: &Sandbox) -> (r: bool)
    ensures
        r == (sandbox.phase() == Some(SandboxPhase::Running)),
{
    matches!(sandbox.recorded_phase(), Some(SandboxPhase::Running))
}

/// Whether the user wants the sandbox at rest.
pub fn desired_stopped(sandbox: &Sandbox) -> (r: bool)
    ensures
        r == (sandbox.spec.desired_state == DesiredState::Stopped),
{
    sandbox.spec.desired_state == DesiredState::Stopped
}

/// Whether the sandbox has ended for good.
pub open spec fn terminal(sandbox: Sandbox) -> bool {
    sandbox.phase() == Some(SandboxPhase::Succeeded) || sandbox.phase() == Some(
        SandboxPhase::Failed,
    )
}

/// Whether the sandbox has ended for good.
pub fn is_terminal(sandbox: &Sandbox) -> (r: bool)
    ensures
        r == terminal(*sandbox),
{
    matches!(sandbox.recorded_phase(), Some(SandboxPhase::Succeeded) | Some(SandboxPhase::Failed))
}

/// Whether the `shutdown_time` deadline of the sandbox has passed.
pub open spec fn expired(sandbox: Sandbox, now: Time) -> bool {
    match sandbox.spec.lifecycle.shutdown_time {
        Some(d) => now@ >= d@,
        None => false,
    }
}

/// Whether the `shutdown_time` deadline of the sandbox has passed.
pub fn is_expired(sandbox: &Sandbox, now: Time) -> (r: bool)
    ensures
        r == expired(*sandbox, now),
{
    match sandbox.spec.lifecycle.shutdown_time {
        Some(d) => now.at_or_after(d),
        None => false,
    }
}

/// Whether `spec.cpus` differs from what was last confirmed applied.
pub open spec fn cpus_changed(sandbox: Sandbox) -> bool {
    sandbox.status is Some && sandbox.status->0.applied_cpus != Some(sandbox.spec.cpus)
}

/// Whether `spec.memory` differs from what was last confirmed applied.
pub open spec fn memory_changed(sandbox: Sandbox) -> bool {
    sandbox.status is Some && sandbox.status->0.applied_memory != Some(sandbox.spec.memory)
}

/// Whether an applied value is the wanted one.
fn applied(value: Option<u32>, wanted: u32) -> (r: bool)
    ensures
        r == (value == Some(wanted)),
{
    match value {
        Some(v) => v == wanted,
        None => false,
    }
}

/// Whether `spec.cpus` differs from what was last confirmed applied.
pub fn cpus_pending(sandbox: &Sandbox) -> (r: bool)
    ensures
        r == cpus_changed(*sandbox),
{
    match &sandbox.status {
        Some(s) => !applied(s.applied_cpus, sandbox.spec.cpus),
        None => false,
    }
}

/// Whether `spec.memory` differs from what was last confirmed applied.
pub fn memory_pending(sandbox: &Sandbox) -> (r: bool)
    ensures
        r == memory_changed(*sandbox),
{
    match &sandbox.status {
        Some(s) => !applied(s.applied_memory, sandbox.spec.memory),
        None => false,
    }
}

/// Whether `spec.cpus`/`spec.memory` differ from what was last confirmed applied:
/// the signal that a resize is pending.
pub fn resize_pending(sandbox: &Sandbox) -> (r: bool)
    ensures
        r == (cpus_changed(*sandbox) || memory_changed(*sandbox)),
{
    cpus_pending(sandbox) || memory_pending(sandbox)
}

/// Seconds to wait for a deadline: at least one, as a past deadline would
/// otherwise requeue at once, over and over.
pub open spec fn wait_secs(deadline: Time, now: Time) -> int {
    let s = time::secs_until(now, deadline);
    if s < 1 {
        1
    } else {
        s
    }
}

/// Seconds to wait for a deadline, at least one.
pub fn requeue_until(deadline: Time, now: Time) -> (s: u64)
    ensures
        s == wait_secs(deadline, now),
        s >= 1,
{
    let s: u64 = time::seconds_until(now, deadline);
    if s < 1 {
        1
    } else {
        s
    }
}

/// 5 seconds, doubled once for each restart.
pub open spec fn doubled(restarts: nat) -> nat
    decreases restarts,
{
    if restarts == 0 {
        5
    } else {
        2 * doubled((restarts - 1) as nat)
    }
}

/// The longest pause between two restarts, in seconds.
pub const BACKOFF_CAP_SECS: u64 = 300;

/// The pause before a restart: 5 seconds, doubled for each restart before it, and
/// 300 at most.
pub open spec fn backoff(restarts: nat) -> nat {
    if doubled(restarts) > BACKOFF_CAP_SECS {
        BACKOFF_CAP_SECS as nat
    } else {
        doubled(restarts)
    }
}

/// Doubling does not shrink.
pub proof fn doubled_grows(a: nat, b: nat)
    requires
        a <= b,
    ensures
        5 <= doubled(a) <= doubled(b),
    decreases b,
{
    if a < b {
        doubled_grows(a, (b - 1) as nat);
    } else if a > 0 {
        doubled_grows((a - 1) as nat, (a - 1) as nat);
    }
}

/// Backoff, in seconds, before recreating a pod on `RerunOnFailure`: capped
/// exponential in the restart count.
pub fn retry_backoff(restart_count: u32) -> (secs: u64)
    ensures
        secs == backoff(restart_count as nat),
{
    let mut secs: u64 = 5;
    let mut i: u32 = 0;
    while i < restart_count && i < 6
        invariant
            i <= restart_count,
            i <= 6,
            secs == doubled(i as nat),
            secs <= 320,
            i < 6 ==> secs <= 160,
        decreases 6 - i,
    {
        i = i + 1;
        secs = 2 * secs;
        proof {
            reveal_with_fuel(doubled, 7);
        }
    }
    proof {
        doubled_grows(i as nat, restart_count as nat);
        reveal_with_fuel(doubled, 7);
    }
    if secs > BACKOFF_CAP_SECS {
        BACKOFF_CAP_SECS
    } else {
        secs
    }
}

/// The pause never shrinks as restarts add up, and stays between 5 seconds and the
/// cap.
pub proof fn backoff_grows_to_the_cap(a: nat, b: nat)
    requires
        a <= b,
    ensures
        5 <= backoff(a) <= backoff(b) <= BACKOFF_CAP_SECS,
{
    doubled_grows(a, b);
}

} // verus!
