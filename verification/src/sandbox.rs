//! The `Sandbox` resource: what a user asks for, and what the controller reports.

use vstd::prelude::*;

use crate::collections;
use crate::k8s::{Condition, ConditionView, ObjectMeta, OwnerReference, OwnerReferenceView};
use crate::text;
use crate::time::Time;

verus! {

/// A Kubernetes `resource.Quantity`, such as `4Gi`.
#[derive(Debug, PartialEq)]
pub struct Quantity(pub String);

/// A sandbox: its identity, its specification and its last recorded status.
#[derive(Debug, PartialEq)]
pub struct Sandbox {
    pub metadata: ObjectMeta,
    pub spec: SandboxSpec,
    pub status: Option<SandboxStatus>,
}

/// The API group and version of the `Sandbox` resource.
pub const API_VERSION: &'static str = "sandbox.microsandbox.dev/v1alpha1";

/// The kind of the `Sandbox` resource.
pub const KIND: &'static str = "Sandbox";

/// The reference by which a sandbox owns the objects made for it.
pub open spec fn owner_view(name: Seq<char>, uid: Seq<char>) -> OwnerReferenceView {
    OwnerReferenceView {
        api_version: API_VERSION@,
        kind: KIND@,
        name,
        uid,
        controller: Some(true),
    }
}

impl Sandbox {
    /// The reference by which this sandbox owns the objects made for it. An object
    /// that never came from the API server may lack the name or the uid for it.
    pub fn controller_owner_ref(&self) -> (r: Option<OwnerReference>)
        ensures
            r is Some <==> self.metadata.name is Some && self.metadata.uid is Some,
            r matches Some(o) ==> o@ == owner_view(self.metadata.name->0@, self.metadata.uid->0@),
    {
        match (&self.metadata.name, &self.metadata.uid) {
            (Some(name), Some(uid)) => Some(
                OwnerReference {
                    api_version: API_VERSION.to_owned(),
                    kind: KIND.to_owned(),
                    name: name.clone(),
                    uid: uid.clone(),
                    controller: Some(true),
                },
            ),
            _ => None,
        }
    }

    /// The recorded phase, where one is recorded.
    pub open spec fn phase(self) -> Option<SandboxPhase> {
        match self.status {
            Some(s) => s.phase,
            None => None,
        }
    }

    /// The recorded phase, where one is recorded.
    pub fn recorded_phase(&self) -> (p: Option<SandboxPhase>)
        ensures
            p == self.phase(),
    {
        match &self.status {
            Some(s) => s.phase,
            None => None,
        }
    }
}

/// What a sandbox is to be. Every field but `desired_state`, `cpus`, `memory` and
/// `lifecycle` is sealed at creation.
#[derive(Debug, PartialEq)]
pub struct SandboxSpec {
    /// OCI image for the guest root filesystem. This field is immutable.
    pub image: String,
    /// Desired lifecycle state. `Stopped` removes the pod but keeps the Sandbox,
    /// restartable by setting `Running`. On the current storage model a restart is a
    /// fresh boot (guest state is not preserved). Mutable.
    pub desired_state: DesiredState,
    /// Number of vCPUs. Mutable, up to maxCpus: raising it live-resizes a running
    /// sandbox over the control socket when there is boot headroom, otherwise the
    /// sandbox needs a restart to apply it.
    pub cpus: u32,
    /// Memory in MiB. Mutable, up to maxMemory: raising it live-resizes a running
    /// sandbox over the control socket when there is boot headroom, otherwise the
    /// sandbox needs a restart to apply it.
    pub memory: u32,
    /// Boot-time vCPU ceiling. Unset defaults to `cpus` (no live-resize headroom). This
    /// field is immutable: the VMM reserves vCPU slots for this count at boot, so
    /// raising it after boot requires a new pod.
    pub max_cpus: Option<u32>,
    /// Boot-time memory ceiling in MiB. Unset defaults to `memory` (no live-resize
    /// headroom). This field is immutable: the VMM reserves the virtio-mem hotplug
    /// region for this size at boot, so raising it after boot requires a new pod.
    pub max_memory: Option<u32>,
    /// Command to run inside the guest. Defaults to the image entrypoint. This field is
    /// immutable.
    pub cmd: Vec<String>,
    /// Override the image entrypoint. Empty keeps the image's own entrypoint. This
    /// field is immutable.
    pub entrypoint: Vec<String>,
    /// Plain (non-secret) environment variables set in the guest. This field is
    /// immutable.
    pub env: Vec<EnvVar>,
    /// Working directory for guest commands. This field is immutable.
    pub workdir: Option<String>,
    /// Default shell for guest sessions. This field is immutable.
    pub shell: Option<String>,
    /// User the guest workload runs as (name, uid, or `uid:gid`). This field is
    /// immutable.
    pub user: Option<String>,
    /// Guest hostname. This field is immutable.
    pub hostname: Option<String>,
    /// Whether the client asked for a one-off sandbox. It is reported back to the
    /// client, and has no bearing on the lifecycle.
    pub ephemeral: bool,
    /// Wall-clock expiry deadline and policy. Distinct from
    /// `maxDurationSecs`/`idleTimeoutSecs`, which bound the guest's own runtime.
    pub lifecycle: Lifecycle,
    /// Hard cap on total sandbox lifetime, in seconds. This field is immutable.
    pub max_duration_secs: Option<u64>,
    /// Stop the sandbox after this many seconds with no activity. This field is
    /// immutable.
    pub idle_timeout_secs: Option<u64>,
    /// Restart policy on failure. This field is immutable.
    pub run_policy: RunPolicy,
    /// Secrets injected as env vars inside the guest via the smoltcp proxy. This field
    /// is immutable.
    pub secrets: Vec<SecretEntry>,
    /// Network configuration. This field is immutable.
    pub network: NetworkSpec,
    /// Writable overlay layer configuration. This field is immutable.
    pub upper: UpperSpec,
    /// In-guest hardening applied to exec sessions. This field is immutable.
    pub security_profile: SecurityProfile,
    /// POSIX resource limits applied to guest processes at agentd startup. This field
    /// is immutable.
    pub rlimits: Vec<Rlimit>,
    /// Guest console log capture, opt-in. This field is immutable.
    pub logging: LoggingSpec,
}

/// The number of vCPUs where the user names none.
pub fn default_cpus() -> (n: u32)
    ensures
        n == 1,
{
    1
}

/// The memory, in MiB, where the user names none.
pub fn default_memory_mib() -> (n: u32)
    ensures
        n == 512,
{
    512
}

/// A ceiling, where one is set, else the value that it would bound.
pub open spec fn ceiling(max: Option<u32>, value: u32) -> u32 {
    match max {
        Some(m) => m,
        None => value,
    }
}

impl SandboxSpec {
    /// The boot-time vCPU ceiling: `max_cpus` if set, else `cpus`.
    pub fn effective_max_cpus(&self) -> (n: u32)
        ensures
            n == ceiling(self.max_cpus, self.cpus),
    {
        match self.max_cpus {
            Some(m) => m,
            None => self.cpus,
        }
    }

    /// The boot-time memory ceiling in MiB: `max_memory` if set, else `memory`.
    pub fn effective_max_memory(&self) -> (n: u32)
        ensures
            n == ceiling(self.max_memory, self.memory),
    {
        match self.max_memory {
            Some(m) => m,
            None => self.memory,
        }
    }
}

/// A plain (non-secret) environment variable set in the guest.
#[derive(Debug, PartialEq)]
pub struct EnvVar {
    pub name: String,
    pub value: String,
}

impl View for EnvVar {
    type V = (Seq<char>, Seq<char>);

    open spec fn view(&self) -> (Seq<char>, Seq<char>) {
        (self.name@, self.value@)
    }
}

/// A secret that the guest sees as a placeholder.
#[derive(Debug, PartialEq)]
pub struct SecretEntry {
    /// Environment variable name the guest sees (set to the placeholder value).
    pub env: String,
    /// Source of the secret value.
    pub value_from: SecretValueFrom,
    /// Hosts the proxy is permitted to substitute this value to.
    pub allowed_hosts: Vec<String>,
}

#[derive(Debug, PartialEq)]
pub struct SecretValueFrom {
    pub secret_key_ref: SecretKeyRef,
}

/// A key of a Kubernetes Secret.
#[derive(Debug, PartialEq)]
pub struct SecretKeyRef {
    pub name: String,
    pub key: String,
}

/// A secret resolved to plaintext for the runtime, built in memory from the
/// mounted Secret volumes. It has no `Debug`: the value must not reach a log
/// line, and [`ResolvedSecret::redacted`] is what may.
#[derive(PartialEq)]
pub struct ResolvedSecret {
    pub env: String,
    pub value: String,
    pub placeholder: String,
    pub allowed_hosts: Vec<String>,
}

/// How a log line shows a list of hosts.
pub open spec fn hosts_debug(hosts: Seq<Seq<char>>) -> Seq<char>
    decreases hosts.len(),
{
    if hosts.len() == 0 {
        Seq::empty()
    } else if hosts.len() == 1 {
        text::debug_text(hosts[0])
    } else {
        hosts_debug(hosts.drop_last()) + ", "@ + text::debug_text(hosts.last())
    }
}

/// How a log line shows a resolved secret: its value does not come into it.
pub open spec fn secret_debug(
    env: Seq<char>,
    placeholder: Seq<char>,
    allowed_hosts: Seq<Seq<char>>,
) -> Seq<char> {
    "ResolvedSecret { env: "@ + text::debug_text(env) + ", value: \"<redacted>\", placeholder: "@
        + text::debug_text(placeholder) + ", allowed_hosts: ["@ + hosts_debug(allowed_hosts)
        + "] }"@
}

impl ResolvedSecret {
    /// The secret as a log line may show it.
    pub fn redacted(&self) -> (out: String)
        ensures
            out@ == secret_debug(
                self.env@,
                self.placeholder@,
                collections::views(self.allowed_hosts@),
            ),
    {
        let ghost all = collections::views(self.allowed_hosts@);
        let mut hosts = String::new();
        let mut i: usize = 0;
        assert(all.take(0) =~= Seq::empty());
        while i < self.allowed_hosts.len()
            invariant
                i <= self.allowed_hosts.len(),
                all == collections::views(self.allowed_hosts@),
                hosts@ == hosts_debug(all.take(i as int)),
            decreases self.allowed_hosts.len() - i,
        {
            let shown = text::debug(self.allowed_hosts[i].as_str());
            proof {
                let t = all.take(i + 1);
                assert(t.drop_last() =~= all.take(i as int));
                assert(t.last() == all[i as int]);
                if i == 0 {
                    assert(t[0] == all[0]);
                }
            }
            if i == 0 {
                hosts = shown;
            } else {
                hosts = hosts.concat(", ").concat(shown.as_str());
            }
            i = i + 1;
        }
        assert(all.take(i as int) =~= all);
        "ResolvedSecret { env: ".to_owned().concat(text::debug(self.env.as_str()).as_str()).concat(
            ", value: \"<redacted>\", placeholder: ",
        ).concat(text::debug(self.placeholder.as_str()).as_str()).concat(
            ", allowed_hosts: [",
        ).concat(hosts.as_str()).concat("] }")
    }
}

/// Network configuration of a sandbox.
#[derive(Debug, PartialEq)]
pub struct NetworkSpec {
    /// Whether the guest has a network at all.
    pub enabled: bool,
    pub policy: NetworkPolicySpec,
    pub tls: TlsSpec,
    pub dns: DnsSpec,
    /// Guest ports to expose on the Pod IP.
    pub published_ports: Vec<PublishedPort>,
    /// Maximum concurrent guest TCP connections.
    pub max_connections: u32,
    /// Copy host trusted CAs into the guest.
    pub trust_host_cas: bool,
}

impl NetworkSpec {
    /// Whether this is the configuration of a sandbox that names none.
    pub open spec fn is_default(self) -> bool {
        &&& self.enabled
        &&& self.policy.preset == PolicyPreset::PublicOnly
        &&& !self.tls.intercept
        &&& self.tls.intercepted_ports@.len() == 0
        &&& self.dns.is_default()
        &&& self.published_ports@.len() == 0
        &&& self.max_connections == 256
        &&& !self.trust_host_cas
    }
}

impl Default for NetworkSpec {
    fn default() -> (r: Self)
        ensures
            r.is_default(),
    {
        NetworkSpec {
            enabled: default_true(),
            policy: NetworkPolicySpec::default(),
            tls: TlsSpec::default(),
            dns: DnsSpec::default(),
            published_ports: Vec::new(),
            max_connections: default_max_connections(),
            trust_host_cas: false,
        }
    }
}

pub fn default_true() -> (b: bool)
    ensures
        b,
{
    true
}

pub fn default_max_connections() -> (n: u32)
    ensures
        n == 256,
{
    256
}

#[derive(Debug, PartialEq)]
pub struct NetworkPolicySpec {
    pub preset: PolicyPreset,
}

impl Default for NetworkPolicySpec {
    fn default() -> (r: Self)
        ensures
            r.preset == PolicyPreset::PublicOnly,
    {
        NetworkPolicySpec { preset: PolicyPreset::default() }
    }
}

/// Which destinations the guest may reach.
#[derive(Clone, Copy, Debug, PartialEq, Eq, Structural)]
pub enum PolicyPreset {
    PublicOnly,
    AllowAll,
    DenyAll,
    NonLocal,
}

impl Default for PolicyPreset {
    fn default() -> (r: Self)
        ensures
            r == PolicyPreset::PublicOnly,
    {
        PolicyPreset::PublicOnly
    }
}

#[derive(Debug, PartialEq)]
pub struct TlsSpec {
    pub intercept: bool,
    pub intercepted_ports: Vec<InterceptedPort>,
}

impl Default for TlsSpec {
    fn default() -> (r: Self)
        ensures
            !r.intercept,
            r.intercepted_ports@.len() == 0,
    {
        TlsSpec { intercept: false, intercepted_ports: Vec::new() }
    }
}

#[derive(Clone, Copy, Debug, PartialEq, Eq, Structural)]
pub struct InterceptedPort {
    pub port: u16,
}

/// A guest port exposed on the pod.
#[derive(Debug, PartialEq)]
pub struct PublishedPort {
    /// Port the guest listens on.
    pub guest_port: u16,
    /// Port exposed on the pod. Defaults to `guest_port`.
    pub host_port: Option<u16>,
    pub protocol: PortProtocol,
    /// Pod-side bind address. Defaults to `0.0.0.0` so the port is reachable on the Pod
    /// IP (msb's own default is loopback, which is unreachable in a pod).
    pub host_bind: String,
}

/// The bind address where the user names none: every interface, so that the port
/// is reachable on the Pod IP.
pub fn default_host_bind() -> (s: String)
    ensures
        s@ == "0.0.0.0"@,
{
    "0.0.0.0".to_owned()
}

impl PublishedPort {
    /// The pod-side port, defaulting to the guest port.
    pub open spec fn host(self) -> u16 {
        match self.host_port {
            Some(p) => p,
            None => self.guest_port,
        }
    }

    /// The pod-side port, defaulting to the guest port.
    pub fn host_port(&self) -> (p: u16)
        ensures
            p == self.host(),
    {
        match self.host_port {
            Some(p) => p,
            None => self.guest_port,
        }
    }
}

#[derive(Clone, Copy, Debug, PartialEq, Eq, Structural)]
pub enum PortProtocol {
    Tcp,
    Udp,
}

impl Default for PortProtocol {
    fn default() -> (r: Self)
        ensures
            r == PortProtocol::Tcp,
    {
        PortProtocol::Tcp
    }
}

#[derive(Debug, PartialEq)]
pub struct DnsSpec {
    pub rebind_protection: bool,
    pub nameservers: Vec<String>,
    pub query_timeout_ms: u32,
}

pub fn default_dns_timeout_ms() -> (n: u32)
    ensures
        n == 5000,
{
    5000
}

impl DnsSpec {
    /// Whether this is the configuration of a sandbox that names none.
    pub open spec fn is_default(self) -> bool {
        &&& self.rebind_protection
        &&& self.nameservers@.len() == 0
        &&& self.query_timeout_ms == 5000
    }
}

impl Default for DnsSpec {
    fn default() -> (r: Self)
        ensures
            r.is_default(),
    {
        DnsSpec {
            rebind_protection: true,
            nameservers: Vec::new(),
            query_timeout_ms: default_dns_timeout_ms(),
        }
    }
}

#[derive(Debug, PartialEq)]
pub struct UpperSpec {
    /// Writable overlay size for the guest root, as a Kubernetes `resource.Quantity`
    /// (e.g. `4Gi`, `512Mi`).
    pub size: Quantity,
}

/// The writable overlay size where the user names none.
pub fn default_upper_size() -> (q: Quantity)
    ensures
        q.0@ == "4Gi"@,
{
    Quantity("4Gi".to_owned())
}

impl Default for UpperSpec {
    fn default() -> (r: Self)
        ensures
            r.size.0@ == "4Gi"@,
    {
        UpperSpec { size: default_upper_size() }
    }
}

/// In-guest hardening for exec sessions. `Restricted` makes agentd set `no_new_privs`,
/// drop `CAP_SYS_ADMIN`, and force `nosuid,nodev` on user mounts (breaks in-guest
/// `sudo`/DinD/mount-admin). Applied inside the VM by the guest kernel, so it needs no
/// host privilege.
#[derive(Clone, Copy, Debug, PartialEq, Eq, Structural)]
pub enum SecurityProfile {
    Default,
    Restricted,
}

impl Default for SecurityProfile {
    fn default() -> (r: Self)
        ensures
            r == SecurityProfile::Default,
    {
        SecurityProfile::Default
    }
}

/// A POSIX resource limit applied to guest processes.
#[derive(Clone, Copy, Debug, PartialEq, Eq, Structural)]
pub struct Rlimit {
    pub resource: RlimitResource,
    /// Soft limit; the process may raise it up to `hard`.
    pub soft: u64,
    /// Hard ceiling.
    pub hard: u64,
}

/// The POSIX resource an `Rlimit` bounds (the `RLIMIT_*` family).
#[derive(Clone, Copy, Debug, PartialEq, Eq, Structural)]
pub enum RlimitResource {
    Cpu,
    Fsize,
    Data,
    Stack,
    Core,
    Rss,
    Nproc,
    Nofile,
    Memlock,
    As,
    Locks,
    Sigpending,
    Msgqueue,
    Nice,
    Rtprio,
    Rttime,
}

/// Guest console log capture, opt-in. When `guest_console` is true the pod carries an
/// extra `msb-console-log` container that tails the guest's stdout/stderr, separate
/// from runtime infra logs.
#[derive(Clone, Copy, Debug, PartialEq, Eq, Structural)]
pub struct LoggingSpec {
    pub guest_console: bool,
}

impl Default for LoggingSpec {
    fn default() -> (r: Self)
        ensures
            !r.guest_console,
    {
        LoggingSpec { guest_console: false }
    }
}

#[derive(Clone, Copy, Debug, PartialEq, Eq, Structural)]
pub enum RunPolicy {
    /// Run once; no retry on any exit.
    Once,
    /// Retry indefinitely on unclean exit; stop on clean exit.
    RerunOnFailure,
}

impl Default for RunPolicy {
    fn default() -> (r: Self)
        ensures
            r == RunPolicy::Once,
    {
        RunPolicy::Once
    }
}

/// What the controller reports of a sandbox.
#[derive(Debug, PartialEq)]
pub struct SandboxStatus {
    pub phase: Option<SandboxPhase>,
    pub pod_name: Option<String>,
    /// Name of the per-sandbox ClusterIP Service. Hashed, so not guessable: clients
    /// read it here to reach the sandbox's bridge.
    pub service_name: Option<String>,
    pub node_name: Option<String>,
    /// When the guest reached Running, as a Kubernetes `metav1.Time` (RFC3339).
    pub started_at: Option<Time>,
    /// When the guest terminated, as a Kubernetes `metav1.Time` (RFC3339).
    pub terminated_at: Option<Time>,
    pub termination_reason: Option<TerminationReason>,
    pub exit_code: Option<i32>,
    /// Times the pod has been recreated under `runPolicy: RerunOnFailure`. Drives the
    /// requeue backoff and is surfaced so users can see a sandbox is looping.
    pub restart_count: u32,
    /// Ports exposed on the per-sandbox Service, reflected so `kubectl describe` shows
    /// where a guest listener is reachable.
    pub exposed_ports: Vec<ExposedPort>,
    /// The `cpus` value last confirmed applied to the running guest.
    pub applied_cpus: Option<u32>,
    /// The `memory` value last confirmed applied to the running guest.
    pub applied_memory: Option<u32>,
    pub conditions: Vec<Condition>,
}

/// What a status says.
#[verifier::ext_equal]
pub struct StatusView {
    pub phase: Option<SandboxPhase>,
    pub pod_name: Option<Seq<char>>,
    pub service_name: Option<Seq<char>>,
    pub node_name: Option<Seq<char>>,
    pub started_at: Option<int>,
    pub terminated_at: Option<int>,
    pub termination_reason: Option<TerminationReason>,
    pub exit_code: Option<i32>,
    pub restart_count: u32,
    pub exposed_ports: Seq<ExposedPortView>,
    pub applied_cpus: Option<u32>,
    pub applied_memory: Option<u32>,
    pub conditions: Seq<ConditionView>,
}

impl View for SandboxStatus {
    type V = StatusView;

    open spec fn view(&self) -> StatusView {
        StatusView {
            phase: self.phase,
            pod_name: collections::opt(self.pod_name),
            service_name: collections::opt(self.service_name),
            node_name: collections::opt(self.node_name),
            started_at: collections::opt(self.started_at),
            terminated_at: collections::opt(self.terminated_at),
            termination_reason: self.termination_reason,
            exit_code: self.exit_code,
            restart_count: self.restart_count,
            exposed_ports: collections::views(self.exposed_ports@),
            applied_cpus: self.applied_cpus,
            applied_memory: self.applied_memory,
            conditions: collections::views(self.conditions@),
        }
    }
}

/// The status of a sandbox of which nothing is recorded.
pub open spec fn empty_status() -> StatusView {
    StatusView {
        phase: None,
        pod_name: None,
        service_name: None,
        node_name: None,
        started_at: None,
        terminated_at: None,
        termination_reason: None,
        exit_code: None,
        restart_count: 0,
        exposed_ports: Seq::empty(),
        applied_cpus: None,
        applied_memory: None,
        conditions: Seq::empty(),
    }
}

impl Default for SandboxStatus {
    fn default() -> (r: Self)
        ensures
            r@ == empty_status(),
    {
        SandboxStatus {
            phase: None,
            pod_name: None,
            service_name: None,
            node_name: None,
            started_at: None,
            terminated_at: None,
            termination_reason: None,
            exit_code: None,
            restart_count: 0,
            exposed_ports: Vec::new(),
            applied_cpus: None,
            applied_memory: None,
            conditions: Vec::new(),
        }
    }
}

/// A port reachable on the per-sandbox Service.
#[derive(Debug, PartialEq)]
pub struct ExposedPort {
    /// Port on the Service (and Pod).
    pub port: u16,
    pub protocol: PortProtocol,
    /// The Service port name, referenceable by Ingress/Istio.
    pub name: String,
}

#[verifier::ext_equal]
pub struct ExposedPortView {
    pub port: u16,
    pub protocol: PortProtocol,
    pub name: Seq<char>,
}

impl View for ExposedPort {
    type V = ExposedPortView;

    open spec fn view(&self) -> ExposedPortView {
        ExposedPortView { port: self.port, protocol: self.protocol, name: self.name@ }
    }
}

/// High-level lifecycle phase the controller writes to `.status.phase`.
#[derive(Clone, Copy, Debug, PartialEq, Eq, Structural)]
pub enum SandboxPhase {
    Pending,
    Running,
    /// At rest by `desiredState: Stopped`: no pod, but restartable. Distinct from
    /// `Succeeded`/`Failed`, which are the guest exiting on its own.
    Stopped,
    Succeeded,
    Failed,
}

/// Desired lifecycle state the user sets on `spec.desiredState`.
#[derive(Clone, Copy, Debug, PartialEq, Eq, Structural)]
pub enum DesiredState {
    Running,
    Stopped,
}

impl Default for DesiredState {
    fn default() -> (r: Self)
        ensures
            r == DesiredState::Running,
    {
        DesiredState::Running
    }
}

/// Expiry policy: an absolute deadline plus what to do with the object once it passes.
/// A guest exiting on its own never triggers this; only the deadline does.
#[derive(Clone, Copy, Debug, PartialEq, Eq, Structural)]
pub struct Lifecycle {
    /// Absolute time the sandbox expires. Unset means it never expires on a schedule.
    /// Mutable: adjust or clear it to extend, shorten, or cancel expiry.
    pub shutdown_time: Option<Time>,
    /// What happens to the Sandbox object at expiry. Its pod and Service are always
    /// deleted; this governs the object itself. Mutable.
    pub shutdown_policy: ShutdownPolicy,
}

impl Default for Lifecycle {
    fn default() -> (r: Self)
        ensures
            r.shutdown_time is None,
            r.shutdown_policy == ShutdownPolicy::Retain,
    {
        Lifecycle { shutdown_time: None, shutdown_policy: ShutdownPolicy::Retain }
    }
}

/// What to do with the Sandbox object when it expires.
#[derive(Clone, Copy, Debug, PartialEq, Eq, Structural)]
pub enum ShutdownPolicy {
    /// Keep the object with an `Expired` status.
    Retain,
    /// Delete the object.
    Delete,
}

impl Default for ShutdownPolicy {
    fn default() -> (r: Self)
        ensures
            r == ShutdownPolicy::Retain,
    {
        ShutdownPolicy::Retain
    }
}

/// Why the sandbox ended, derived by the controller from the runtime container's
/// terminated state.
#[derive(Clone, Copy, Debug, PartialEq, Eq, Structural)]
pub enum TerminationReason {
    Completed,
    MaxDurationExceeded,
    IdleTimeout,
    ShutdownRequested,
    Failed,
    OomKilled,
    Evicted,
    NodeLost,
    /// The `spec.lifecycle.shutdownTime` deadline passed.
    Expired,
}

impl TerminationReason {
    /// Whether the sandbox ended as it was meant to.
    pub open spec fn clean(self) -> bool {
        ||| self == TerminationReason::Completed
        ||| self == TerminationReason::MaxDurationExceeded
        ||| self == TerminationReason::IdleTimeout
        ||| self == TerminationReason::ShutdownRequested
        ||| self == TerminationReason::Expired
    }

    /// Whether the sandbox ended as it was meant to.
    pub fn is_clean(&self) -> (r: bool)
        ensures
            r == self.clean(),
    {
        matches!(
            self,
            TerminationReason::Completed
                | TerminationReason::MaxDurationExceeded
                | TerminationReason::IdleTimeout
                | TerminationReason::ShutdownRequested
                | TerminationReason::Expired
        )
    }

    /// The name of the variant, as the status conditions and events spell it.
    pub open spec fn label(self) -> Seq<char> {
        match self {
            TerminationReason::Completed => "Completed"@,
            TerminationReason::MaxDurationExceeded => "MaxDurationExceeded"@,
            TerminationReason::IdleTimeout => "IdleTimeout"@,
            TerminationReason::ShutdownRequested => "ShutdownRequested"@,
            TerminationReason::Failed => "Failed"@,
            TerminationReason::OomKilled => "OomKilled"@,
            TerminationReason::Evicted => "Evicted"@,
            TerminationReason::NodeLost => "NodeLost"@,
            TerminationReason::Expired => "Expired"@,
        }
    }

    /// The name of the variant.
    pub fn name(&self) -> (s: &'static str)
        ensures
            s@ == self.label(),
    {
        match self {
            TerminationReason::Completed => "Completed",
            TerminationReason::MaxDurationExceeded => "MaxDurationExceeded",
            TerminationReason::IdleTimeout => "IdleTimeout",
            TerminationReason::ShutdownRequested => "ShutdownRequested",
            TerminationReason::Failed => "Failed",
            TerminationReason::OomKilled => "OomKilled",
            TerminationReason::Evicted => "Evicted",
            TerminationReason::NodeLost => "NodeLost",
            TerminationReason::Expired => "Expired",
        }
    }
}

/// A sandbox that says nothing of its network has one, which reaches what is public, without
/// interception, with no port published, and with names looked up safely.
pub proof fn the_network_of_one_that_names_none(net: NetworkSpec)
    requires
        net.is_default(),
    ensures
        net.enabled,
        net.policy.preset is PublicOnly,
        !net.tls.intercept && net.tls.intercepted_ports@.len() == 0,
        net.dns.rebind_protection && net.dns.nameservers@.len() == 0,
        net.dns.query_timeout_ms == 5_000,
        net.published_ports@.len() == 0,
        net.max_connections == 256,
        !net.trust_host_cas,
{
}

} // verus!
