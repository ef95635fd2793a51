//! The pod that a sandbox runs in.

use vstd::prelude::*;

use crate::collections;
use crate::collections::StringMap;
use crate::controller::config;
use crate::controller::config::{
    memory_overhead_mib, ControllerConfig, CPU_ALLOCATION_RATIO, EPHEMERAL_STORAGE_MIB,
    KVM_RESOURCE, SANDBOX_LABEL, SANDBOX_NAME_LABEL,
};
use crate::digest;
use crate::k8s::{
    Capabilities, CapabilitiesView, Container, ContainerEnv, ContainerPort, ContainerPortView,
    ContainerView, KeyToPath, ObjectMeta, ObjectMetaView, Pod, PodSecurityContext,
    PodSecurityContextView, PodSpec, PodSpecView, PodView, ResourceRequirements,
    ResourceRequirementsView, SecretVolumeSource, SecretVolumeSourceView, SecurityContext,
    SecurityContextView, Volume, VolumeMount, VolumeMountView, VolumeSource, VolumeSourceView,
    VolumeView,
};
use crate::names;
use crate::sandbox;
use crate::sandbox::{Sandbox, SandboxSpec};
use crate::text;

verus! {

/// Why no pod can be built for a sandbox.
#[derive(Debug, PartialEq)]
pub enum PodBuildError {
    MissingObjectKey { sandbox: String, key: &'static str },
    SpecEncode { sandbox: String, source: String },
}

#[verifier::ext_equal]
pub enum PodBuildErrorView {
    MissingObjectKey { sandbox: Seq<char>, key: Seq<char> },
    SpecEncode { sandbox: Seq<char>, source: Seq<char> },
}

impl View for PodBuildError {
    type V = PodBuildErrorView;

    open spec fn view(&self) -> PodBuildErrorView {
        match *self {
            PodBuildError::MissingObjectKey {
                sandbox,
                key,
            } => PodBuildErrorView::MissingObjectKey { sandbox: sandbox@, key: key@ },
            PodBuildError::SpecEncode { sandbox, source } => PodBuildErrorView::SpecEncode {
                sandbox: sandbox@,
                source: source@,
            },
        }
    }
}

/// What a build error says.
pub open spec fn build_error_text(e: PodBuildErrorView) -> Seq<char> {
    match e {
        PodBuildErrorView::MissingObjectKey { sandbox, key } => "sandbox "@ + sandbox
            + " is missing .metadata."@ + key,
        PodBuildErrorView::SpecEncode { sandbox, source } => "serialising spec for sandbox "@
            + sandbox + ": "@ + source,
    }
}

impl PodBuildError {
    /// The error in words.
    pub fn message(&self) -> (out: String)
        ensures
            out@ == build_error_text(self@),
    {
        match self {
            PodBuildError::MissingObjectKey { sandbox, key } => "sandbox ".to_owned().concat(
                sandbox.as_str(),
            ).concat(" is missing .metadata.").concat(key),
            PodBuildError::SpecEncode { sandbox, source } => "serialising spec for sandbox ".to_owned().concat(
                sandbox.as_str(),
            ).concat(": ").concat(source.as_str()),
        }
    }
}

pub const VOL_HOME: &'static str = "msb-home";

/// Referenced Secrets mount read-only here, one directory per Secret; the runtime
/// reads `<SECRETS_MOUNT>/<secretName>/<key>`. The kubelet does the read, so the
/// pod needs no Secret RBAC.
pub const SECRETS_MOUNT: &'static str = "/msb-secrets";

/// Sandbox pods run as this fixed non-root uid.
pub const RUN_AS_USER: i64 = 1000;

/// The mode of the Secret files: readable by everyone, as they are owned by root
/// and the pod runs as another user.
pub const SECRET_MODE: i32 = 0o444;

pub const RUNTIME_CONTAINER: &'static str = "msb-runtime";

pub const BRIDGE_CONTAINER: &'static str = "msb-bridge";

/// The sidecar whose log is the guest's console.
pub const CONSOLE_CONTAINER: &'static str = "msb-console-log";

/// The name of a sandbox's pod.
pub open spec fn pod_name_of(sandbox_name: Seq<char>) -> Seq<char> {
    "sandbox-"@ + sandbox_name
}

/// The name of a sandbox's pod.
pub fn pod_name(sandbox_name: &str) -> (out: String)
    ensures
        out@ == pod_name_of(sandbox_name@),
{
    "sandbox-".to_owned().concat(sandbox_name)
}

/// The name of the Service port for a published port.
pub open spec fn port_name_of(host_port: u16) -> Seq<char> {
    "port-"@ + text::dec(host_port as nat)
}

/// The name of the Service port for a published port.
pub fn port_name(host_port: u16) -> (out: String)
    ensures
        out@ == port_name_of(host_port),
{
    "port-".to_owned().concat(text::decimal(host_port as u64).as_str())
}

/// msb's flat sandbox name.
pub open spec fn flat_name_of(namespace: Seq<char>, name: Seq<char>) -> Seq<char> {
    namespace + "__"@ + name
}

/// msb's flat sandbox name: `<namespace>__<name>`. `_` is forbidden in Kubernetes
/// names but permitted by msb, so `__` is an unambiguous separator.
pub fn msb_sandbox_name(namespace: &str, name: &str) -> (out: String)
    ensures
        out@ == flat_name_of(namespace@, name@),
{
    namespace.to_owned().concat("__").concat(name)
}

/// Flat names of distinct sandboxes differ, as a Kubernetes namespace holds no
/// underscore.
pub proof fn flat_name_is_unambiguous(ns1: Seq<char>, n1: Seq<char>, ns2: Seq<char>, n2: Seq<char>)
    requires
        !ns1.contains('_'),
        !ns2.contains('_'),
        flat_name_of(ns1, n1) == flat_name_of(ns2, n2),
    ensures
        ns1 == ns2,
        n1 == n2,
{
    reveal_strlit("__");
    let f1 = flat_name_of(ns1, n1);
    let f2 = flat_name_of(ns2, n2);
    if ns1.len() < ns2.len() {
        assert(f1[ns1.len() as int] == '_');
        assert(f2[ns1.len() as int] == ns2[ns1.len() as int]);
    }
    if ns2.len() < ns1.len() {
        assert(f2[ns2.len() as int] == '_');
        assert(f1[ns2.len() as int] == ns1[ns2.len() as int]);
    }
    assert(ns1 =~= f1.take(ns1.len() as int));
    assert(ns2 =~= f2.take(ns2.len() as int));
    assert(n1 =~= f1.skip(ns1.len() as int + 2));
    assert(n2 =~= f2.skip(ns2.len() as int + 2));
}

/// The names of the Secrets that the secrets of `spec` reference, one for each.
pub open spec fn secret_refs(spec: SandboxSpec) -> Seq<Seq<char>> {
    Seq::new(spec.secrets@.len(), |i: int| spec.secrets@[i].value_from.secret_key_ref.name@)
}

/// The distinct Secret names referenced, in ascending order.
pub open spec fn secret_names(spec: SandboxSpec) -> Seq<Seq<char>> {
    collections::in_order(secret_refs(spec).to_set())
}

/// The keys of the Secret `name` that the secrets of `spec` reference.
pub open spec fn key_set(spec: SandboxSpec, name: Seq<char>) -> Set<Seq<char>> {
    Set::new(|k: Seq<char>| references(spec, name, k))
}

/// Whether a secret of `spec` references the key `key` of the Secret `name`.
pub open spec fn references(spec: SandboxSpec, name: Seq<char>, key: Seq<char>) -> bool {
    exists|i: int|
        0 <= i < spec.secrets@.len() && (
        #[trigger] spec.secrets@[i]).value_from.secret_key_ref.name@ == name
            && spec.secrets@[i].value_from.secret_key_ref.key@ == key
}

/// The distinct Secret names referenced by `spec.secrets`, in stable order.
pub fn referenced_secret_names(spec: &SandboxSpec) -> (out: Vec<String>)
    ensures
        collections::views(out@) == secret_names(*spec),
        collections::ascending(collections::views(out@)),
        collections::views(out@).to_set() == secret_refs(*spec).to_set(),
{
    let mut names: Vec<String> = Vec::new();
    let mut i: usize = 0;
    while i < spec.secrets.len()
        invariant
            i <= spec.secrets.len(),
            names.len() == i,
            collections::views(names@) == secret_refs(*spec).take(i as int),
        decreases spec.secrets.len() - i,
    {
        let ghost before = names@;
        names.push(spec.secrets[i].value_from.secret_key_ref.name.clone());
        proof {
            collections::grown(before, names@, secret_refs(*spec));
        }
        i = i + 1;
    }
    assert(secret_refs(*spec).take(i as int) =~= secret_refs(*spec));
    collections::sort_dedup(&names)
}

/// The distinct keys of the Secret `name` that `spec.secrets` references, in
/// ascending order.
pub fn referenced_keys(spec: &SandboxSpec, name: &str) -> (out: Vec<String>)
    ensures
        collections::views(out@) == collections::in_order(key_set(*spec, name@)),
        collections::ascending(collections::views(out@)),
        collections::views(out@).to_set() == key_set(*spec, name@),
{
    let mut keys: Vec<String> = Vec::new();
    let mut i: usize = 0;
    while i < spec.secrets.len()
        invariant
            i <= spec.secrets.len(),
            forall|k: Seq<char>|
                #[trigger] collections::views(keys@).contains(k) ==> references(*spec, name@, k),
            forall|j: int|
                0 <= j < i && (#[trigger] spec.secrets@[j]).value_from.secret_key_ref.name@ == name@
                    ==> collections::views(keys@).contains(
                    spec.secrets@[j].value_from.secret_key_ref.key@,
                ),
        decreases spec.secrets.len() - i,
    {
        let r = &spec.secrets[i].value_from.secret_key_ref;
        let ghost before = collections::views(keys@);
        if text::same(r.name.as_str(), name) {
            keys.push(r.key.clone());
            let ghost after = collections::views(keys@);
            assert(after =~= before.push(r.key@));
            assert forall|k: Seq<char>| #[trigger] after.contains(k) implies references(
                *spec,
                name@,
                k,
            ) by {
                let p = choose|p: int| 0 <= p < after.len() && after[p] == k;
                if p < before.len() {
                    assert(before[p] == k);
                    assert(before.contains(k));
                } else {
                    assert(spec.secrets@[i as int].value_from.secret_key_ref.key@ == k);
                }
            }
            assert forall|k: Seq<char>| before.contains(k) implies after.contains(k) by {
                let p = choose|p: int| 0 <= p < before.len() && before[p] == k;
                assert(after[p] == k);
            }
            assert(after[before.len() as int] == r.key@);
        }
        i = i + 1;
    }
    proof {
        let all = collections::views(keys@);
        assert forall|k: Seq<char>| all.to_set().contains(k) <==> key_set(*spec, name@).contains(
            k,
        ) by {
            if references(*spec, name@, k) {
                let j = choose|j: int|
                    0 <= j < spec.secrets@.len() && (
                    #[trigger] spec.secrets@[j]).value_from.secret_key_ref.name@ == name@
                        && spec.secrets@[j].value_from.secret_key_ref.key@ == k;
                assert(all.contains(spec.secrets@[j].value_from.secret_key_ref.key@));
            }
        }
        assert(all.to_set() =~= key_set(*spec, name@));
    }
    collections::sort_dedup(&keys)
}

/// How many digits of a digest tell two volumes apart.
pub const VOL_DIGEST_LEN: usize = 12;

/// The volume of a referenced Secret as its name gives it: with a dash for each
/// character that is no letter or digit, and none at the ends.
pub open spec fn plain_vol(secret_name: Seq<char>) -> Seq<char> {
    "secret-"@ + text::trimmed_of(text::dashed(secret_name), '-')
}

/// The volume of a referenced Secret: as its name gives it where that is a label. Any
/// other name is made readable and gets some digits of its digest; a second dash keeps
/// it apart from those.
pub open spec fn secret_vol(secret_name: Seq<char>) -> Seq<char> {
    if names::dns_label(plain_vol(secret_name)) {
        plain_vol(secret_name)
    } else {
        "secret--"@ + names::readable_part(secret_name) + "-"@ + digest::text_digest(
            secret_name,
        ).take(VOL_DIGEST_LEN as int)
    }
}

/// Volume name for a referenced Secret. Sanitized to a DNS-1123 label, since Secret
/// names permit `.`, which volume names forbid, and may be longer than a label.
pub fn secret_vol_name(secret_name: &str) -> (out: String)
    ensures
        out@ == secret_vol(secret_name@),
        names::dns_label(out@),
        out@.take(7) == "secret-"@,
{
    proof {
        reveal_strlit("secret-");
    }
    let dashed = text::dash(secret_name);
    let plain = "secret-".to_owned().concat(text::trim_matches(dashed.as_str(), '-').as_str());
    if names::is_dns_label(plain.as_str()) {
        assert(plain@.take(7) =~= "secret-"@);
        return plain;
    }
    let hash = digest::sha256_hex(secret_name);
    let readable = names::readable(secret_name);
    let short = hash.as_str().substring_char(0, VOL_DIGEST_LEN);
    let out = "secret--".to_owned().concat(readable.as_str()).concat("-").concat(short);
    proof {
        reveal_strlit("secret--");
        reveal_strlit("-");
        let k = readable@.len() as int;
        assert forall|i: int| 0 <= i < out@.len() implies names::is_name_end(#[trigger] out@[i])
            || out@[i] == '-' by {
            if 8 <= i < 8 + k {
                assert(out@[i] == readable@[i - 8]);
            } else if i > 8 + k {
                assert(out@[i] == hash@[i - 9 - k]);
                assert(digest::is_hex(hash@[i - 9 - k]));
            }
        }
        assert(out@.last() == hash@[11]);
        assert(digest::is_hex(hash@[11]));
        assert(out@.take(7) =~= "secret-"@);
    }
    out
}

/// A label stands in the name of its volume as it is.
proof fn a_label_stands_as_it_is(secret_name: Seq<char>)
    requires
        names::dns_label(secret_name),
    ensures
        plain_vol(secret_name) == "secret-"@ + secret_name,
{
    assert(text::dashed(secret_name) =~= secret_name);
}

/// Two Secrets whose names are labels have two volumes, unless both names are too long
/// to stand in one; those are told apart by their digests.
pub proof fn labels_have_volumes_of_their_own(a: Seq<char>, b: Seq<char>)
    requires
        a != b,
        names::dns_label(a),
        names::dns_label(b),
        a.len() <= 56 || b.len() <= 56,
    ensures
        secret_vol(a) != secret_vol(b),
{
    reveal_strlit("secret-");
    reveal_strlit("secret--");
    a_label_stands_as_it_is(a);
    a_label_stands_as_it_is(b);
    let (x, y) = (secret_vol(a), secret_vol(b));
    assert(plain_vol(a)[7] == a[0]);
    assert(plain_vol(b)[7] == b[0]);
    assert(plain_vol(a).skip(7) =~= a);
    assert(plain_vol(b).skip(7) =~= b);
    short_label_fits(a);
    short_label_fits(b);
    if !names::dns_label(plain_vol(a)) {
        assert(x[7] == '-');
    }
    if !names::dns_label(plain_vol(b)) {
        assert(y[7] == '-');
    }
}

/// A label of up to 56 characters leaves room for what goes before it.
proof fn short_label_fits(secret_name: Seq<char>)
    requires
        names::dns_label(secret_name),
    ensures
        secret_name.len() <= 56 ==> names::dns_label(plain_vol(secret_name)),
{
    reveal_strlit("secret-");
    a_label_stands_as_it_is(secret_name);
    let v = plain_vol(secret_name);
    assert(v.last() == secret_name.last());
    assert forall|i: int| 0 <= i < v.len() implies names::is_name_end(#[trigger] v[i]) || v[i]
        == '-' by {
        if i >= 7 {
            assert(v[i] == secret_name[i - 7]);
        }
    }
}

/// The memory of the runtime container, in MiB: the guest RAM and its overhead.
pub open spec fn runtime_memory_mib(cpus: u32, memory_mib: u32) -> int {
    memory_mib + config::overhead_mib(memory_mib as int, cpus as int)
}

/// Thousandths of a core that the runtime container requests: a fraction of the
/// advertised vCPUs, rounded up.
pub open spec fn runtime_cpu_millis(cpus: u32) -> int {
    (cpus * 1000 + CPU_ALLOCATION_RATIO - 1) / CPU_ALLOCATION_RATIO as int
}

/// The resources of the runtime container.
pub open spec fn runtime_resources_view(cpus: u32, memory_mib: u32) -> ResourceRequirementsView {
    let memory = text::dec(runtime_memory_mib(cpus, memory_mib) as nat) + "Mi"@;
    ResourceRequirementsView {
        requests: map![
            "memory"@ => memory,
            "cpu"@ => text::dec(runtime_cpu_millis(cpus) as nat) + "m"@,
            "ephemeral-storage"@ => text::dec(EPHEMERAL_STORAGE_MIB as nat) + "Mi"@,
        ],
        limits: map![
            "memory"@ => memory,
            "cpu"@ => text::dec(cpus as nat),
            KVM_RESOURCE@ => "1"@,
        ],
    }
}

/// Resources for the runtime container. Memory request == limit (guest RAM +
/// overhead): the guest has a hard memory ceiling, so a matching limit is safe
/// and keeps a busy sandbox from starving its neighbours. CPU requests a fraction
/// of a core and limits to the advertised vCPUs.
pub fn runtime_resources(cpus: u32, memory_mib: u32) -> (r: ResourceRequirements)
    ensures
        r@ == runtime_resources_view(cpus, memory_mib),
{
    let mem_total: u64 = memory_mib as u64 + memory_overhead_mib(memory_mib as u64, cpus as u64);
    let mem_qty = text::decimal(mem_total).concat("Mi");
    let cpu_millis: u64 = (cpus as u64 * 1000 + CPU_ALLOCATION_RATIO - 1) / CPU_ALLOCATION_RATIO;

    let mut requests = StringMap::new();
    requests.insert("memory".to_owned(), mem_qty.clone());
    requests.insert("cpu".to_owned(), text::decimal(cpu_millis).concat("m"));
    requests.insert(
        "ephemeral-storage".to_owned(),
        text::decimal(EPHEMERAL_STORAGE_MIB).concat("Mi"),
    );

    let mut limits = StringMap::new();
    limits.insert("memory".to_owned(), mem_qty);
    limits.insert("cpu".to_owned(), text::decimal(cpus as u64));
    limits.insert(KVM_RESOURCE.to_owned(), "1".to_owned());

    ResourceRequirements { requests, limits }
}

/// No privilege is gained, no capability kept.
pub open spec fn confined(read_only_root_filesystem: Option<bool>) -> SecurityContextView {
    SecurityContextView {
        allow_privilege_escalation: Some(false),
        read_only_root_filesystem,
        capabilities: Some(CapabilitiesView { add: Seq::empty(), drop: seq!["ALL"@] }),
    }
}

fn confine(read_only_root_filesystem: Option<bool>) -> (c: SecurityContext)
    ensures
        c@ == confined(read_only_root_filesystem),
{
    let mut drop: Vec<String> = Vec::new();
    drop.push("ALL".to_owned());
    let add: Vec<String> = Vec::new();
    assert(collections::views(drop@) =~= seq!["ALL"@]);
    assert(collections::views(add@) =~= Seq::empty());
    SecurityContext {
        allow_privilege_escalation: Some(false),
        read_only_root_filesystem,
        capabilities: Some(Capabilities { add, drop }),
    }
}

/// Where the Secret `name` is mounted in the runtime container.
pub open spec fn secret_mount(name: Seq<char>) -> VolumeMountView {
    VolumeMountView {
        name: secret_vol(name),
        mount_path: SECRETS_MOUNT@ + "/"@ + name,
        read_only: Some(true),
    }
}

/// The mounts of the runtime container: the home, writable, and each referenced
/// Secret, read-only.
pub open spec fn runtime_mounts(home: Seq<char>, spec: SandboxSpec) -> Seq<VolumeMountView> {
    seq![VolumeMountView { name: VOL_HOME@, mount_path: home, read_only: None }] + Seq::new(
        secret_names(spec).len(),
        |i: int| secret_mount(secret_names(spec)[i]),
    )
}

/// The runtime container.
pub open spec fn runtime_view(
    cfg: ControllerConfig,
    spec_json: Seq<char>,
    flat_name: Seq<char>,
    spec: SandboxSpec,
) -> ContainerView {
    ContainerView {
        name: RUNTIME_CONTAINER@,
        image: Some(cfg.runtime_image@),
        args: Seq::empty(),
        env: seq![
            ("MSB_SANDBOX_SPEC"@, Some(spec_json)),
            ("MSB_SANDBOX_NAME"@, Some(flat_name)),
            ("MSB_HOME"@, Some(cfg.msb_home@)),
            ("RUST_LOG"@, Some(cfg.runtime_log@)),
        ],
        ports: Seq::empty(),
        volume_mounts: runtime_mounts(cfg.msb_home@, spec),
        resources: Some(runtime_resources_view(spec.cpus, spec.memory)),
        security_context: Some(confined(None)),
        restart_policy: None,
    }
}

/// The runtime container. It declares no cache mount: the daemon's device plugin
/// injects the cache read-only under the home. It resolves secrets in-process
/// from its mounts.
pub fn runtime_container(
    cfg: &ControllerConfig,
    spec_json: &str,
    flat_name: &str,
    spec: &SandboxSpec,
) -> (c: Container)
    ensures
        c@ == runtime_view(*cfg, spec_json@, flat_name@, *spec),
{
    let mut mounts: Vec<VolumeMount> = Vec::new();
    mounts.push(
        VolumeMount {
            name: VOL_HOME.to_owned(),
            mount_path: cfg.msb_home().to_owned(),
            read_only: None,
        },
    );
    let names = referenced_secret_names(spec);
    let ghost all = runtime_mounts(cfg.msb_home@, *spec);
    let mut i: usize = 0;
    assert(collections::views(mounts@) =~= all.take(1));
    while i < names.len()
        invariant
            i <= names.len(),
            collections::views(names@) == secret_names(*spec),
            all == runtime_mounts(cfg.msb_home@, *spec),
            mounts.len() == 1 + i,
            collections::views(mounts@) == all.take(1 + i),
        decreases names.len() - i,
    {
        let name = names[i].as_str();
        assert(collections::views(names@)[i as int] == name@);
        let ghost before = mounts@;
        mounts.push(
            VolumeMount {
                name: secret_vol_name(name),
                mount_path: SECRETS_MOUNT.to_owned().concat("/").concat(name),
                read_only: Some(true),
            },
        );
        assert(all[1 + i] == secret_mount(name@));
        proof {
            collections::grown(before, mounts@, all);
        }
        i = i + 1;
    }
    assert(all.take(1 + i) =~= all);
    let mut env: Vec<ContainerEnv> = Vec::new();
    env.push(ContainerEnv::new("MSB_SANDBOX_SPEC", spec_json));
    env.push(ContainerEnv::new("MSB_SANDBOX_NAME", flat_name));
    env.push(ContainerEnv::new("MSB_HOME", cfg.msb_home()));
    env.push(ContainerEnv::new("RUST_LOG", cfg.runtime_log.as_str()));
    let ports: Vec<ContainerPort> = Vec::new();
    let c = Container {
        name: RUNTIME_CONTAINER.to_owned(),
        image: Some(cfg.runtime_image.clone()),
        args: Vec::new(),
        env,
        ports,
        volume_mounts: mounts,
        resources: Some(runtime_resources(spec.cpus, spec.memory)),
        security_context: Some(confine(None)),
        restart_policy: None,
    };
    proof {
        let v = runtime_view(*cfg, spec_json@, flat_name@, *spec);
        assert(c@.args =~= v.args);
        assert(c@.env =~= v.env);
        assert(c@.ports =~= v.ports);
    }
    c
}

/// The bridge container.
pub open spec fn bridge_view(cfg: ControllerConfig, flat_name: Seq<char>) -> ContainerView {
    ContainerView {
        name: BRIDGE_CONTAINER@,
        image: Some(cfg.bridge_image@),
        args: Seq::empty(),
        env: seq![
            ("MSB_SANDBOX_NAME"@, Some(flat_name)),
            ("MSB_HOME"@, Some(cfg.msb_home@)),
            ("MSB_BRIDGE_PORT"@, Some(text::dec_int(cfg.bridge_port as int))),
        ],
        ports: seq![
            ContainerPortView {
                name: Some("agent"@),
                container_port: cfg.bridge_port,
                protocol: Some("TCP"@),
            },
        ],
        volume_mounts: seq![
            VolumeMountView { name: VOL_HOME@, mount_path: cfg.msb_home@, read_only: Some(true) },
        ],
        resources: None,
        security_context: Some(confined(Some(true))),
        restart_policy: Some("Always"@),
    }
}

/// The bridge container. As an init container that is always restarted it is a
/// native sidecar. It reaches the agent socket through the shared home.
pub fn bridge_container(cfg: &ControllerConfig, flat_name: &str) -> (c: Container)
    ensures
        c@ == bridge_view(*cfg, flat_name@),
{
    let mut env: Vec<ContainerEnv> = Vec::new();
    env.push(ContainerEnv::new("MSB_SANDBOX_NAME", flat_name));
    env.push(ContainerEnv::new("MSB_HOME", cfg.msb_home()));
    env.push(
        ContainerEnv::new(
            "MSB_BRIDGE_PORT",
            text::decimal_signed(cfg.bridge_port as i64).as_str(),
        ),
    );
    let mut ports: Vec<ContainerPort> = Vec::new();
    ports.push(
        ContainerPort {
            name: Some("agent".to_owned()),
            container_port: cfg.bridge_port,
            protocol: Some("TCP".to_owned()),
        },
    );
    let mut mounts: Vec<VolumeMount> = Vec::new();
    mounts.push(
        VolumeMount {
            name: VOL_HOME.to_owned(),
            mount_path: cfg.msb_home().to_owned(),
            read_only: Some(true),
        },
    );
    let c = Container {
        name: BRIDGE_CONTAINER.to_owned(),
        image: Some(cfg.bridge_image.clone()),
        args: Vec::new(),
        env,
        ports,
        volume_mounts: mounts,
        resources: None,
        security_context: Some(confine(Some(true))),
        restart_policy: Some("Always".to_owned()),
    };
    proof {
        let v = bridge_view(*cfg, flat_name@);
        assert(c@.args =~= v.args);
        assert(c@.env =~= v.env);
        assert(c@.ports =~= v.ports);
        assert(c@.volume_mounts =~= v.volume_mounts);
    }
    c
}

/// The console container: the runtime image's own subcommand.
pub open spec fn console_view(cfg: ControllerConfig, flat_name: Seq<char>) -> ContainerView {
    ContainerView {
        name: CONSOLE_CONTAINER@,
        image: Some(cfg.runtime_image@),
        args: seq!["console-log"@],
        env: seq![
            ("MSB_SANDBOX_NAME"@, Some(flat_name)),
            ("MSB_HOME"@, Some(cfg.msb_home@)),
        ],
        ports: Seq::empty(),
        volume_mounts: seq![
            VolumeMountView { name: VOL_HOME@, mount_path: cfg.msb_home@, read_only: Some(true) },
        ],
        resources: None,
        security_context: Some(confined(Some(true))),
        restart_policy: Some("Always"@),
    }
}

/// The console container, a sidecar that tails what the guest prints, apart from the
/// log of the runtime.
pub fn console_container(cfg: &ControllerConfig, flat_name: &str) -> (c: Container)
    ensures
        c@ == console_view(*cfg, flat_name@),
{
    let mut env: Vec<ContainerEnv> = Vec::new();
    env.push(ContainerEnv::new("MSB_SANDBOX_NAME", flat_name));
    env.push(ContainerEnv::new("MSB_HOME", cfg.msb_home()));
    let mut mounts: Vec<VolumeMount> = Vec::new();
    mounts.push(
        VolumeMount {
            name: VOL_HOME.to_owned(),
            mount_path: cfg.msb_home().to_owned(),
            read_only: Some(true),
        },
    );
    let mut args: Vec<String> = Vec::new();
    args.push("console-log".to_owned());
    let c = Container {
        name: CONSOLE_CONTAINER.to_owned(),
        image: Some(cfg.runtime_image.clone()),
        args,
        env,
        ports: Vec::new(),
        volume_mounts: mounts,
        resources: None,
        security_context: Some(confine(Some(true))),
        restart_policy: Some("Always".to_owned()),
    };
    proof {
        let v = console_view(*cfg, flat_name@);
        assert(c@.args =~= v.args);
        assert(c@.env =~= v.env);
        assert(c@.ports =~= v.ports);
        assert(c@.volume_mounts =~= v.volume_mounts);
    }
    c
}

/// The sidecars of the pod: the bridge, and the console where it is captured.
pub open spec fn sidecars(
    cfg: ControllerConfig,
    flat_name: Seq<char>,
    spec: SandboxSpec,
) -> Seq<ContainerView> {
    if spec.logging.guest_console {
        seq![bridge_view(cfg, flat_name), console_view(cfg, flat_name)]
    } else {
        seq![bridge_view(cfg, flat_name)]
    }
}

/// The volume of the Secret `name`: the referenced keys only, each as a file of
/// its own name.
pub open spec fn secret_volume(spec: SandboxSpec, name: Seq<char>) -> VolumeView {
    let keys = collections::in_order(key_set(spec, name));
    VolumeView {
        name: secret_vol(name),
        source: VolumeSourceView::Secret(
            SecretVolumeSourceView {
                secret_name: name,
                items: Seq::new(keys.len(), |i: int| (keys[i], keys[i])),
                default_mode: Some(SECRET_MODE),
            },
        ),
    }
}

/// The volumes of the pod: the home, an empty directory of its own, and one for
/// each referenced Secret.
pub open spec fn volumes_view(spec: SandboxSpec) -> Seq<VolumeView> {
    seq![VolumeView { name: VOL_HOME@, source: VolumeSourceView::EmptyDir }] + Seq::new(
        secret_names(spec).len(),
        |i: int| secret_volume(spec, secret_names(spec)[i]),
    )
}

/// The files that the given keys become, each of its own name.
fn key_items(keys: &Vec<String>) -> (out: Vec<KeyToPath>)
    ensures
        collections::views(out@) == Seq::new(
            keys@.len(),
            |i: int| (collections::views(keys@)[i], collections::views(keys@)[i]),
        ),
{
    let mut out: Vec<KeyToPath> = Vec::new();
    let ghost all = Seq::new(
        keys@.len(),
        |i: int| (collections::views(keys@)[i], collections::views(keys@)[i]),
    );
    let mut i: usize = 0;
    while i < keys.len()
        invariant
            i <= keys.len(),
            all == Seq::new(
                keys@.len(),
                |i: int| (collections::views(keys@)[i], collections::views(keys@)[i]),
            ),
            out.len() == i,
            collections::views(out@) == all.take(i as int),
        decreases keys.len() - i,
    {
        let ghost before = out@;
        out.push(KeyToPath { key: keys[i].clone(), path: keys[i].clone() });
        proof {
            collections::grown(before, out@, all);
        }
        i = i + 1;
    }
    assert(all.take(i as int) =~= all);
    out
}

/// The volumes of the pod. The writable home keeps each sandbox's state off the
/// node and invisible to other pods.
pub fn volumes(spec: &SandboxSpec) -> (out: Vec<Volume>)
    ensures
        collections::views(out@) == volumes_view(*spec),
{
    let mut vols: Vec<Volume> = Vec::new();
    vols.push(Volume { name: VOL_HOME.to_owned(), source: VolumeSource::EmptyDir });
    let names = referenced_secret_names(spec);
    let ghost all = volumes_view(*spec);
    let mut i: usize = 0;
    assert(collections::views(vols@) =~= all.take(1));
    while i < names.len()
        invariant
            i <= names.len(),
            collections::views(names@) == secret_names(*spec),
            all == volumes_view(*spec),
            vols.len() == 1 + i,
            collections::views(vols@) == all.take(1 + i),
        decreases names.len() - i,
    {
        let name = names[i].as_str();
        assert(collections::views(names@)[i as int] == name@);
        let keys = referenced_keys(spec, name);
        let items = key_items(&keys);
        let v = Volume {
            name: secret_vol_name(name),
            source: VolumeSource::Secret(
                SecretVolumeSource {
                    secret_name: name.to_owned(),
                    items,
                    default_mode: Some(SECRET_MODE),
                },
            ),
        };
        assert(v@ =~= secret_volume(*spec, name@)) by {
            let w = secret_volume(*spec, name@);
            assert(v@.source->Secret_0.items =~= w.source->Secret_0.items);
        }
        let ghost before = vols@;
        vols.push(v);
        assert(all[1 + i] == secret_volume(*spec, name@));
        proof {
            collections::grown(before, vols@, all);
        }
        i = i + 1;
    }
    assert(all.take(1 + i) =~= all);
    vols
}

/// The labels of the objects made for a sandbox.
pub open spec fn object_labels(name: Seq<char>) -> Map<Seq<char>, Seq<char>> {
    map![SANDBOX_LABEL@ => "true"@, SANDBOX_NAME_LABEL@ => name]
}

/// The labels of the objects made for a sandbox.
pub fn labels_for(name: &str) -> (m: StringMap)
    ensures
        m@ == object_labels(name@),
{
    let mut labels = StringMap::new();
    labels.insert(SANDBOX_LABEL.to_owned(), "true".to_owned());
    labels.insert(SANDBOX_NAME_LABEL.to_owned(), name.to_owned());
    labels
}

/// The pod of a sandbox.
pub open spec fn pod_view(
    name: Seq<char>,
    namespace: Seq<char>,
    uid: Seq<char>,
    spec: SandboxSpec,
    cfg: ControllerConfig,
    spec_json: Seq<char>,
) -> PodView {
    let flat_name = flat_name_of(namespace, name);
    PodView {
        metadata: ObjectMetaView {
            name: Some(pod_name_of(name)),
            namespace: Some(namespace),
            labels: object_labels(name),
            owner_references: seq![sandbox::owner_view(name, uid)],
            ..crate::k8s::empty_meta()
        },
        spec: Some(
            PodSpecView {
                init_containers: sidecars(cfg, flat_name, spec),
                containers: seq![runtime_view(cfg, spec_json, flat_name, spec)],
                volumes: volumes_view(spec),
                security_context: Some(
                    PodSecurityContextView {
                        run_as_non_root: Some(true),
                        run_as_user: Some(RUN_AS_USER),
                        supplemental_groups: match cfg.kvm_gid {
                            Some(gid) => seq![gid],
                            None => Seq::empty(),
                        },
                        seccomp_profile: Some("RuntimeDefault"@),
                    },
                ),
                restart_policy: Some("Never"@),
                service_account_name: None,
                node_name: None,
            },
        ),
        has_status: false,
    }
}

/// What comes of building the pod of a sandbox: the pod, or the first of these
/// that is missing: the name, the namespace, the uid, the specification as JSON.
pub open spec fn built(
    sandbox: Sandbox,
    cfg: ControllerConfig,
    spec_json: Result<Seq<char>, Seq<char>>,
) -> Result<PodView, PodBuildErrorView> {
    match sandbox.metadata.name {
        None => Err(
            PodBuildErrorView::MissingObjectKey { sandbox: "<unnamed>"@, key: "name"@ },
        ),
        Some(name) => match (sandbox.metadata.namespace, sandbox.metadata.uid, spec_json) {
            (None, _, _) => Err(
                PodBuildErrorView::MissingObjectKey { sandbox: name@, key: "namespace"@ },
            ),
            (_, None, _) => Err(
                PodBuildErrorView::MissingObjectKey { sandbox: name@, key: "uid"@ },
            ),
            (_, _, Err(source)) => Err(
                PodBuildErrorView::SpecEncode { sandbox: name@, source },
            ),
            (Some(ns), Some(uid), Ok(json)) => Ok(
                pod_view(name@, ns@, uid@, sandbox.spec, cfg, json),
            ),
        },
    }
}

/// Builds the sandbox Pod from the sandbox and its specification as JSON, or the
/// reason why there is none. A sandbox that lacks its name, namespace or uid gets
/// no pod, as the pod would have no owner.
pub fn build(
    sandbox: &Sandbox,
    cfg: &ControllerConfig,
    spec_json: Result<String, String>,
) -> (r: Result<Pod, PodBuildError>)
    ensures
        collections::res(r) == built(*sandbox, *cfg, collections::res(spec_json)),
{
    let name = match &sandbox.metadata.name {
        Some(n) => n,
        None => {
            return Err(
                PodBuildError::MissingObjectKey { sandbox: "<unnamed>".to_owned(), key: "name" },
            );
        },
    };
    let namespace = match &sandbox.metadata.namespace {
        Some(n) => n,
        None => {
            return Err(
                PodBuildError::MissingObjectKey { sandbox: name.clone(), key: "namespace" },
            );
        },
    };
    let owner = match sandbox.controller_owner_ref() {
        Some(o) => o,
        None => {
            return Err(PodBuildError::MissingObjectKey { sandbox: name.clone(), key: "uid" });
        },
    };
    let json = match spec_json {
        Ok(j) => j,
        Err(source) => {
            return Err(PodBuildError::SpecEncode { sandbox: name.clone(), source });
        },
    };
    let flat_name = msb_sandbox_name(namespace.as_str(), name.as_str());
    let mut owners = Vec::new();
    owners.push(owner);
    let mut inits: Vec<Container> = Vec::new();
    inits.push(bridge_container(cfg, flat_name.as_str()));
    if sandbox.spec.logging.guest_console {
        inits.push(console_container(cfg, flat_name.as_str()));
    }
    let mut containers: Vec<Container> = Vec::new();
    containers.push(
        runtime_container(cfg, json.as_str(), flat_name.as_str(), &sandbox.spec),
    );
    let mut groups: Vec<i64> = Vec::new();
    if let Some(gid) = cfg.kvm_gid {
        groups.push(gid);
    }
    let pod = Pod {
        metadata: ObjectMeta {
            name: Some(pod_name(name.as_str())),
            generate_name: None,
            namespace: Some(namespace.clone()),
            uid: None,
            generation: None,
            creation_timestamp: None,
            deletion_timestamp: None,
            labels: labels_for(name.as_str()),
            annotations: StringMap::new(),
            owner_references: owners,
        },
        spec: Some(
            PodSpec {
                init_containers: inits,
                containers,
                volumes: volumes(&sandbox.spec),
                security_context: Some(
                    PodSecurityContext {
                        run_as_non_root: Some(true),
                        run_as_user: Some(RUN_AS_USER),
                        supplemental_groups: groups,
                        seccomp_profile: Some("RuntimeDefault".to_owned()),
                    },
                ),
                restart_policy: Some("Never".to_owned()),
                service_account_name: None,
                node_name: None,
            },
        ),
        status: None,
    };
    proof {
        let v = pod_view(
            name@,
            namespace@,
            sandbox.metadata.uid->0@,
            sandbox.spec,
            *cfg,
            json@,
        );
        assert(pod@.metadata.owner_references =~= v.metadata.owner_references);
        assert(pod@.metadata =~= v.metadata);
        assert(pod@.spec->0.init_containers =~= v.spec->0.init_containers);
        assert(pod@.spec->0.containers =~= v.spec->0.containers);
        assert(pod@.spec->0.security_context->0 =~= v.spec->0.security_context->0);
        assert(pod@.spec->0 =~= v.spec->0);
    }
    Ok(pod)
}

/// No container of the pod may gain privileges, and none keeps a capability.
pub proof fn no_container_is_privileged(
    name: Seq<char>,
    namespace: Seq<char>,
    uid: Seq<char>,
    spec: SandboxSpec,
    cfg: ControllerConfig,
    spec_json: Seq<char>,
    c: ContainerView,
)
    requires
        ({
            let p = pod_view(name, namespace, uid, spec, cfg, spec_json).spec->0;
            p.containers.contains(c) || p.init_containers.contains(c)
        }),
    ensures
        c.security_context is Some,
        c.security_context->0.allow_privilege_escalation == Some(false),
        c.security_context->0.capabilities is Some,
        c.security_context->0.capabilities->0.add.len() == 0,
        c.security_context->0.capabilities->0.drop == seq!["ALL"@],
{
}

/// The runtime container asks for exactly one KVM device, and is the only one
/// that asks for any.
pub proof fn only_the_runtime_requests_kvm(
    name: Seq<char>,
    namespace: Seq<char>,
    uid: Seq<char>,
    spec: SandboxSpec,
    cfg: ControllerConfig,
    spec_json: Seq<char>,
    c: ContainerView,
)
    requires
        ({
            let p = pod_view(name, namespace, uid, spec, cfg, spec_json).spec->0;
            p.containers.contains(c) || p.init_containers.contains(c)
        }),
    ensures
        c.name == RUNTIME_CONTAINER@ ==> c.resources is Some
            && c.resources->0.limits.contains_pair(KVM_RESOURCE@, "1"@),
        c.name != RUNTIME_CONTAINER@ ==> c.resources is None,
{
    reveal_strlit("msb-runtime");
    reveal_strlit("msb-bridge");
    reveal_strlit("msb-console-log");
    assert(CONSOLE_CONTAINER@.len() == 15);
    assert(RUNTIME_CONTAINER@.len() == 11);
    assert(BRIDGE_CONTAINER@.len() == 10);
}

/// The pod has a console container exactly where the guest's console is captured.
pub proof fn console_container_is_opt_in(
    name: Seq<char>,
    namespace: Seq<char>,
    uid: Seq<char>,
    spec: SandboxSpec,
    cfg: ControllerConfig,
    spec_json: Seq<char>,
)
    ensures
        ({
            let p = pod_view(name, namespace, uid, spec, cfg, spec_json).spec->0;
            p.init_containers.contains(console_view(cfg, flat_name_of(namespace, name)))
                <==> spec.logging.guest_console
        }),
{
    reveal_strlit("msb-bridge");
    reveal_strlit("msb-console-log");
    let c = console_view(cfg, flat_name_of(namespace, name));
    let p = pod_view(name, namespace, uid, spec, cfg, spec_json).spec->0;
    assert(BRIDGE_CONTAINER@.len() == 10 && CONSOLE_CONTAINER@.len() == 15);
    if spec.logging.guest_console {
        assert(p.init_containers[1] == c);
    } else if p.init_containers.contains(c) {
        let i = choose|i: int| 0 <= i < p.init_containers.len() && p.init_containers[i] == c;
        assert(p.init_containers[i].name == BRIDGE_CONTAINER@);
    }
}

/// The memory that the runtime container requests is its limit: the guest RAM and
/// the overhead.
pub proof fn memory_request_is_the_limit(cpus: u32, memory_mib: u32)
    ensures
        ({
            let r = runtime_resources_view(cpus, memory_mib);
            let memory = text::dec(runtime_memory_mib(cpus, memory_mib) as nat) + "Mi"@;
            &&& r.requests.contains_pair("memory"@, memory)
            &&& r.limits.contains_pair("memory"@, memory)
        }),
{
    reveal_strlit("memory");
    reveal_strlit("cpu");
    reveal_strlit("ephemeral-storage");
    reveal_strlit("devices.microsandbox.dev/kvm");
    assert("memory"@.len() == 6);
    assert("cpu"@.len() == 3);
    assert("ephemeral-storage"@.len() == 17);
    assert(KVM_RESOURCE@.len() == 28);
}

/// Each Secret volume is mounted in the runtime container, read-only, under a
/// directory of the Secret's own name.
pub proof fn each_secret_volume_is_mounted(home: Seq<char>, spec: SandboxSpec, i: int)
    requires
        1 <= i < volumes_view(spec).len(),
    ensures
        volumes_view(spec).len() == runtime_mounts(home, spec).len(),
        runtime_mounts(home, spec)[i].name == volumes_view(spec)[i].name,
        runtime_mounts(home, spec)[i].read_only == Some(true),
        volumes_view(spec)[i].source is Secret,
        runtime_mounts(home, spec)[i].mount_path == SECRETS_MOUNT@ + "/"@
            + volumes_view(spec)[i].source->Secret_0.secret_name,
{
}

} // verus!
