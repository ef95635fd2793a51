//! What holds of the objects that are made for a sandbox, and between them.

use vstd::prelude::*;

use crate::collections;
use crate::controller::config;
use crate::controller::config::{Adjustment, ControllerConfig, ControllerConfigView};
use crate::controller::plan::EffectView;
use crate::controller::pod;
use crate::controller::pod::PodBuildErrorView;
use crate::controller::reconcile;
use crate::controller::service;
use crate::k8s::{
    ContainerView, PodView, ServicePortView, ServiceView, VolumeSourceView, VolumeView,
};
use crate::launch::secrets;
use crate::paths;
use crate::sandbox::{PortProtocol, Sandbox, SandboxSpec};
use crate::text;

verus! {

/// Whether `p` is the pod that is built for a sandbox, given its specification as JSON.
pub open spec fn made(sandbox: Sandbox, cfg: ControllerConfig, json: Seq<char>, p: PodView) -> bool {
    pod::built(sandbox, cfg, Ok(json)) == Ok::<PodView, PodBuildErrorView>(p)
}

/// Whether `c` is a container of a pod, be it a sidecar or not.
pub open spec fn holds(p: PodView, c: ContainerView) -> bool {
    p.spec is Some && (p.spec->0.containers.contains(c) || p.spec->0.init_containers.contains(c))
}

/// Whether a container is started with this value of a variable, and no other.
pub open spec fn sets(c: ContainerView, name: Seq<char>, value: Seq<char>) -> bool {
    &&& exists|i: int| 0 <= i < c.env.len() && #[trigger] c.env[i] == (name, Some(value))
    &&& forall|i: int|
        0 <= i < c.env.len() && (#[trigger] c.env[i]).0 == name ==> c.env[i].1 == Some(value)
}

/// Whether a container sees a volume at a path, writable or not.
pub open spec fn mounts(c: ContainerView, volume: Seq<char>, path: Seq<char>, writable: bool) -> bool {
    exists|i: int|
        0 <= i < c.volume_mounts.len() && (#[trigger] c.volume_mounts[i]).name == volume
            && c.volume_mounts[i].mount_path == path && (c.volume_mounts[i].read_only == Some(true)
            <==> !writable)
}

/// The names of variables are told apart.
proof fn variables_differ()
    ensures
        "MSB_SANDBOX_SPEC"@ != "MSB_SANDBOX_NAME"@,
        "MSB_SANDBOX_SPEC"@ != "MSB_HOME"@,
        "MSB_SANDBOX_SPEC"@ != "RUST_LOG"@,
        "MSB_SANDBOX_SPEC"@ != "MSB_BRIDGE_PORT"@,
        "MSB_SANDBOX_NAME"@ != "MSB_HOME"@,
        "MSB_SANDBOX_NAME"@ != "RUST_LOG"@,
        "MSB_SANDBOX_NAME"@ != "MSB_BRIDGE_PORT"@,
        "MSB_HOME"@ != "RUST_LOG"@,
        "MSB_HOME"@ != "MSB_BRIDGE_PORT"@,
{
    reveal_strlit("MSB_SANDBOX_SPEC");
    reveal_strlit("MSB_SANDBOX_NAME");
    reveal_strlit("MSB_HOME");
    reveal_strlit("RUST_LOG");
    reveal_strlit("MSB_BRIDGE_PORT");
    assert("MSB_SANDBOX_SPEC"@.len() == 16 && "MSB_SANDBOX_NAME"@.len() == 16);
    assert("MSB_HOME"@.len() == 8 && "RUST_LOG"@.len() == 8 && "MSB_BRIDGE_PORT"@.len() == 15);
    assert("MSB_SANDBOX_SPEC"@[12] != "MSB_SANDBOX_NAME"@[12]);
    assert("MSB_HOME"@[0] != "RUST_LOG"@[0]);
}

/// The names of containers are told apart.
proof fn containers_differ()
    ensures
        pod::RUNTIME_CONTAINER@ == "msb-runtime"@,
        pod::BRIDGE_CONTAINER@ == "msb-bridge"@,
        pod::CONSOLE_CONTAINER@ == "msb-console-log"@,
        "msb-runtime"@ != "msb-bridge"@,
        "msb-runtime"@ != "msb-console-log"@,
        "msb-bridge"@ != "msb-console-log"@,
{
    reveal_strlit("msb-runtime");
    reveal_strlit("msb-bridge");
    reveal_strlit("msb-console-log");
    assert("msb-runtime"@.len() == 11);
    assert("msb-bridge"@.len() == 10);
    assert("msb-console-log"@.len() == 15);
}

/// Each container of the pod runs the image that is configured for it: the runtime, and
/// the console log, which is a command of the runtime's, the runtime image; the bridge
/// the bridge image. There is one runtime, which is no sidecar, and one bridge, which is
/// one.
pub proof fn each_container_runs_its_image(
    sandbox: Sandbox,
    cfg: ControllerConfig,
    json: Seq<char>,
    p: PodView,
    c: ContainerView,
)
    requires
        made(sandbox, cfg, json, p),
        holds(p, c),
    ensures
        c.name == "msb-runtime"@ || c.name == "msb-bridge"@ || c.name == "msb-console-log"@,
        c.name == "msb-runtime"@ ==> c.image == Some(cfg.runtime_image@) && c.args.len() == 0,
        c.name == "msb-bridge"@ ==> c.image == Some(cfg.bridge_image@) && c.args.len() == 0,
        c.name == "msb-console-log"@ ==> c.image == Some(cfg.runtime_image@) && c.args
            == seq!["console-log"@] && sandbox.spec.logging.guest_console,
        p.spec->0.containers.len() == 1,
        p.spec->0.containers[0].name == "msb-runtime"@,
        p.spec->0.init_containers[0].name == "msb-bridge"@,
        p.spec->0.init_containers.len() == if sandbox.spec.logging.guest_console {
            2int
        } else {
            1
        },
{
    containers_differ();
}

/// The containers of a pod agree on which sandbox they serve and where its home is, and
/// all see the home there: the runtime may write to it, the others only read. The home
/// is an empty directory of the pod's own.
pub proof fn containers_share_the_sandbox_and_its_home(
    sandbox: Sandbox,
    cfg: ControllerConfig,
    json: Seq<char>,
    p: PodView,
    c: ContainerView,
)
    requires
        made(sandbox, cfg, json, p),
        holds(p, c),
    ensures
        sets(
            c,
            "MSB_SANDBOX_NAME"@,
            sandbox.metadata.namespace->0@ + "__"@ + sandbox.metadata.name->0@,
        ),
        sets(c, "MSB_HOME"@, cfg.msb_home@),
        mounts(c, "msb-home"@, cfg.msb_home@, c.name == "msb-runtime"@),
        p.spec->0.volumes.contains(
            (VolumeView { name: "msb-home"@, source: VolumeSourceView::EmptyDir }),
        ),
{
    containers_differ();
    variables_differ();
    let (ns, name) = (sandbox.metadata.namespace->0@, sandbox.metadata.name->0@);
    let flat = ns + "__"@ + name;
    assert(c.volume_mounts[0].name == "msb-home"@);
    assert(p.spec->0.volumes[0].name == "msb-home"@);
    if c.name == "msb-runtime"@ {
        assert(c.env[1] == ("MSB_SANDBOX_NAME"@, Some(flat)));
        assert(c.env[2] == ("MSB_HOME"@, Some(cfg.msb_home@)));
    } else {
        assert(c.env[0] == ("MSB_SANDBOX_NAME"@, Some(flat)));
        assert(c.env[1] == ("MSB_HOME"@, Some(cfg.msb_home@)));
    }
}

/// The runtime is started with the specification and the configured log level; nothing
/// else of the pod carries the specification.
pub proof fn the_runtime_gets_the_specification(
    sandbox: Sandbox,
    cfg: ControllerConfig,
    json: Seq<char>,
    p: PodView,
    c: ContainerView,
)
    requires
        made(sandbox, cfg, json, p),
        holds(p, c),
    ensures
        c.name == "msb-runtime"@ ==> sets(c, "MSB_SANDBOX_SPEC"@, json) && sets(
            c,
            "RUST_LOG"@,
            cfg.runtime_log@,
        ),
        c.name != "msb-runtime"@ ==> forall|i: int|
            0 <= i < c.env.len() ==> (#[trigger] c.env[i]).0 != "MSB_SANDBOX_SPEC"@,
{
    containers_differ();
    variables_differ();
    if c.name == "msb-runtime"@ {
        assert(c.env[0] == ("MSB_SANDBOX_SPEC"@, Some(json)));
        assert(c.env[3] == ("RUST_LOG"@, Some(cfg.runtime_log@)));
    }
}

/// The pod runs as the sandbox's: named after it, in its namespace, owned by it. It is
/// never restarted by the kubelet, unlike its sidecars, and runs as an unprivileged user
/// under the default seccomp profile; where the group of the KVM device is known, it
/// joins that one alone.
pub proof fn the_pod_is_the_sandboxs_own(
    sandbox: Sandbox,
    cfg: ControllerConfig,
    json: Seq<char>,
    p: PodView,
    c: ContainerView,
)
    requires
        made(sandbox, cfg, json, p),
        holds(p, c),
    ensures
        p.metadata.name == Some("sandbox-"@ + sandbox.metadata.name->0@),
        p.metadata.namespace == Some(sandbox.metadata.namespace->0@),
        p.metadata.owner_references.len() == 1,
        p.metadata.owner_references[0].name == sandbox.metadata.name->0@,
        p.metadata.owner_references[0].uid == sandbox.metadata.uid->0@,
        p.metadata.owner_references[0].kind == "Sandbox"@,
        p.metadata.owner_references[0].api_version == "sandbox.microsandbox.dev/v1alpha1"@,
        p.metadata.owner_references[0].controller == Some(true),
        p.metadata.labels.contains_pair("microsandbox.dev/sandbox"@, "true"@),
        p.metadata.labels.contains_pair(
            "microsandbox.dev/sandbox-name"@,
            sandbox.metadata.name->0@,
        ),
        !p.has_status,
        p.spec->0.restart_policy == Some("Never"@),
        c.restart_policy == (if c.name == "msb-runtime"@ {
            None
        } else {
            Some("Always"@)
        }),
        p.spec->0.service_account_name is None,
        p.spec->0.node_name is None,
        p.spec->0.security_context is Some,
        p.spec->0.security_context->0.run_as_non_root == Some(true),
        p.spec->0.security_context->0.run_as_user == Some(1000i64),
        p.spec->0.security_context->0.seccomp_profile == Some("RuntimeDefault"@),
        match cfg.kvm_gid {
            Some(gid) => p.spec->0.security_context->0.supplemental_groups == seq![gid],
            None => p.spec->0.security_context->0.supplemental_groups.len() == 0,
        },
        c.security_context is Some,
        c.security_context->0.read_only_root_filesystem == (if c.name == "msb-runtime"@ {
            None
        } else {
            Some(true)
        }),
{
    containers_differ();
    reveal_strlit("microsandbox.dev/sandbox");
    reveal_strlit("microsandbox.dev/sandbox-name");
    assert("microsandbox.dev/sandbox"@.len() != "microsandbox.dev/sandbox-name"@.len());
}

/// What the runtime container is given follows the guest: of memory the guest's, 96 MiB,
/// a 512th of the guest's and 8 MiB for each vCPU, requested as well as limited; of
/// processors as many as the guest has vCPUs, of which a tenth is requested; and one KVM
/// device. No other container asks for anything.
pub proof fn resources_follow_the_guest(
    sandbox: Sandbox,
    cfg: ControllerConfig,
    json: Seq<char>,
    p: PodView,
    c: ContainerView,
)
    requires
        made(sandbox, cfg, json, p),
        holds(p, c),
    ensures
        c.name != "msb-runtime"@ ==> c.resources is None,
        c.name == "msb-runtime"@ ==> {
            let (cpus, guest) = (sandbox.spec.cpus as int, sandbox.spec.memory as int);
            let memory = text::dec((guest + 96 + guest / 512 + 8 * cpus) as nat) + "Mi"@;
            let r = c.resources->0;
            &&& c.resources is Some
            &&& r.requests.contains_pair("memory"@, memory)
            &&& r.limits.contains_pair("memory"@, memory)
            &&& r.limits.contains_pair("cpu"@, text::dec(cpus as nat))
            &&& r.requests.contains_pair("cpu"@, text::dec((100 * cpus) as nat) + "m"@)
            &&& r.requests.contains_pair("ephemeral-storage"@, text::dec(50) + "Mi"@)
            &&& r.limits.contains_pair("devices.microsandbox.dev/kvm"@, "1"@)
            &&& !r.limits.dom().contains("ephemeral-storage"@)
        },
{
    containers_differ();
    reveal_strlit("memory");
    reveal_strlit("cpu");
    reveal_strlit("ephemeral-storage");
    reveal_strlit("devices.microsandbox.dev/kvm");
    assert("memory"@.len() == 6 && "cpu"@.len() == 3);
    assert("ephemeral-storage"@.len() == 17 && "devices.microsandbox.dev/kvm"@.len() == 28);
    let cpus = sandbox.spec.cpus as int;
    assert((cpus * 1000 + 10 - 1) / 10 == 100 * cpus) by (nonlinear_arith);
    assert(pod::runtime_cpu_millis(sandbox.spec.cpus) == 100 * cpus);
}

/// Whether these are the pod and the Service that are applied for a sandbox.
pub open spec fn applies(
    sandbox: Sandbox,
    cfg: ControllerConfig,
    json: Seq<char>,
    p: PodView,
    svc: ServiceView,
) -> bool {
    let r = reconcile::create_outcome(sandbox, cfg, Ok(json));
    r is Ok && r->Ok_0.effects == seq![EffectView::ApplyPod(p), EffectView::ApplyService(svc)]
}

/// The pod that is applied is the one that is built.
proof fn applied_is_made(
    sandbox: Sandbox,
    cfg: ControllerConfig,
    json: Seq<char>,
    p: PodView,
    svc: ServiceView,
)
    requires
        applies(sandbox, cfg, json, p, svc),
    ensures
        made(sandbox, cfg, json, p),
        sandbox.metadata.any_name() == sandbox.metadata.name->0@,
        svc == service::service_view(
            sandbox,
            cfg,
            sandbox.metadata.name->0@,
            sandbox.metadata.namespace->0@,
        ),
{
    let r = reconcile::create_outcome(sandbox, cfg, Ok(json));
    let e = r->Ok_0.effects;
    let both = seq![EffectView::ApplyPod(p), EffectView::ApplyService(svc)];
    assert(e[0] == both[0]);
    assert(e[1] == both[1]);
}

/// The Service that is applied stands in front of the pod that is applied with it: in
/// the same namespace, of the same owner, and selecting by labels that the pod has. Its
/// `agent` port leads to the one that the bridge is told to listen on, its `control` port
/// to the configured one, each under the number it has on the pod.
pub proof fn the_service_leads_to_the_bridge(
    sandbox: Sandbox,
    cfg: ControllerConfig,
    json: Seq<char>,
    p: PodView,
    svc: ServiceView,
    c: ContainerView,
)
    requires
        applies(sandbox, cfg, json, p, svc),
        holds(p, c),
        c.name == "msb-bridge"@,
    ensures
        svc.metadata.name is Some,
        svc.metadata.name != p.metadata.name,
        svc.metadata.namespace == p.metadata.namespace,
        svc.metadata.owner_references == p.metadata.owner_references,
        svc.metadata.labels == p.metadata.labels,
        svc.spec.type_ == Some("ClusterIP"@),
        svc.spec.selector.contains_pair(
            "microsandbox.dev/sandbox-name"@,
            sandbox.metadata.name->0@,
        ),
        svc.spec.selector.submap_of(p.metadata.labels),
        sets(c, "MSB_BRIDGE_PORT"@, text::dec_int(cfg.bridge_port as int)),
        c.ports.len() == 1,
        c.ports[0].container_port == cfg.bridge_port,
        c.ports[0].protocol == Some("TCP"@),
        svc.spec.ports[0] == (ServicePortView {
            name: Some("agent"@),
            port: c.ports[0].container_port,
            target_port: Some(c.ports[0].container_port),
            protocol: Some("TCP"@),
        }),
        svc.spec.ports[1] == (ServicePortView {
            name: Some("control"@),
            port: cfg.bridge_control_port,
            target_port: Some(cfg.bridge_control_port),
            protocol: Some("TCP"@),
        }),
        svc.spec.ports.len() == 2 + sandbox.spec.network.published_ports@.len(),
{
    applied_is_made(sandbox, cfg, json, p, svc);
    containers_differ();
    variables_differ();
    reveal_strlit("microsandbox.dev/sandbox");
    reveal_strlit("microsandbox.dev/sandbox-name");
    reveal_strlit("msb-");
    reveal_strlit("sandbox-");
    assert("microsandbox.dev/sandbox"@.len() != "microsandbox.dev/sandbox-name"@.len());
    assert(svc.metadata.name->0[0] == 'm');
    assert(p.metadata.name->0[0] == 's');
    assert(c.env[2] == ("MSB_BRIDGE_PORT"@, Some(text::dec_int(cfg.bridge_port as int))));
    assert(svc.spec.selector.submap_of(p.metadata.labels));
}

/// A published port is reachable on the Service under its pod-side number, which leads to
/// the same number on the pod, under the same protocol. Where no port was refused, it is
/// none of the bridge's.
pub proof fn a_published_port_is_on_the_service(
    sandbox: Sandbox,
    cfg: ControllerConfig,
    json: Seq<char>,
    p: PodView,
    svc: ServiceView,
    i: int,
)
    requires
        applies(sandbox, cfg, json, p, svc),
        0 <= i < sandbox.spec.network.published_ports@.len(),
    ensures
        ({
            let published = sandbox.spec.network.published_ports@[i];
            let number = match published.host_port {
                Some(n) => n,
                None => published.guest_port,
            };
            let port = svc.spec.ports[2 + i];
            &&& port.port == number
            &&& port.target_port == Some(port.port)
            &&& port.name == Some("port-"@ + text::dec(number as nat))
            &&& port.protocol == Some(
                match published.protocol {
                    PortProtocol::Tcp => "TCP"@,
                    PortProtocol::Udp => "UDP"@,
                },
            )
            &&& service::first_conflict(cfg, sandbox.spec.network.published_ports@) is None ==> {
                &&& port.port != svc.spec.ports[0].port
                &&& port.port != svc.spec.ports[1].port
            }
        }),
{
    applied_is_made(sandbox, cfg, json, p, svc);
    service::no_conflict_means_no_collision(cfg, sandbox.spec.network.published_ports@);
}

/// The keys of a Secret among the first `n` references have a listing.
proof fn keys_listed(spec: SandboxSpec, name: Seq<char>, n: int) -> (q: Seq<Seq<char>>)
    requires
        0 <= n <= spec.secrets@.len(),
    ensures
        forall|k: Seq<char>|
            q.contains(k) <==> exists|i: int|
                0 <= i < n && (#[trigger] spec.secrets@[i]).value_from.secret_key_ref.name@ == name
                    && spec.secrets@[i].value_from.secret_key_ref.key@ == k,
    decreases n,
{
    if n == 0 {
        Seq::empty()
    } else {
        let before = keys_listed(spec, name, n - 1);
        let s = spec.secrets@[n - 1].value_from.secret_key_ref;
        let q = if s.name@ == name {
            before.push(s.key@)
        } else {
            before
        };
        assert forall|k: Seq<char>|
            q.contains(k) <==> exists|i: int|
                0 <= i < n && (#[trigger] spec.secrets@[i]).value_from.secret_key_ref.name@ == name
                    && spec.secrets@[i].value_from.secret_key_ref.key@ == k by {
            if q.contains(k) {
                let j = choose|j: int| 0 <= j < q.len() && q[j] == k;
                if j < before.len() {
                    assert(before[j] == k);
                    assert(before.contains(k));
                } else {
                    assert(spec.secrets@[n - 1].value_from.secret_key_ref.key@ == k);
                }
            }
            if exists|i: int|
                0 <= i < n && (#[trigger] spec.secrets@[i]).value_from.secret_key_ref.name@ == name
                    && spec.secrets@[i].value_from.secret_key_ref.key@ == k {
                let i = choose|i: int|
                    0 <= i < n && (#[trigger] spec.secrets@[i]).value_from.secret_key_ref.name@
                        == name && spec.secrets@[i].value_from.secret_key_ref.key@ == k;
                if i < n - 1 {
                    assert(before.contains(k));
                    let j = choose|j: int| 0 <= j < before.len() && before[j] == k;
                    assert(q[j] == k);
                } else {
                    assert(q[before.len() as int] == k);
                }
            }
        }
        q
    }
}

/// The referenced keys of a Secret are listed, all of them and nothing else.
proof fn referenced_keys_are_listed(spec: SandboxSpec, name: Seq<char>)
    ensures
        forall|k: Seq<char>|
            collections::in_order(pod::key_set(spec, name)).contains(k) <==> pod::references(
                spec,
                name,
                k,
            ),
{
    let q = keys_listed(spec, name, spec.secrets@.len() as int);
    assert(q.to_set() =~= pod::key_set(spec, name));
    collections::in_order_lists(q);
    let listed = collections::in_order(pod::key_set(spec, name));
    assert forall|k: Seq<char>| listed.contains(k) <==> pod::references(spec, name, k) by {
        assert(listed.to_set().contains(k) <==> q.to_set().contains(k));
    }
}

/// The files of a volume: the key of a Secret that each holds, and its name.
pub open spec fn files(v: VolumeView) -> Seq<(Seq<char>, Seq<char>)> {
    match v.source {
        VolumeSourceView::Secret(s) => s.items,
        VolumeSourceView::EmptyDir => Seq::empty(),
    }
}

/// Whether a volume holds this key of this Secret, in a file of the key's own name that
/// everyone may read.
pub open spec fn carries(v: VolumeView, name: Seq<char>, key: Seq<char>) -> bool {
    &&& v.source is Secret
    &&& v.source->Secret_0.secret_name == name
    &&& v.source->Secret_0.default_mode == Some(0o444i32)
    &&& files(v).contains((key, key))
}

/// Every key that a secret of the specification refers to is in a volume of the pod,
/// which the runtime container, and no other, sees, read-only, under the Secret's name.
pub proof fn a_referenced_key_is_mounted(
    sandbox: Sandbox,
    cfg: ControllerConfig,
    json: Seq<char>,
    p: PodView,
    c: ContainerView,
    i: int,
)
    requires
        made(sandbox, cfg, json, p),
        holds(p, c),
        0 <= i < sandbox.spec.secrets@.len(),
    ensures
        ({
            let r = sandbox.spec.secrets@[i].value_from.secret_key_ref;
            &&& c.name == "msb-runtime"@ ==> exists|k: int|
                0 <= k < p.spec->0.volumes.len() && carries(
                    #[trigger] p.spec->0.volumes[k],
                    r.name@,
                    r.key@,
                ) && mounts(c, p.spec->0.volumes[k].name, "/msb-secrets/"@ + r.name@, false)
            &&& c.name != "msb-runtime"@ ==> c.volume_mounts.len() == 1
        }),
{
    containers_differ();
    let spec = sandbox.spec;
    let r = spec.secrets@[i].value_from.secret_key_ref;
    let names = pod::secret_names(spec);
    if c.name == "msb-runtime"@ {
        collections::in_order_lists(pod::secret_refs(spec));
        assert(pod::secret_refs(spec)[i] == r.name@);
        assert(names.to_set().contains(r.name@));
        let n = choose|n: int| 0 <= n < names.len() && names[n] == r.name@;
        let v = p.spec->0.volumes[1 + n];
        assert(v == pod::secret_volume(spec, r.name@));
        referenced_keys_are_listed(spec, r.name@);
        assert(spec.secrets@[i].value_from.secret_key_ref.name@ == r.name@);
        assert(pod::references(spec, r.name@, r.key@));
        let keys = collections::in_order(pod::key_set(spec, r.name@));
        let k = choose|k: int| 0 <= k < keys.len() && keys[k] == r.key@;
        assert(files(v)[k] == (r.key@, r.key@));
        assert(carries(v, r.name@, r.key@));
        assert(c.volume_mounts[1 + n] == pod::secret_mount(r.name@));
        reveal_strlit("/msb-secrets");
        reveal_strlit("/msb-secrets/");
        reveal_strlit("/");
        assert(pod::SECRETS_MOUNT@ + "/"@ + r.name@ =~= "/msb-secrets/"@ + r.name@);
        assert(c.volume_mounts[1 + n].name == v.name);
    }
}

/// Nothing but what is referred to is in a volume of the pod: each is the home, or holds
/// keys of a Secret that the specification refers to.
pub proof fn only_referenced_keys_are_mounted(
    sandbox: Sandbox,
    cfg: ControllerConfig,
    json: Seq<char>,
    p: PodView,
    v: VolumeView,
    j: int,
)
    requires
        made(sandbox, cfg, json, p),
        p.spec->0.volumes.contains(v),
    ensures
        v.source is EmptyDir ==> v.name == "msb-home"@,
        v.source is Secret && 0 <= j < files(v).len() ==> {
            &&& files(v)[j].0 == files(v)[j].1
            &&& exists|i: int|
                0 <= i < sandbox.spec.secrets@.len() && (
                #[trigger] sandbox.spec.secrets@[i]).value_from.secret_key_ref.name@
                    == v.source->Secret_0.secret_name
                    && sandbox.spec.secrets@[i].value_from.secret_key_ref.key@ == files(v)[j].0
        },
{
    let spec = sandbox.spec;
    if v.source is Secret && 0 <= j < files(v).len() {
        let name = v.source->Secret_0.secret_name;
        referenced_keys_are_listed(spec, name);
        let keys = collections::in_order(pod::key_set(spec, name));
        assert(files(v)[j] == (keys[j], keys[j]));
        assert(keys.contains(keys[j]));
        assert(pod::references(spec, name, files(v)[j].0));
    }
}

/// The runtime reads a key of a Secret where the pod mounts it: at the file of the key's
/// name, in the directory that the Secret is mounted at.
pub proof fn a_key_is_read_where_it_is_mounted(name: Seq<char>, key: Seq<char>)
    requires
        name.len() > 0,
        name[0] != '/',
        name.last() != '/',
        key.len() > 0,
        key[0] != '/',
    ensures
        secrets::mounted_at("/msb-secrets"@, name, key) == "/msb-secrets/"@ + name + "/"@ + key,
{
    reveal_strlit("/msb-secrets");
    reveal_strlit("/msb-secrets/");
    reveal_strlit("/");
    let dir = paths::joined("/msb-secrets"@, name);
    assert(dir =~= "/msb-secrets/"@ + name);
    assert(dir.last() == name.last());
    assert(paths::joined(dir, key) =~= "/msb-secrets/"@ + name + "/"@ + key);
}

/// What the settings were made for is what the objects of every sandbox get, however the
/// settings were adjusted and copied since: the images their containers run, the home they
/// share, and the port that leads to the bridge. Unless it was set otherwise, the control
/// port is 8080 and the log level `info`.
pub proof fn the_objects_follow_the_settings(
    home: Seq<char>,
    runtime_image: Seq<char>,
    bridge_image: Seq<char>,
    bridge_port: i32,
    by: Seq<Adjustment>,
    sandbox: Sandbox,
    cfg: ControllerConfig,
    json: Seq<char>,
    p: PodView,
    svc: ServiceView,
    c: ContainerView,
)
    requires
        cfg@ == config::all_adjusted(
            config::initial(home, runtime_image, bridge_image, bridge_port),
            by,
        ),
        applies(sandbox, cfg, json, p, svc),
        holds(p, c),
    ensures
        c.name == "msb-runtime"@ ==> c.image == Some(runtime_image),
        c.name == "msb-bridge"@ ==> c.image == Some(bridge_image),
        c.name == "msb-console-log"@ ==> c.image == Some(runtime_image),
        sets(c, "MSB_HOME"@, home),
        svc.spec.ports[0].port == bridge_port,
        svc.spec.ports[0].target_port == Some(bridge_port),
        by.len() == 0 ==> svc.spec.ports[1].port == 8080,
        by.len() == 0 && c.name == "msb-runtime"@ ==> sets(c, "RUST_LOG"@, "info"@),
        by.len() > 0 && by.last() is BridgeControlPort ==> svc.spec.ports[1].port
            == by.last()->BridgeControlPort_0,
        by.len() > 0 && by.last() is RuntimeLog && c.name == "msb-runtime"@ ==> sets(
            c,
            "RUST_LOG"@,
            by.last()->RuntimeLog_0,
        ),
        by.len() > 0 && by.last() is KvmGid ==> p.spec->0.security_context->0.supplemental_groups
            == seq![by.last()->KvmGid_0],
{
    let start = config::initial(home, runtime_image, bridge_image, bridge_port);
    applied_is_made(sandbox, cfg, json, p, svc);
    the_fixed_settings_are_kept(start, by);
    assert(cfg@.msb_home == cfg.msb_home@);
    assert(cfg@.runtime_image == cfg.runtime_image@);
    assert(cfg@.bridge_image == cfg.bridge_image@);
    assert(cfg@.bridge_port == cfg.bridge_port);
    assert(cfg@.bridge_control_port == cfg.bridge_control_port);
    assert(cfg@.runtime_log == cfg.runtime_log@);
    assert(cfg@.kvm_gid == cfg.kvm_gid);
    each_container_runs_its_image(sandbox, cfg, json, p, c);
    containers_share_the_sandbox_and_its_home(sandbox, cfg, json, p, c);
    the_runtime_gets_the_specification(sandbox, cfg, json, p, c);
    the_pod_is_the_sandboxs_own(sandbox, cfg, json, p, c);
}

/// No adjustment changes the images, the home or the bridge port.
proof fn the_fixed_settings_are_kept(cfg: ControllerConfigView, by: Seq<Adjustment>)
    ensures
        ({
            let after = config::all_adjusted(cfg, by);
            &&& after.msb_home == cfg.msb_home
            &&& after.runtime_image == cfg.runtime_image
            &&& after.bridge_image == cfg.bridge_image
            &&& after.bridge_port == cfg.bridge_port
        }),
    decreases by.len(),
{
    if by.len() > 0 {
        the_fixed_settings_are_kept(cfg, by.drop_last());
    }
}

} // verus!
