//! The per-sandbox ClusterIP Service that fronts the bridge port.

use vstd::prelude::*;

use crate::collections;
use crate::collections::StringMap;
use crate::controller::config::{ControllerConfig, SANDBOX_NAME_LABEL};
use crate::controller::pod;
use crate::digest;
use crate::k8s;
use crate::k8s::{
    ObjectMeta, ObjectMetaView, Service, ServicePort, ServicePortView, ServiceSpec,
    ServiceSpecView, ServiceView,
};
use crate::names;
use crate::sandbox;
use crate::sandbox::{PortProtocol, PublishedPort, Sandbox};
use crate::text;

verus! {

/// The Service name of a sandbox: `msb-<readable>-<6 hex of sha256(name)>`.
pub open spec fn service_name_of(name: Seq<char>) -> Seq<char> {
    "msb-"@ + names::readable_part(name) + "-"@ + digest::text_digest(name).take(6)
}

/// `msb-<sanitized name>-<6 hex of sha256(name)>`: readable, yet always a valid
/// Service name, an RFC 1035 label, whatever the sandbox name looks like. Keyed on
/// the name alone: a Service is namespaced, so the name is already unique per
/// namespace.
pub fn service_name(name: &str) -> (out: String)
    ensures
        out@ == service_name_of(name@),
        names::rfc1035_label(out@),
        out@.take(4) == "msb-"@,
{
    let hash = digest::sha256_hex(name);
    let readable = names::readable(name);
    let short = hash.as_str().substring_char(0, 6);
    let out = "msb-".to_owned().concat(readable.as_str()).concat("-").concat(short);
    proof {
        reveal_strlit("msb-");
        reveal_strlit("-");
        let k = readable@.len() as int;
        assert forall|i: int| 0 <= i < out@.len() implies names::is_name_end(#[trigger] out@[i])
            || out@[i] == '-' by {
            if 4 <= i < 4 + k {
                assert(out@[i] == readable@[i - 4]);
            } else if i > 4 + k {
                assert(out@[i] == hash@[i - 5 - k]);
                assert(digest::is_hex(hash@[i - 5 - k]));
            }
        }
        assert(out@.last() == hash@[5]);
        assert(digest::is_hex(hash@[5]));
        assert(out@.take(4) =~= "msb-"@);
    }
    out
}

/// How a Service spells a protocol.
pub open spec fn protocol_text(p: PortProtocol) -> Seq<char> {
    match p {
        PortProtocol::Tcp => "TCP"@,
        PortProtocol::Udp => "UDP"@,
    }
}

/// A TCP port of the Service that leads to the pod's port of the same number.
pub open spec fn plain_port(name: Seq<char>, port: i32) -> ServicePortView {
    ServicePortView { name: Some(name), port, target_port: Some(port), protocol: Some("TCP"@) }
}

/// The Service port of a published port.
pub open spec fn published_port(p: PublishedPort) -> ServicePortView {
    ServicePortView {
        name: Some(pod::port_name_of(p.host())),
        port: p.host() as i32,
        target_port: Some(p.host() as i32),
        protocol: Some(protocol_text(p.protocol)),
    }
}

/// The ports of the Service: the bridge port, the bridge's control port, and every
/// published port.
pub open spec fn ports_view(sandbox: Sandbox, cfg: ControllerConfig) -> Seq<ServicePortView> {
    let published = sandbox.spec.network.published_ports@;
    seq![
        plain_port("agent"@, cfg.bridge_port),
        plain_port("control"@, cfg.bridge_control_port),
    ] + Seq::new(published.len(), |i: int| published_port(published[i]))
}

fn tcp_port(name: &str, port: i32) -> (p: ServicePort)
    ensures
        p@ == plain_port(name@, port),
{
    ServicePort {
        name: Some(name.to_owned()),
        port,
        target_port: Some(port),
        protocol: Some("TCP".to_owned()),
    }
}

/// The bridge port, the bridge's control port, and every published port.
pub fn service_ports(sandbox: &Sandbox, cfg: &ControllerConfig) -> (out: Vec<ServicePort>)
    ensures
        collections::views(out@) == ports_view(*sandbox, *cfg),
{
    let mut ports: Vec<ServicePort> = Vec::new();
    ports.push(tcp_port("agent", cfg.bridge_port));
    ports.push(tcp_port("control", cfg.bridge_control_port));
    let published = &sandbox.spec.network.published_ports;
    let ghost all = ports_view(*sandbox, *cfg);
    assert(collections::views(ports@) =~= all.take(2));
    let mut i: usize = 0;
    while i < published.len()
        invariant
            i <= published.len(),
            published@ == sandbox.spec.network.published_ports@,
            all == ports_view(*sandbox, *cfg),
            ports.len() == 2 + i,
            collections::views(ports@) == all.take(2 + i),
        decreases published.len() - i,
    {
        let p = &published[i];
        let host: i32 = p.host_port() as i32;
        let protocol = match p.protocol {
            PortProtocol::Tcp => "TCP",
            PortProtocol::Udp => "UDP",
        };
        let ghost before = ports@;
        ports.push(
            ServicePort {
                name: Some(pod::port_name(p.host_port())),
                port: host,
                target_port: Some(host),
                protocol: Some(protocol.to_owned()),
            },
        );
        proof {
            assert(all[2 + i] == published_port(*p));
            collections::grown(before, ports@, all);
        }
        i = i + 1;
    }
    assert(all.take(2 + i) =~= all);
    ports
}

/// Whether `p` is a port that the bridge has for itself.
pub open spec fn reserved(cfg: ControllerConfig, p: u16) -> bool {
    p as i32 == cfg.bridge_port || p as i32 == cfg.bridge_control_port
}

/// The first published port that collides with a reserved bridge port, if any.
pub open spec fn first_conflict(cfg: ControllerConfig, published: Seq<PublishedPort>) -> Option<u16>
    decreases published.len(),
{
    if published.len() == 0 {
        None
    } else if reserved(cfg, published[0].host()) {
        Some(published[0].host())
    } else {
        first_conflict(cfg, published.drop_first())
    }
}

/// The first published port that collides with a reserved bridge port, if any. A
/// collision would make a duplicate-port Service the API server rejects.
pub fn reserved_port_conflict(sandbox: &Sandbox, cfg: &ControllerConfig) -> (r: Option<u16>)
    ensures
        r == first_conflict(*cfg, sandbox.spec.network.published_ports@),
{
    let published = &sandbox.spec.network.published_ports;
    let mut i: usize = 0;
    assert(published@.skip(0) =~= published@);
    while i < published.len()
        invariant
            i <= published.len(),
            published@ == sandbox.spec.network.published_ports@,
            first_conflict(*cfg, published@) == first_conflict(*cfg, published@.skip(i as int)),
        decreases published.len() - i,
    {
        let host: u16 = published[i].host_port();
        assert(published@.skip(i as int)[0] == published@[i as int]);
        if host as i32 == cfg.bridge_port || host as i32 == cfg.bridge_control_port {
            return Some(host);
        }
        assert(published@.skip(i as int).drop_first() =~= published@.skip(i + 1));
        i = i + 1;
    }
    None
}

/// There is no conflict exactly where no published port is reserved; and then
/// none of the Service's published ports has the number of a bridge port.
pub proof fn no_conflict_means_no_collision(cfg: ControllerConfig, published: Seq<PublishedPort>)
    ensures
        first_conflict(cfg, published) is None <==> forall|i: int|
            0 <= i < published.len() ==> !reserved(cfg, (#[trigger] published[i]).host()),
        first_conflict(cfg, published) matches Some(p) ==> reserved(cfg, p),
    decreases published.len(),
{
    if published.len() > 0 && !reserved(cfg, published[0].host()) {
        let rest = published.drop_first();
        no_conflict_means_no_collision(cfg, rest);
        if first_conflict(cfg, rest) is None {
            assert forall|i: int| 0 <= i < published.len() implies !reserved(
                cfg,
                (#[trigger] published[i]).host(),
            ) by {
                if i > 0 {
                    assert(rest[i - 1] == published[i]);
                }
            }
        } else {
            let i = choose|i: int| 0 <= i < rest.len() && reserved(cfg, (#[trigger] rest[i]).host());
            assert(published[i + 1] == rest[i]);
        }
    }
}

/// The Service of a sandbox.
pub open spec fn service_view(
    sandbox: Sandbox,
    cfg: ControllerConfig,
    name: Seq<char>,
    namespace: Seq<char>,
) -> ServiceView {
    ServiceView {
        metadata: ObjectMetaView {
            name: Some(service_name_of(name)),
            namespace: Some(namespace),
            labels: pod::object_labels(name),
            owner_references: match (sandbox.metadata.name, sandbox.metadata.uid) {
                (Some(n), Some(uid)) => seq![sandbox::owner_view(n@, uid@)],
                _ => Seq::empty(),
            },
            ..k8s::empty_meta()
        },
        spec: ServiceSpecView {
            type_: Some("ClusterIP"@),
            selector: map![SANDBOX_NAME_LABEL@ => name],
            ports: ports_view(sandbox, cfg),
        },
    }
}

/// Builds the ClusterIP Service targeting the sandbox pod's bridge port.
pub fn build(sandbox: &Sandbox, cfg: &ControllerConfig, name: &str, namespace: &str) -> (s: Service)
    ensures
        s@ == service_view(*sandbox, *cfg, name@, namespace@),
{
    let mut owners = Vec::new();
    if let Some(o) = sandbox.controller_owner_ref() {
        owners.push(o);
    }
    let mut selector = StringMap::new();
    selector.insert(SANDBOX_NAME_LABEL.to_owned(), name.to_owned());
    let s = Service {
        metadata: ObjectMeta {
            name: Some(service_name(name)),
            generate_name: None,
            namespace: Some(namespace.to_owned()),
            uid: None,
            generation: None,
            creation_timestamp: None,
            deletion_timestamp: None,
            labels: pod::labels_for(name),
            annotations: StringMap::new(),
            owner_references: owners,
        },
        spec: ServiceSpec {
            type_: Some("ClusterIP".to_owned()),
            selector,
            ports: service_ports(sandbox, cfg),
        },
    };
    proof {
        let v = service_view(*sandbox, *cfg, name@, namespace@);
        assert(s@.metadata.owner_references =~= v.metadata.owner_references);
        assert(s@.metadata =~= v.metadata);
        assert(s@.spec =~= v.spec);
    }
    s
}

/// The Service selects the pod of its sandbox: the pod's labels hold every pair of
/// the selector.
pub proof fn service_selects_the_pod(
    sandbox: Sandbox,
    cfg: ControllerConfig,
    name: Seq<char>,
    namespace: Seq<char>,
    k: Seq<char>,
)
    requires
        service_view(sandbox, cfg, name, namespace).spec.selector.dom().contains(k),
    ensures
        pod::object_labels(name).contains_pair(
            k,
            service_view(sandbox, cfg, name, namespace).spec.selector[k],
        ),
{
}

/// The names of two Services are alike only where the sandboxes' names are, as far as they
/// are readable and as far as their digests tell.
pub proof fn service_names_tell_sandboxes_apart(a: Seq<char>, b: Seq<char>)
    ensures
        digest::text_digest(a).len() >= 6 && digest::text_digest(b).len() >= 6 && service_name_of(a)
            == service_name_of(b) ==> digest::text_digest(a).take(6) == digest::text_digest(b).take(
            6,
        ) && names::readable_part(a) == names::readable_part(b),
        service_name_of(a).take(4) == "msb-"@,
{
    reveal_strlit("msb-");
    reveal_strlit("-");
    let (x, y) = (service_name_of(a), service_name_of(b));
    assert(x.take(4) =~= "msb-"@);
    if digest::text_digest(a).len() >= 6 && digest::text_digest(b).len() >= 6 && x == y {
        let n = x.len() as int;
        assert(x.skip(n - 6) =~= digest::text_digest(a).take(6));
        assert(y.skip(n - 6) =~= digest::text_digest(b).take(6));
        assert(x.subrange(4, n - 7) =~= names::readable_part(a));
        assert(y.subrange(4, n - 7) =~= names::readable_part(b));
    }
}

} // verus!
