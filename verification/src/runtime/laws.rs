//! What holds of a boot: what a client asks for is what the guest gets.

use vstd::prelude::*;

use crate::collections;
use crate::controller::config::ControllerConfig;
use crate::controller::object_laws;
use crate::controller::plan::EffectView;
use crate::controller::reconcile;
use crate::gateway::convert;
use crate::gateway::wire::{
    CloudCreateSandboxRequest, CloudRlimitResource, WireSecurityProfile,
};
use crate::k8s::{PodView, ServiceView};
use crate::launch::network;
use crate::launch::network::{
    Action, Destination, DestinationGroup, Direction, NetworkConfig, SecretEntry,
};
use crate::launch::secrets;
use crate::launch::secrets::Plaintext;
use crate::runtime::boot;
use crate::runtime::boot::BootPlan;
use crate::runtime::net;
use crate::runtime::net::{HostRuleView, NetworkPlan, NetworkPolicyView, NetworkProfile};
use crate::runtime::quantity;
use crate::runtime::quantity::QuantityView;
use crate::sandbox;
use crate::sandbox::{
    PolicyPreset, ResolvedSecret, RlimitResource, Sandbox, SandboxSpec, SecurityProfile,
};
use crate::text;

verus! {

/// Whether all traffic to a group of destinations gets out under the policy that the
/// runtime sets up.
pub open spec fn reaches(p: NetworkPolicyView, g: DestinationGroup) -> bool {
    match p {
        NetworkPolicyView::AllowAll => true,
        NetworkPolicyView::Nothing => false,
        NetworkPolicyView::Profiles(ps) => match g {
            DestinationGroup::Public => ps.contains(NetworkProfile::Public),
            DestinationGroup::Private => ps.contains(NetworkProfile::Private),
            DestinationGroup::Host => false,
        },
    }
}

/// Whether all traffic to a group of destinations gets out under a launch policy: by
/// default, or by a rule that is limited to no protocol and no port.
pub open spec fn lets_out(p: network::NetworkPolicyView, g: DestinationGroup) -> bool {
    ||| p.default_egress == Action::Allow
    ||| exists|i: int|
        {
            &&& 0 <= i < p.rules.len()
            &&& (#[trigger] p.rules[i]).direction == Direction::Egress
            &&& p.rules[i].destination == Destination::Group(g)
            &&& p.rules[i].action == Action::Allow
            &&& p.rules[i].protocols.len() == 0
            &&& p.rules[i].ports.len() == 0
        }
}

/// The guest reaches what its preset says: the public network under every preset but
/// `DenyAll`, private networks under `NonLocal` and `AllowAll` only, the node itself under
/// `AllowAll` only. The policy that the runtime sets up and the one of the launch
/// configuration agree on that for each group of destinations.
pub proof fn the_guest_reaches_what_its_preset_says(
    plan: NetworkPlan,
    launched: NetworkConfig,
    spec: SandboxSpec,
    secrets: Seq<ResolvedSecret>,
    entries: Seq<SecretEntry>,
    g: DestinationGroup,
)
    requires
        net::plan_matches(plan, spec, secrets),
        network::network_matches(launched, spec, entries),
    ensures
        reaches(plan.policy@, g) <==> lets_out(launched.policy@, g),
        reaches(plan.policy@, DestinationGroup::Public) <==> spec.network.policy.preset
            != PolicyPreset::DenyAll,
        reaches(plan.policy@, DestinationGroup::Private) <==> spec.network.policy.preset
            == PolicyPreset::NonLocal || spec.network.policy.preset == PolicyPreset::AllowAll,
        reaches(plan.policy@, DestinationGroup::Host) <==> spec.network.policy.preset
            == PolicyPreset::AllowAll,
{
    let policy = launched.policy@;
    match spec.network.policy.preset {
        PolicyPreset::PublicOnly => {
            let ps = plan.policy@->Profiles_0;
            assert(ps[0] == NetworkProfile::Public);
            assert(policy.rules[1] == network::egress_rule(DestinationGroup::Public));
        },
        PolicyPreset::NonLocal => {
            let ps = plan.policy@->Profiles_0;
            assert(ps[0] == NetworkProfile::Public);
            assert(ps[1] == NetworkProfile::Private);
            assert(policy.rules[1] == network::egress_rule(DestinationGroup::Public));
            assert(policy.rules[2] == network::egress_rule(DestinationGroup::Private));
        },
        _ => {},
    }
}

/// Distinct presets give distinct policies, set up by the runtime as well as launched.
pub proof fn presets_differ(
    a: NetworkPlan,
    b: NetworkPlan,
    la: NetworkConfig,
    lb: NetworkConfig,
    sa: SandboxSpec,
    sb: SandboxSpec,
    secrets: Seq<ResolvedSecret>,
    entries: Seq<SecretEntry>,
)
    requires
        net::plan_matches(a, sa, secrets),
        net::plan_matches(b, sb, secrets),
        network::network_matches(la, sa, entries),
        network::network_matches(lb, sb, entries),
        sa.network.policy.preset != sb.network.policy.preset,
    ensures
        a.policy@ != b.policy@,
        la.policy@ != lb.policy@,
{
    the_guest_reaches_what_its_preset_says(a, la, sa, secrets, entries, DestinationGroup::Public);
    the_guest_reaches_what_its_preset_says(b, lb, sb, secrets, entries, DestinationGroup::Public);
    the_guest_reaches_what_its_preset_says(a, la, sa, secrets, entries, DestinationGroup::Private);
    the_guest_reaches_what_its_preset_says(b, lb, sb, secrets, entries, DestinationGroup::Private);
    the_guest_reaches_what_its_preset_says(a, la, sa, secrets, entries, DestinationGroup::Host);
    the_guest_reaches_what_its_preset_says(b, lb, sb, secrets, entries, DestinationGroup::Host);
}

/// A guest whose egress is limited can still look names up: at the node, over UDP and TCP,
/// at port 53, and nowhere else at the node.
pub proof fn names_can_be_looked_up(
    launched: NetworkConfig,
    spec: SandboxSpec,
    entries: Seq<SecretEntry>,
    i: int,
)
    requires
        network::network_matches(launched, spec, entries),
        spec.network.policy.preset == PolicyPreset::PublicOnly || spec.network.policy.preset
            == PolicyPreset::NonLocal,
    ensures
        launched.policy@.default_egress == Action::Deny,
        launched.policy@.default_ingress == Action::Allow,
        launched.policy@.rules.len() > 0,
        launched.policy@.rules[0].action == Action::Allow,
        launched.policy@.rules[0].destination == Destination::Group(DestinationGroup::Host),
        launched.policy@.rules[0].protocols.contains(network::Protocol::Udp),
        launched.policy@.rules[0].protocols.contains(network::Protocol::Tcp),
        launched.policy@.rules[0].ports == seq![network::PortRange { start: 53, end: 53 }],
        0 < i < launched.policy@.rules.len() ==> launched.policy@.rules[i].destination
            != Destination::Group(DestinationGroup::Host),
{
    let r = launched.policy@.rules[0];
    assert(r.protocols[0] == network::Protocol::Udp);
    assert(r.protocols[1] == network::Protocol::Tcp);
}

/// What the runtime sets up of the network is what the specification says of it, and what
/// the launch configuration says of it, field by field and port by port.
pub proof fn the_network_is_set_up_as_specified(
    plan: NetworkPlan,
    launched: NetworkConfig,
    spec: SandboxSpec,
    secrets: Seq<ResolvedSecret>,
    entries: Seq<SecretEntry>,
    i: int,
)
    requires
        net::plan_matches(plan, spec, secrets),
        network::network_matches(launched, spec, entries),
    ensures
        plan.enabled == spec.network.enabled,
        launched.enabled == plan.enabled,
        plan.max_connections == spec.network.max_connections,
        launched.max_connections == Some(plan.max_connections),
        plan.trust_host_cas == spec.network.trust_host_cas,
        launched.trust_host_cas == plan.trust_host_cas,
        plan.intercepted_ports is Some <==> spec.network.tls.intercept,
        launched.tls.enabled == spec.network.tls.intercept,
        plan.intercepted_ports is Some ==> plan.intercepted_ports->0@
            == launched.tls.intercepted_ports@,
        launched.tls.intercepted_ports@.len() == spec.network.tls.intercepted_ports@.len(),
        0 <= i < spec.network.tls.intercepted_ports@.len() ==> launched.tls.intercepted_ports@[i]
            == spec.network.tls.intercepted_ports@[i].port,
        plan.ports@.len() == spec.network.published_ports@.len(),
        launched.ports@.len() == plan.ports@.len(),
        0 <= i < plan.ports@.len() ==> {
            let p = spec.network.published_ports@[i];
            let (set, put) = (plan.ports@[i], launched.ports@[i]);
            &&& set.guest == p.guest_port
            &&& set.host == (match p.host_port {
                Some(n) => n,
                None => p.guest_port,
            })
            &&& set.host_bind@ == p.host_bind@
            &&& set.protocol == p.protocol
            &&& put.guest_port == set.guest
            &&& put.host_port == set.host
            &&& put.host_bind@ == "0.0.0.0"@
            &&& put.protocol == network::PortProtocol::Tcp <==> p.protocol
                == sandbox::PortProtocol::Tcp
            &&& put.protocol == network::PortProtocol::Udp <==> p.protocol
                == sandbox::PortProtocol::Udp
        },
        launched.dns.rebind_protection == spec.network.dns.rebind_protection,
        launched.dns.query_timeout_ms == spec.network.dns.query_timeout_ms,
        launched.dns.nameservers@.len() == spec.network.dns.nameservers@.len(),
        0 <= i < launched.dns.nameservers@.len() ==> launched.dns.nameservers@[i]@
            == spec.network.dns.nameservers@[i]@,
        launched.secrets.secrets@ == entries,
{
    let published = spec.network.published_ports@;
    let binds = collections::views(plan.ports@);
    let puts = collections::views(launched.ports@);
    assert(binds.len() == published.len());
    assert(puts.len() == published.len());
    if 0 <= i < published.len() {
        assert(binds[i] == plan.ports@[i]@);
        assert(puts[i] == launched.ports@[i]@);
        assert(puts[i] == network::port_view(published[i]));
    }
    let servers = collections::views(launched.dns.nameservers@);
    let wanted = collections::views(spec.network.dns.nameservers@);
    assert(servers.len() == wanted.len());
    if 0 <= i < servers.len() {
        assert(servers[i] == launched.dns.nameservers@[i]@);
        assert(wanted[i] == spec.network.dns.nameservers@[i]@);
    }
}

/// A port that the sandbox publishes leads from its Service through the pod into the
/// guest: the pod-side port that the Service leads to is the one that the runtime binds,
/// and behind it is the port of the guest.
pub proof fn a_published_port_leads_into_the_guest(
    sandbox: Sandbox,
    cfg: ControllerConfig,
    json: Seq<char>,
    p: PodView,
    svc: ServiceView,
    secrets: Seq<ResolvedSecret>,
    plan: BootPlan,
    i: int,
)
    requires
        object_laws::applies(sandbox, cfg, json, p, svc),
        boot::boots(plan, sandbox.spec, secrets),
        0 <= i < sandbox.spec.network.published_ports@.len(),
    ensures
        plan.network.ports@.len() + 2 == svc.spec.ports.len(),
        svc.spec.ports[2 + i].target_port == Some(plan.network.ports@[i].host as i32),
        plan.network.ports@[i].guest == sandbox.spec.network.published_ports@[i].guest_port,
        svc.spec.ports[2 + i].protocol == Some("TCP"@) <==> plan.network.ports@[i].protocol
            == sandbox::PortProtocol::Tcp,
{
    object_laws::a_published_port_is_on_the_service(sandbox, cfg, json, p, svc, i);
    reveal_strlit("TCP");
    reveal_strlit("UDP");
    assert("TCP"@[0] != "UDP"@[0]);
    let both = seq![EffectView::ApplyPod(p), EffectView::ApplyService(svc)];
    let e = reconcile::create_outcome(sandbox, cfg, Ok(json))->Ok_0.effects;
    assert(e[1] == both[1]);
    let published = sandbox.spec.network.published_ports@;
    let binds = collections::views(plan.network.ports@);
    assert(binds.len() == published.len());
    assert(binds[i] == plan.network.ports@[i]@);
}

/// The guest is booted as its specification says: from its image, with its vCPUs, its
/// memory and the ceilings of both, which are their own where none is set; with its
/// command, environment, identity and limits.
pub proof fn the_guest_is_booted_as_specified(
    spec: SandboxSpec,
    secrets: Seq<ResolvedSecret>,
    plan: BootPlan,
    i: int,
)
    requires
        boot::boots(plan, spec, secrets),
    ensures
        plan.image@ == spec.image@,
        plan.cpus == spec.cpus,
        plan.memory == spec.memory,
        spec.max_cpus is None ==> plan.max_cpus == plan.cpus,
        spec.max_memory is None ==> plan.max_memory == plan.memory,
        spec.max_cpus matches Some(n) ==> plan.max_cpus == n,
        spec.max_memory matches Some(n) ==> plan.max_memory == n,
        plan.entrypoint is None <==> spec.entrypoint@.len() == 0,
        plan.entrypoint matches Some(words) ==> collections::views(words@) == collections::views(
            spec.entrypoint@,
        ),
        plan.background_command is None <==> spec.cmd@.len() == 0,
        plan.background_command matches Some(words) ==> collections::views(words@)
            == collections::views(spec.cmd@),
        plan.env@.len() == spec.env@.len(),
        0 <= i < plan.env@.len() ==> plan.env@[i].name@ == spec.env@[i].name@ && plan.env@[i].value@
            == spec.env@[i].value@,
        collections::opt(plan.workdir) == collections::opt(spec.workdir),
        collections::opt(plan.shell) == collections::opt(spec.shell),
        collections::opt(plan.user) == collections::opt(spec.user),
        collections::opt(plan.hostname) == collections::opt(spec.hostname),
        plan.max_duration_secs == spec.max_duration_secs,
        plan.idle_timeout_secs == spec.idle_timeout_secs,
        plan.security_profile == spec.security_profile,
        plan.rlimits@ == spec.rlimits@,
        plan.network.enabled == spec.network.enabled,
{
    let (set, asked) = (collections::views(plan.env@), collections::views(spec.env@));
    assert(set.len() == asked.len());
    if 0 <= i < set.len() {
        assert(set[i] == plan.env@[i]@);
        assert(asked[i] == spec.env@[i]@);
    }
}

/// The limits on its lifetime that a cloud client asks for reach the guest: when it is
/// idle, and in all.
pub proof fn a_requested_lifetime_reaches_the_guest(
    req: CloudCreateSandboxRequest,
    spec: SandboxSpec,
    secrets: Seq<ResolvedSecret>,
    plan: BootPlan,
)
    requires
        convert::spec_matches(spec, req, req.image->reference@),
        boot::boots(plan, spec, secrets),
    ensures
        plan.idle_timeout_secs == req.lifecycle.idle_timeout_secs,
        plan.max_duration_secs == req.lifecycle.max_duration_secs,
{
}

/// What a cloud client asks to run reaches the guest: the image, with so many vCPUs and so
/// much memory, and no room for more; the words of the entrypoint and of the command, the
/// variables, the working directory, the shell and the user.
pub proof fn a_requested_workload_reaches_the_guest(
    req: CloudCreateSandboxRequest,
    spec: SandboxSpec,
    secrets: Seq<ResolvedSecret>,
    plan: BootPlan,
    i: int,
)
    requires
        convert::spec_matches(spec, req, req.image->reference@),
        boot::boots(plan, spec, secrets),
    ensures
        plan.image@ == req.image->reference@,
        plan.cpus == req.resources.vcpus,
        plan.memory == req.resources.memory_mib,
        plan.max_cpus == req.resources.vcpus,
        plan.max_memory == req.resources.memory_mib,
        req.runtime.entrypoint is Some && req.runtime.entrypoint->0@.len() > 0
            ==> plan.entrypoint is Some && collections::views(plan.entrypoint->0@)
            == collections::views(req.runtime.entrypoint->0@),
        req.runtime.entrypoint is None ==> plan.entrypoint is None,
        req.runtime.cmd is Some && req.runtime.cmd->0@.len() > 0 ==> plan.background_command is Some
            && collections::views(plan.background_command->0@) == collections::views(
            req.runtime.cmd->0@,
        ),
        req.runtime.cmd is None ==> plan.background_command is None,
        plan.env@.len() == req.env@.len(),
        0 <= i < plan.env@.len() ==> plan.env@[i].name@ == req.env@[i].key@ && plan.env@[i].value@
            == req.env@[i].value@,
        collections::opt(plan.workdir) == collections::opt(req.runtime.workdir),
        collections::opt(plan.shell) == collections::opt(req.runtime.shell),
        collections::opt(plan.user) == collections::opt(req.runtime.user),
        plan.hostname is None,
{
    let (set, asked) = (collections::views(plan.env@), convert::env_of(req.env@));
    assert(collections::views(spec.cmd@).len() == spec.cmd@.len());
    assert(collections::views(spec.entrypoint@).len() == spec.entrypoint@.len());
    assert(set == asked);
    assert(set.len() == plan.env@.len());
    if 0 <= i < set.len() {
        assert(set[i] == plan.env@[i]@);
    }
    assert(collections::opt(plan.hostname) is None);
}

/// Whether a limit is on the resource that the client named.
pub open spec fn same_resource(asked: CloudRlimitResource, set: RlimitResource) -> bool {
    &&& asked is Cpu <==> set is Cpu
    &&& asked is Fsize <==> set is Fsize
    &&& asked is Data <==> set is Data
    &&& asked is Stack <==> set is Stack
    &&& asked is Core <==> set is Core
    &&& asked is Rss <==> set is Rss
    &&& asked is Nproc <==> set is Nproc
    &&& asked is Nofile <==> set is Nofile
    &&& asked is Memlock <==> set is Memlock
    &&& asked is As <==> set is As
    &&& asked is Locks <==> set is Locks
    &&& asked is Sigpending <==> set is Sigpending
    &&& asked is Msgqueue <==> set is Msgqueue
    &&& asked is Nice <==> set is Nice
    &&& asked is Rtprio <==> set is Rtprio
    &&& asked is Rttime <==> set is Rttime
}

/// The hardening that a cloud client asks for is what the guest gets, and each limit is on
/// the resource it was asked for, soft and hard as asked.
pub proof fn requested_limits_reach_the_guest(
    req: CloudCreateSandboxRequest,
    spec: SandboxSpec,
    secrets: Seq<ResolvedSecret>,
    plan: BootPlan,
    i: int,
)
    requires
        convert::spec_matches(spec, req, req.image->reference@),
        boot::boots(plan, spec, secrets),
    ensures
        plan.security_profile == SecurityProfile::Restricted <==> req.security_profile
            == WireSecurityProfile::Restricted,
        plan.rlimits@.len() == req.rlimits@.len(),
        0 <= i < plan.rlimits@.len() ==> {
            &&& same_resource(req.rlimits@[i].resource, plan.rlimits@[i].resource)
            &&& plan.rlimits@[i].soft == req.rlimits@[i].soft
            &&& plan.rlimits@[i].hard == req.rlimits@[i].hard
        },
{
}

/// A cloud client, which says nothing of network and disk, gets the default ones: a network
/// that is on, to public destinations only, without ports, secrets or interception; and
/// 4 GiB to write on.
pub proof fn a_client_gets_the_default_network(
    req: CloudCreateSandboxRequest,
    spec: SandboxSpec,
    plan: BootPlan,
)
    requires
        convert::spec_matches(spec, req, req.image->reference@),
        boot::boots(plan, spec, Seq::empty()),
    ensures
        plan.network.enabled,
        reaches(plan.network.policy@, DestinationGroup::Public),
        !reaches(plan.network.policy@, DestinationGroup::Private),
        !reaches(plan.network.policy@, DestinationGroup::Host),
        plan.network.ports@.len() == 0,
        plan.network.intercepted_ports is None,
        !plan.network.trust_host_cas,
        plan.network.max_connections == 256,
        plan.network.secrets@.len() == 0,
        spec.secrets@.len() == 0,
        plan.root_disk@ == QuantityView::Mib(4096),
{
    reveal_strlit("4Gi");
    reveal_strlit("Gi");
    assert(text::dec(4) + "Gi"@ =~= "4Gi"@);
    assert(text::trimmed("4Gi"@) == "4Gi"@);
    quantity::a_whole_size_is_read_in_its_unit(4);
    assert(collections::views(plan.network.ports@).len() == plan.network.ports@.len());
    assert(collections::views(plan.network.secrets@).len() == plan.network.secrets@.len());
    let ps = plan.network.policy@->Profiles_0;
    assert(ps[0] == NetworkProfile::Public);
}

/// What the guest may write on is as large as specified, in whole MiB.
pub proof fn the_disk_is_as_large_as_specified(
    spec: SandboxSpec,
    secrets: Seq<ResolvedSecret>,
    plan: BootPlan,
    n: nat,
)
    requires
        boot::boots(plan, spec, secrets),
        spec.upper.size.0@ == text::dec(n) + "Mi"@ || spec.upper.size.0@ == text::dec(n) + "Gi"@,
    ensures
        plan.root_disk@ is Mib,
        spec.upper.size.0@ == text::dec(n) + "Mi"@ ==> plan.root_disk@->Mib_0 == if n < u32::MAX {
            n
        } else {
            u32::MAX as nat
        },
        spec.upper.size.0@ == text::dec(n) + "Gi"@ ==> plan.root_disk@->Mib_0 == if 1024 * n
            < u32::MAX {
            1024 * n
        } else {
            u32::MAX as nat
        },
{
    reveal_strlit("Mi");
    reveal_strlit("Gi");
    text::dec_nonempty(n);
    let q = spec.upper.size.0@;
    assert(text::is_digit(text::dec(n)[0]));
    assert(q[0] == text::dec(n)[0]);
    assert(q.last() == 'i');
    assert(text::trimmed(q) == q);
    quantity::a_whole_size_is_read_in_its_unit(n);
}

/// A boot is refused for its vCPUs exactly where they, or their ceiling, are more than a
/// microVM can have.
pub proof fn too_many_cpus_are_refused(spec: SandboxSpec)
    ensures
        (boot::boot_refusal(spec) matches Some(e) && e is TooManyCpus) <==> spec.cpus > 255 || (
        spec.max_cpus is Some && spec.max_cpus->0 > 255),
        boot::boot_refusal(spec) is None ==> spec.cpus <= 255 && quantity::quantity_outcome(
            text::trimmed(spec.upper.size.0@),
        ) is Ok,
{
}

/// A secret reaches the proxy as it was specified: under its variable, with the plaintext
/// of its key, a placeholder in the guest, and its hosts as they were written; those that
/// begin with `*.` as patterns, all others as hosts.
pub proof fn a_secret_reaches_the_proxy(
    specs: Seq<sandbox::SecretEntry>,
    plaintexts: Seq<Plaintext>,
    entry: SecretEntry,
    resolved: Seq<ResolvedSecret>,
    plan: NetworkPlan,
    spec: SandboxSpec,
    i: int,
    h: int,
)
    requires
        0 <= i < specs.len(),
        i < resolved.len(),
        secrets::entry_outcome(specs, plaintexts, i) == Ok::<_, secrets::SecretErrorView>(entry@),
        secrets::is_resolved(resolved[i], entry),
        net::plan_matches(plan, spec, resolved),
    ensures
        plan.secrets@.len() == resolved.len(),
        plan.secrets@[i].env@ == specs[i].env@,
        secrets::plaintext_of(
            plaintexts,
            specs[i].value_from.secret_key_ref.name@,
            specs[i].value_from.secret_key_ref.key@,
        ) == Some(plan.secrets@[i].value@),
        plan.secrets@[i].placeholder@ == secrets::placeholder_of(specs[i].env@),
        plan.secrets@[i].hosts@.len() == specs[i].allowed_hosts@.len(),
        0 <= h < specs[i].allowed_hosts@.len() ==> {
            let host = specs[i].allowed_hosts@[h]@;
            let rule = plan.secrets@[i].hosts@[h]@;
            &&& rule == HostRuleView::Pattern(host) || rule == HostRuleView::Host(host)
            &&& rule is Pattern <==> host.len() >= 2 && host[0] == '*' && host[1] == '.'
        },
{
    let s = specs[i];
    let b = collections::views(plan.secrets@);
    assert(b.len() == resolved.len());
    assert(b[i] == plan.secrets@[i]@);
    let asked = collections::views(s.allowed_hosts@);
    let n = s.allowed_hosts@.len() as int;
    secrets::patterns_are_read(s.env@, asked, n);
    let texts = secrets::host_texts(entry@.allowed_hosts);
    assert(collections::views(resolved[i].allowed_hosts@) == texts);
    let rules = collections::views(plan.secrets@[i].hosts@);
    assert(rules == net::host_rules(texts));
    assert(rules.len() == plan.secrets@[i].hosts@.len());
    if 0 <= h < n {
        assert(asked[h] == s.allowed_hosts@[h]@);
        assert(texts[h] == asked[h]);
        assert(rules[h] == plan.secrets@[i].hosts@[h]@);
        reveal_strlit("*.");
        let host = asked[h];
        if host.len() >= 2 && host[0] == '*' && host[1] == '.' {
            assert(host.take(2) =~= "*."@);
        }
        if text::has_prefix(host, "*."@) {
            assert(host.take(2)[0] == "*."@[0] && host.take(2)[1] == "*."@[1]);
        }
    }
}

/// How a container exits tells how its sandbox ended: by the code of its own, unless a
/// signal ended it, which is told by a status above 128 that no other signal has.
pub proof fn the_exit_status_tells_the_end(code: Option<i32>, signal: Option<i32>, other: i32)
    ensures
        signal is None && code is Some ==> boot::exit_status(code, signal) == code->0,
        signal is None && code is None ==> boot::exit_status(code, signal) == 0,
        signal matches Some(s) ==> {
            &&& boot::exit_status(code, signal) - 128 == s
            &&& s > 0 ==> boot::exit_status(code, signal) > 128
            &&& boot::exit_status(code, Some(other)) == boot::exit_status(code, signal) ==> other
                == s
        },
{
}

} // verus!
