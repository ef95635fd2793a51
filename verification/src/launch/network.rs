//! The network part of a launch configuration: a policy by preset, published ports,
//! DNS, TLS interception and secrets.

use vstd::prelude::*;

use crate::collections;
use crate::sandbox;
use crate::sandbox::{DnsSpec, PolicyPreset, SandboxSpec};
use crate::text;

verus! {

/// Bind address for published ports. The operator always exposes on the pod IP,
/// whatever the guest requested.
pub const HOST_BIND_ALL: &'static str = "0.0.0.0";

/// The network of a sandbox.
#[derive(PartialEq)]
pub struct NetworkConfig {
    pub enabled: bool,
    pub ports: Vec<PublishedPort>,
    pub policy: NetworkPolicy,
    pub dns: DnsConfig,
    pub tls: TlsConfig,
    pub secrets: SecretsConfig,
    pub max_connections: Option<usize>,
    pub trust_host_cas: bool,
}

#[derive(Debug, PartialEq)]
pub struct PublishedPort {
    pub host_port: u16,
    pub guest_port: u16,
    pub protocol: PortProtocol,
    pub host_bind: String,
}

#[verifier::ext_equal]
pub struct PublishedPortView {
    pub host_port: u16,
    pub guest_port: u16,
    pub protocol: PortProtocol,
    pub host_bind: Seq<char>,
}

impl View for PublishedPort {
    type V = PublishedPortView;

    open spec fn view(&self) -> PublishedPortView {
        PublishedPortView {
            host_port: self.host_port,
            guest_port: self.guest_port,
            protocol: self.protocol,
            host_bind: self.host_bind@,
        }
    }
}

#[derive(Clone, Copy, Debug, PartialEq, Eq, Structural)]
pub enum PortProtocol {
    Tcp,
    Udp,
}

#[derive(Debug, PartialEq)]
pub struct DnsConfig {
    pub rebind_protection: bool,
    pub nameservers: Vec<Nameserver>,
    pub query_timeout_ms: u64,
}

/// A nameserver, as one string (`1.1.1.1:53` or `dns.google:53`).
#[derive(Debug, PartialEq)]
pub struct Nameserver(pub String);

impl View for Nameserver {
    type V = Seq<char>;

    open spec fn view(&self) -> Seq<char> {
        self.0@
    }
}

#[derive(Debug, PartialEq)]
pub struct TlsConfig {
    pub enabled: bool,
    pub intercepted_ports: Vec<u16>,
}

#[derive(PartialEq)]
pub struct SecretsConfig {
    pub secrets: Vec<SecretEntry>,
}

/// One secret the proxy substitutes. `value` is the resolved plaintext; it never
/// enters the guest, and the type has no `Debug`, so that it never reaches a log
/// line: [`SecretEntry::redacted`] is what may.
#[derive(PartialEq)]
pub struct SecretEntry {
    pub env_var: String,
    pub value: String,
    pub placeholder: String,
    pub allowed_hosts: Vec<HostPattern>,
    pub require_tls_identity: bool,
}

#[verifier::ext_equal]
pub struct SecretEntryView {
    pub env_var: Seq<char>,
    pub value: Seq<char>,
    pub placeholder: Seq<char>,
    pub allowed_hosts: Seq<HostPatternView>,
    pub require_tls_identity: bool,
}

impl View for SecretEntry {
    type V = SecretEntryView;

    open spec fn view(&self) -> SecretEntryView {
        SecretEntryView {
            env_var: self.env_var@,
            value: self.value@,
            placeholder: self.placeholder@,
            allowed_hosts: collections::views(self.allowed_hosts@),
            require_tls_identity: self.require_tls_identity,
        }
    }
}

/// The hosts a secret may be sent to: one host, or all below a suffix.
#[derive(Debug, PartialEq)]
pub enum HostPattern {
    Exact(String),
    Wildcard(String),
}

#[verifier::ext_equal]
pub enum HostPatternView {
    Exact(Seq<char>),
    Wildcard(Seq<char>),
}

impl View for HostPattern {
    type V = HostPatternView;

    open spec fn view(&self) -> HostPatternView {
        match *self {
            HostPattern::Exact(h) => HostPatternView::Exact(h@),
            HostPattern::Wildcard(h) => HostPatternView::Wildcard(h@),
        }
    }
}

/// How a log line shows a pattern.
pub open spec fn pattern_debug(p: HostPatternView) -> Seq<char> {
    match p {
        HostPatternView::Exact(h) => "Exact("@ + text::debug_text(h) + ")"@,
        HostPatternView::Wildcard(h) => "Wildcard("@ + text::debug_text(h) + ")"@,
    }
}

/// How a log line shows a list of patterns.
pub open spec fn patterns_debug(ps: Seq<HostPatternView>) -> Seq<char>
    decreases ps.len(),
{
    if ps.len() == 0 {
        Seq::empty()
    } else if ps.len() == 1 {
        pattern_debug(ps[0])
    } else {
        patterns_debug(ps.drop_last()) + ", "@ + pattern_debug(ps.last())
    }
}

/// How a log line shows a secret: its value does not come into it.
pub open spec fn entry_debug(
    env_var: Seq<char>,
    placeholder: Seq<char>,
    allowed_hosts: Seq<HostPatternView>,
) -> Seq<char> {
    "SecretEntry { env_var: "@ + text::debug_text(env_var)
        + ", value: \"<redacted>\", placeholder: "@ + text::debug_text(placeholder)
        + ", allowed_hosts: ["@ + patterns_debug(allowed_hosts) + "], .. }"@
}

impl HostPattern {
    fn debug(&self) -> (out: String)
        ensures
            out@ == pattern_debug(self@),
    {
        match self {
            HostPattern::Exact(h) => "Exact(".to_owned().concat(
                text::debug(h.as_str()).as_str(),
            ).concat(")"),
            HostPattern::Wildcard(h) => "Wildcard(".to_owned().concat(
                text::debug(h.as_str()).as_str(),
            ).concat(")"),
        }
    }
}

impl SecretEntry {
    /// The secret as a log line may show it.
    pub fn redacted(&self) -> (out: String)
        ensures
            out@ == entry_debug(self@.env_var, self@.placeholder, self@.allowed_hosts),
    {
        let ghost all = self@.allowed_hosts;
        let mut hosts = String::new();
        let mut i: usize = 0;
        assert(all.take(0) =~= Seq::empty());
        while i < self.allowed_hosts.len()
            invariant
                i <= self.allowed_hosts.len(),
                all == collections::views(self.allowed_hosts@),
                hosts@ == patterns_debug(all.take(i as int)),
            decreases self.allowed_hosts.len() - i,
        {
            let shown = self.allowed_hosts[i].debug();
            proof {
                let t = all.take(i + 1);
                assert(t.drop_last() =~= all.take(i as int));
                assert(t.last() == all[i as int]);
                if i == 0 {
                    assert(t[0] == all[0]);
                }
            }
            if i == 0 {
                hosts = shown;
            } else {
                hosts = hosts.concat(", ").concat(shown.as_str());
            }
            i = i + 1;
        }
        assert(all.take(i as int) =~= all);
        "SecretEntry { env_var: ".to_owned().concat(
            text::debug(self.env_var.as_str()).as_str(),
        ).concat(", value: \"<redacted>\", placeholder: ").concat(
            text::debug(self.placeholder.as_str()).as_str(),
        ).concat(", allowed_hosts: [").concat(hosts.as_str()).concat("], .. }")
    }
}

/// What the guest may reach, and what may reach it.
#[derive(Debug, PartialEq)]
pub struct NetworkPolicy {
    pub default_egress: Action,
    pub default_ingress: Action,
    pub rules: Vec<Rule>,
}

#[verifier::ext_equal]
pub struct NetworkPolicyView {
    pub default_egress: Action,
    pub default_ingress: Action,
    pub rules: Seq<RuleView>,
}

impl View for NetworkPolicy {
    type V = NetworkPolicyView;

    open spec fn view(&self) -> NetworkPolicyView {
        NetworkPolicyView {
            default_egress: self.default_egress,
            default_ingress: self.default_ingress,
            rules: collections::views(self.rules@),
        }
    }
}

#[derive(Clone, Copy, Debug, PartialEq, Eq, Structural)]
pub enum Action {
    Allow,
    Deny,
}

/// A rule of a policy. Without protocols it is about all of them, without ports
/// about all of those.
#[derive(Debug, PartialEq)]
pub struct Rule {
    pub direction: Direction,
    pub destination: Destination,
    pub protocols: Vec<Protocol>,
    pub ports: Vec<PortRange>,
    pub action: Action,
}

#[verifier::ext_equal]
pub struct RuleView {
    pub direction: Direction,
    pub destination: Destination,
    pub protocols: Seq<Protocol>,
    pub ports: Seq<PortRange>,
    pub action: Action,
}

impl View for Rule {
    type V = RuleView;

    open spec fn view(&self) -> RuleView {
        RuleView {
            direction: self.direction,
            destination: self.destination,
            protocols: self.protocols@,
            ports: self.ports@,
            action: self.action,
        }
    }
}

#[derive(Clone, Copy, Debug, PartialEq, Eq, Structural)]
pub enum Direction {
    Egress,
}

#[derive(Clone, Copy, Debug, PartialEq, Eq, Structural)]
pub enum Destination {
    Group(DestinationGroup),
}

#[derive(Clone, Copy, Debug, PartialEq, Eq, Structural)]
pub enum DestinationGroup {
    /// The node's forwarder.
    Host,
    Public,
    Private,
}

#[derive(Clone, Copy, Debug, PartialEq, Eq, Structural)]
pub enum Protocol {
    Tcp,
    Udp,
}

#[derive(Clone, Copy, Debug, PartialEq, Eq, Structural)]
pub struct PortRange {
    pub start: u16,
    pub end: u16,
}

/// Name lookup at the node's forwarder, and nowhere else.
pub open spec fn dns_rule() -> RuleView {
    RuleView {
        direction: Direction::Egress,
        destination: Destination::Group(DestinationGroup::Host),
        protocols: seq![Protocol::Udp, Protocol::Tcp],
        ports: seq![PortRange { start: 53, end: 53 }],
        action: Action::Allow,
    }
}

/// Anything to a group of destinations.
pub open spec fn egress_rule(group: DestinationGroup) -> RuleView {
    RuleView {
        direction: Direction::Egress,
        destination: Destination::Group(group),
        protocols: Seq::empty(),
        ports: Seq::empty(),
        action: Action::Allow,
    }
}

impl Rule {
    /// Name lookup. That it is to the host group, not to any destination, is what
    /// stops a guest from reaching an arbitrary private resolver.
    pub fn allow_dns() -> (r: Rule)
        ensures
            r@ == dns_rule(),
    {
        let mut protocols: Vec<Protocol> = Vec::new();
        protocols.push(Protocol::Udp);
        protocols.push(Protocol::Tcp);
        let mut ports: Vec<PortRange> = Vec::new();
        ports.push(PortRange { start: 53, end: 53 });
        assert(protocols@ =~= seq![Protocol::Udp, Protocol::Tcp]);
        assert(ports@ =~= seq![PortRange { start: 53, end: 53 }]);
        Rule {
            direction: Direction::Egress,
            destination: Destination::Group(DestinationGroup::Host),
            protocols,
            ports,
            action: Action::Allow,
        }
    }

    /// Anything to a group of destinations.
    pub fn allow_egress(group: DestinationGroup) -> (r: Rule)
        ensures
            r@ == egress_rule(group),
    {
        Rule {
            direction: Direction::Egress,
            destination: Destination::Group(group),
            protocols: Vec::new(),
            ports: Vec::new(),
            action: Action::Allow,
        }
    }
}

/// The policy of a preset. Where egress is limited, everything is denied that no
/// rule allows: a list of denials would let link-local destinations and the cloud's
/// metadata address fall through. Ingress is allowed so that published ports work.
pub open spec fn preset_policy(preset: PolicyPreset) -> NetworkPolicyView {
    match preset {
        PolicyPreset::DenyAll => NetworkPolicyView {
            default_egress: Action::Deny,
            default_ingress: Action::Deny,
            rules: Seq::empty(),
        },
        PolicyPreset::AllowAll => NetworkPolicyView {
            default_egress: Action::Allow,
            default_ingress: Action::Allow,
            rules: Seq::empty(),
        },
        PolicyPreset::PublicOnly => NetworkPolicyView {
            default_egress: Action::Deny,
            default_ingress: Action::Allow,
            rules: seq![dns_rule(), egress_rule(DestinationGroup::Public)],
        },
        PolicyPreset::NonLocal => NetworkPolicyView {
            default_egress: Action::Deny,
            default_ingress: Action::Allow,
            rules: seq![
                dns_rule(),
                egress_rule(DestinationGroup::Public),
                egress_rule(DestinationGroup::Private),
            ],
        },
    }
}

impl NetworkPolicy {
    pub fn deny_all() -> (p: NetworkPolicy)
        ensures
            p@ == preset_policy(PolicyPreset::DenyAll),
    {
        let p = NetworkPolicy {
            default_egress: Action::Deny,
            default_ingress: Action::Deny,
            rules: Vec::new(),
        };
        assert(p@.rules =~= Seq::empty());
        p
    }

    pub fn allow_all() -> (p: NetworkPolicy)
        ensures
            p@ == preset_policy(PolicyPreset::AllowAll),
    {
        let p = NetworkPolicy {
            default_egress: Action::Allow,
            default_ingress: Action::Allow,
            rules: Vec::new(),
        };
        assert(p@.rules =~= Seq::empty());
        p
    }

    pub fn public_only() -> (p: NetworkPolicy)
        ensures
            p@ == preset_policy(PolicyPreset::PublicOnly),
    {
        let mut rules: Vec<Rule> = Vec::new();
        rules.push(Rule::allow_dns());
        rules.push(Rule::allow_egress(DestinationGroup::Public));
        let p = NetworkPolicy {
            default_egress: Action::Deny,
            default_ingress: Action::Allow,
            rules,
        };
        assert(p@.rules =~= preset_policy(PolicyPreset::PublicOnly).rules);
        p
    }

    pub fn non_local() -> (p: NetworkPolicy)
        ensures
            p@ == preset_policy(PolicyPreset::NonLocal),
    {
        let mut rules: Vec<Rule> = Vec::new();
        rules.push(Rule::allow_dns());
        rules.push(Rule::allow_egress(DestinationGroup::Public));
        rules.push(Rule::allow_egress(DestinationGroup::Private));
        let p = NetworkPolicy {
            default_egress: Action::Deny,
            default_ingress: Action::Allow,
            rules,
        };
        assert(p@.rules =~= preset_policy(PolicyPreset::NonLocal).rules);
        p
    }

    /// The policy of a preset.
    pub fn from_preset(preset: &PolicyPreset) -> (p: NetworkPolicy)
        ensures
            p@ == preset_policy(*preset),
    {
        match preset {
            PolicyPreset::PublicOnly => NetworkPolicy::public_only(),
            PolicyPreset::AllowAll => NetworkPolicy::allow_all(),
            PolicyPreset::DenyAll => NetworkPolicy::deny_all(),
            PolicyPreset::NonLocal => NetworkPolicy::non_local(),
        }
    }
}

/// Every preset but the one that allows everything denies egress unless a rule
/// allows it; its rules only allow, and what they allow to the host group is name
/// lookup alone.
pub proof fn limited_presets_fail_closed(preset: PolicyPreset, i: int)
    requires
        preset != PolicyPreset::AllowAll,
    ensures
        ({
            let p = preset_policy(preset);
            &&& p.default_egress == Action::Deny
            &&& 0 <= i < p.rules.len() ==> {
                &&& p.rules[i].action == Action::Allow
                &&& p.rules[i].destination == Destination::Group(DestinationGroup::Host)
                    ==> p.rules[i] == dns_rule()
            }
        }),
{
}

/// Published ports are reachable under every preset but the one that denies
/// everything.
pub proof fn published_ports_stay_reachable(preset: PolicyPreset)
    ensures
        preset_policy(preset).default_ingress == Action::Allow <==> preset != PolicyPreset::DenyAll,
{
}

/// A published port.
pub open spec fn port_view(p: sandbox::PublishedPort) -> PublishedPortView {
    PublishedPortView {
        host_port: p.host(),
        guest_port: p.guest_port,
        protocol: match p.protocol {
            sandbox::PortProtocol::Tcp => PortProtocol::Tcp,
            sandbox::PortProtocol::Udp => PortProtocol::Udp,
        },
        host_bind: HOST_BIND_ALL@,
    }
}

/// The published ports, in the order of the specification.
pub open spec fn port_views(published: Seq<sandbox::PublishedPort>) -> Seq<PublishedPortView> {
    Seq::new(published.len(), |i: int| port_view(published[i]))
}

fn map_ports(published: &Vec<sandbox::PublishedPort>) -> (out: Vec<PublishedPort>)
    ensures
        collections::views(out@) == port_views(published@),
{
    let mut out: Vec<PublishedPort> = Vec::new();
    let ghost all = port_views(published@);
    let mut i: usize = 0;
    assert(collections::views(out@) =~= all.take(0));
    while i < published.len()
        invariant
            i <= published.len(),
            all == port_views(published@),
            out.len() == i,
            collections::views(out@) == all.take(i as int),
        decreases published.len() - i,
    {
        let p = &published[i];
        let ghost before = out@;
        out.push(
            PublishedPort {
                host_port: p.host_port(),
                guest_port: p.guest_port,
                protocol: match p.protocol {
                    sandbox::PortProtocol::Tcp => PortProtocol::Tcp,
                    sandbox::PortProtocol::Udp => PortProtocol::Udp,
                },
                host_bind: HOST_BIND_ALL.to_owned(),
            },
        );
        proof {
            collections::grown(before, out@, all);
        }
        i = i + 1;
    }
    assert(all.take(i as int) =~= all);
    out
}

/// The numbers of the intercepted ports.
pub open spec fn port_numbers(ports: Seq<sandbox::InterceptedPort>) -> Seq<u16> {
    Seq::new(ports.len(), |i: int| ports[i].port)
}

/// The numbers of the intercepted ports.
pub fn intercepted(ports: &Vec<sandbox::InterceptedPort>) -> (out: Vec<u16>)
    ensures
        out@ == port_numbers(ports@),
{
    let mut out: Vec<u16> = Vec::new();
    let mut i: usize = 0;
    while i < ports.len()
        invariant
            i <= ports.len(),
            out@ == port_numbers(ports@).take(i as int),
        decreases ports.len() - i,
    {
        out.push(ports[i].port);
        assert(port_numbers(ports@).take(i + 1) =~= port_numbers(ports@).take(i as int).push(
            port_numbers(ports@)[i as int],
        ));
        i = i + 1;
    }
    assert(port_numbers(ports@).take(i as int) =~= port_numbers(ports@));
    out
}

/// The DNS part of the configuration.
pub fn dns_from_spec(dns: &DnsSpec) -> (out: DnsConfig)
    ensures
        out.rebind_protection == dns.rebind_protection,
        collections::views(out.nameservers@) == collections::views(dns.nameservers@),
        out.query_timeout_ms == dns.query_timeout_ms,
{
    let mut nameservers: Vec<Nameserver> = Vec::new();
    let ghost all = collections::views(dns.nameservers@);
    let mut i: usize = 0;
    assert(collections::views(nameservers@) =~= all.take(0));
    while i < dns.nameservers.len()
        invariant
            i <= dns.nameservers.len(),
            all == collections::views(dns.nameservers@),
            nameservers.len() == i,
            collections::views(nameservers@) == all.take(i as int),
        decreases dns.nameservers.len() - i,
    {
        let ghost before = nameservers@;
        nameservers.push(Nameserver(dns.nameservers[i].clone()));
        proof {
            collections::grown(before, nameservers@, all);
        }
        i = i + 1;
    }
    assert(all.take(i as int) =~= all);
    DnsConfig {
        rebind_protection: dns.rebind_protection,
        nameservers,
        query_timeout_ms: dns.query_timeout_ms as u64,
    }
}

/// Whether a network configuration is what a specification asks for, with the given
/// secrets.
pub open spec fn network_matches(
    net: NetworkConfig,
    spec: SandboxSpec,
    secrets: Seq<SecretEntry>,
) -> bool {
    &&& net.enabled == spec.network.enabled
    &&& collections::views(net.ports@) == port_views(spec.network.published_ports@)
    &&& net.policy@ == preset_policy(spec.network.policy.preset)
    &&& net.dns.rebind_protection == spec.network.dns.rebind_protection
    &&& collections::views(net.dns.nameservers@) == collections::views(
        spec.network.dns.nameservers@,
    )
    &&& net.dns.query_timeout_ms == spec.network.dns.query_timeout_ms
    &&& net.tls.enabled == spec.network.tls.intercept
    &&& net.tls.intercepted_ports@ == port_numbers(spec.network.tls.intercepted_ports@)
    &&& net.secrets.secrets@ == secrets
    &&& net.max_connections matches Some(n) && n == spec.network.max_connections
    &&& net.trust_host_cas == spec.network.trust_host_cas
}

/// The network configuration that a specification asks for. The secrets arrive
/// already resolved.
pub fn network_from_spec(spec: &SandboxSpec, secrets: Vec<SecretEntry>) -> (net: NetworkConfig)
    ensures
        network_matches(net, *spec, secrets@),
{
    let n = &spec.network;
    NetworkConfig {
        enabled: n.enabled,
        ports: map_ports(&n.published_ports),
        policy: NetworkPolicy::from_preset(&n.policy.preset),
        dns: dns_from_spec(&n.dns),
        tls: TlsConfig {
            enabled: n.tls.intercept,
            intercepted_ports: intercepted(&n.tls.intercepted_ports),
        },
        secrets: SecretsConfig { secrets },
        max_connections: Some(n.max_connections as usize),
        trust_host_cas: n.trust_host_cas,
    }
}

} // verus!
