//! The network of a sandbox, as the runtime sets it up: nothing applies that is not
//! set here.

use vstd::prelude::*;

use crate::collections;
use crate::launch::network;
use crate::sandbox;
use crate::sandbox::{PolicyPreset, PortProtocol, ResolvedSecret, SandboxSpec};
use crate::text;

verus! {

/// A class of destinations.
#[derive(Clone, Copy, Debug, PartialEq, Eq, Structural)]
pub enum NetworkProfile {
    Public,
    Private,
}

/// What the guest may reach.
#[derive(Debug, PartialEq)]
pub enum NetworkPolicy {
    AllowAll,
    Nothing,
    Profiles(Vec<NetworkProfile>),
}

#[verifier::ext_equal]
pub enum NetworkPolicyView {
    AllowAll,
    Nothing,
    Profiles(Seq<NetworkProfile>),
}

impl View for NetworkPolicy {
    type V = NetworkPolicyView;

    open spec fn view(&self) -> NetworkPolicyView {
        match *self {
            NetworkPolicy::AllowAll => NetworkPolicyView::AllowAll,
            NetworkPolicy::Nothing => NetworkPolicyView::Nothing,
            NetworkPolicy::Profiles(p) => NetworkPolicyView::Profiles(p@),
        }
    }
}

/// What the guest may reach under a preset.
pub open spec fn preset_profiles(preset: PolicyPreset) -> NetworkPolicyView {
    match preset {
        PolicyPreset::PublicOnly => NetworkPolicyView::Profiles(seq![NetworkProfile::Public]),
        PolicyPreset::AllowAll => NetworkPolicyView::AllowAll,
        PolicyPreset::DenyAll => NetworkPolicyView::Nothing,
        PolicyPreset::NonLocal => NetworkPolicyView::Profiles(
            seq![NetworkProfile::Public, NetworkProfile::Private],
        ),
    }
}

/// What the guest may reach under a preset.
pub fn policy(preset: &PolicyPreset) -> (p: NetworkPolicy)
    ensures
        p@ == preset_profiles(*preset),
{
    let mut profiles: Vec<NetworkProfile> = Vec::new();
    match preset {
        PolicyPreset::AllowAll => NetworkPolicy::AllowAll,
        PolicyPreset::DenyAll => NetworkPolicy::Nothing,
        PolicyPreset::PublicOnly => {
            profiles.push(NetworkProfile::Public);
            assert(profiles@ =~= seq![NetworkProfile::Public]);
            NetworkPolicy::Profiles(profiles)
        },
        PolicyPreset::NonLocal => {
            profiles.push(NetworkProfile::Public);
            profiles.push(NetworkProfile::Private);
            assert(profiles@ =~= seq![NetworkProfile::Public, NetworkProfile::Private]);
            NetworkPolicy::Profiles(profiles)
        },
    }
}

/// A port of the guest, bound on the host. An address that cannot be read stands for
/// all of the host's.
#[derive(Debug, PartialEq)]
pub struct PortBind {
    pub host_bind: String,
    pub host: u16,
    pub guest: u16,
    pub protocol: PortProtocol,
}

#[verifier::ext_equal]
pub struct PortBindView {
    pub host_bind: Seq<char>,
    pub host: u16,
    pub guest: u16,
    pub protocol: PortProtocol,
}

impl View for PortBind {
    type V = PortBindView;

    open spec fn view(&self) -> PortBindView {
        PortBindView {
            host_bind: self.host_bind@,
            host: self.host,
            guest: self.guest,
            protocol: self.protocol,
        }
    }
}

/// The bindings of the published ports, in order.
pub open spec fn bind_views(published: Seq<sandbox::PublishedPort>) -> Seq<PortBindView> {
    Seq::new(
        published.len(),
        |i: int|
            PortBindView {
                host_bind: published[i].host_bind@,
                host: published[i].host(),
                guest: published[i].guest_port,
                protocol: published[i].protocol,
            },
    )
}

/// A host that a secret may be sent to: itself, or what a pattern stands for.
#[derive(Debug, PartialEq)]
pub enum HostRule {
    Host(String),
    Pattern(String),
}

#[verifier::ext_equal]
pub enum HostRuleView {
    Host(Seq<char>),
    Pattern(Seq<char>),
}

impl View for HostRule {
    type V = HostRuleView;

    open spec fn view(&self) -> HostRuleView {
        match *self {
            HostRule::Host(h) => HostRuleView::Host(h@),
            HostRule::Pattern(h) => HostRuleView::Pattern(h@),
        }
    }
}

/// `*.suffix` is a pattern, anything else a host.
pub open spec fn host_rule(host: Seq<char>) -> HostRuleView {
    if text::has_prefix(host, "*."@) {
        HostRuleView::Pattern(host)
    } else {
        HostRuleView::Host(host)
    }
}

/// The rules of a list of hosts.
pub open spec fn host_rules(hosts: Seq<Seq<char>>) -> Seq<HostRuleView> {
    Seq::new(hosts.len(), |i: int| host_rule(hosts[i]))
}

/// A secret that the proxy substitutes.
#[derive(PartialEq)]
pub struct SecretBinding {
    pub env: String,
    pub value: String,
    pub placeholder: String,
    pub hosts: Vec<HostRule>,
}

#[verifier::ext_equal]
pub struct SecretBindingView {
    pub env: Seq<char>,
    pub value: Seq<char>,
    pub placeholder: Seq<char>,
    pub hosts: Seq<HostRuleView>,
}

impl View for SecretBinding {
    type V = SecretBindingView;

    open spec fn view(&self) -> SecretBindingView {
        SecretBindingView {
            env: self.env@,
            value: self.value@,
            placeholder: self.placeholder@,
            hosts: collections::views(self.hosts@),
        }
    }
}

/// The bindings of the resolved secrets, in order.
pub open spec fn binding_views(secrets: Seq<ResolvedSecret>) -> Seq<SecretBindingView> {
    Seq::new(
        secrets.len(),
        |i: int|
            SecretBindingView {
                env: secrets[i].env@,
                value: secrets[i].value@,
                placeholder: secrets[i].placeholder@,
                hosts: host_rules(collections::views(secrets[i].allowed_hosts@)),
            },
    )
}

/// All that the runtime sets up of a sandbox's network.
#[derive(PartialEq)]
pub struct NetworkPlan {
    pub enabled: bool,
    pub policy: NetworkPolicy,
    pub ports: Vec<PortBind>,
    /// The intercepted ports, where TLS is intercepted at all.
    pub intercepted_ports: Option<Vec<u16>>,
    pub max_connections: usize,
    pub trust_host_cas: bool,
    pub secrets: Vec<SecretBinding>,
}

/// Whether a plan sets up what a specification asks for.
pub open spec fn plan_matches(
    plan: NetworkPlan,
    spec: SandboxSpec,
    secrets: Seq<ResolvedSecret>,
) -> bool {
    let net = spec.network;
    &&& plan.enabled == net.enabled
    &&& plan.policy@ == preset_profiles(net.policy.preset)
    &&& collections::views(plan.ports@) == bind_views(net.published_ports@)
    &&& plan.intercepted_ports is Some <==> net.tls.intercept
    &&& plan.intercepted_ports matches Some(p) ==> p@ == network::port_numbers(
        net.tls.intercepted_ports@,
    )
    &&& plan.max_connections == net.max_connections
    &&& plan.trust_host_cas == net.trust_host_cas
    &&& collections::views(plan.secrets@) == binding_views(secrets)
}

fn bind_ports(published: &Vec<sandbox::PublishedPort>) -> (out: Vec<PortBind>)
    ensures
        collections::views(out@) == bind_views(published@),
{
    let mut out: Vec<PortBind> = Vec::new();
    let ghost all = bind_views(published@);
    let mut i: usize = 0;
    assert(collections::views(out@) =~= all.take(0));
    while i < published.len()
        invariant
            i <= published.len(),
            all == bind_views(published@),
            out.len() == i,
            collections::views(out@) == all.take(i as int),
        decreases published.len() - i,
    {
        let p = &published[i];
        let ghost before = out@;
        out.push(
            PortBind {
                host_bind: p.host_bind.clone(),
                host: p.host_port(),
                guest: p.guest_port,
                protocol: p.protocol,
            },
        );
        proof {
            collections::grown(before, out@, all);
        }
        i = i + 1;
    }
    assert(all.take(i as int) =~= all);
    out
}

fn rules_of(hosts: &Vec<String>) -> (out: Vec<HostRule>)
    ensures
        collections::views(out@) == host_rules(collections::views(hosts@)),
{
    let mut out: Vec<HostRule> = Vec::new();
    let ghost all = host_rules(collections::views(hosts@));
    let mut i: usize = 0;
    assert(collections::views(out@) =~= all.take(0));
    while i < hosts.len()
        invariant
            i <= hosts.len(),
            all == host_rules(collections::views(hosts@)),
            out.len() == i,
            collections::views(out@) == all.take(i as int),
        decreases hosts.len() - i,
    {
        let ghost before = out@;
        if text::strip_prefix(hosts[i].as_str(), "*.").is_some() {
            out.push(HostRule::Pattern(hosts[i].clone()));
        } else {
            out.push(HostRule::Host(hosts[i].clone()));
        }
        proof {
            collections::grown(before, out@, all);
        }
        i = i + 1;
    }
    assert(all.take(i as int) =~= all);
    out
}

fn bind_secrets(secrets: &Vec<ResolvedSecret>) -> (out: Vec<SecretBinding>)
    ensures
        collections::views(out@) == binding_views(secrets@),
{
    let mut out: Vec<SecretBinding> = Vec::new();
    let ghost all = binding_views(secrets@);
    let mut i: usize = 0;
    assert(collections::views(out@) =~= all.take(0));
    while i < secrets.len()
        invariant
            i <= secrets.len(),
            all == binding_views(secrets@),
            out.len() == i,
            collections::views(out@) == all.take(i as int),
        decreases secrets.len() - i,
    {
        let s = &secrets[i];
        let ghost before = out@;
        out.push(
            SecretBinding {
                env: s.env.clone(),
                value: s.value.clone(),
                placeholder: s.placeholder.clone(),
                hosts: rules_of(&s.allowed_hosts),
            },
        );
        proof {
            collections::grown(before, out@, all);
        }
        i = i + 1;
    }
    assert(all.take(i as int) =~= all);
    out
}

/// What the runtime sets up of the network that a specification asks for. A network
/// that is off is set so too: it would be on by default.
pub fn apply(spec: &SandboxSpec, secrets: &Vec<ResolvedSecret>) -> (plan: NetworkPlan)
    ensures
        plan_matches(plan, *spec, secrets@),
{
    let net = &spec.network;
    NetworkPlan {
        enabled: net.enabled,
        policy: policy(&net.policy.preset),
        ports: bind_ports(&net.published_ports),
        intercepted_ports: if net.tls.intercept {
            Some(network::intercepted(&net.tls.intercepted_ports))
        } else {
            None
        },
        max_connections: net.max_connections as usize,
        trust_host_cas: net.trust_host_cas,
        secrets: bind_secrets(secrets),
    }
}

} // verus!
