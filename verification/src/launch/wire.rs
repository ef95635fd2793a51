//! The launch configuration as the JSON that msb reads. msb has no defaults for it, so
//! every key is written, and what is not set is an explicit null.

use vstd::prelude::*;

use crate::collections;
use crate::json::Json;
use crate::launch::config::{
    LaunchConfig, Lifecycle, MetricsConfig, MetricsSlotHandoff, RootfsConfig, StartupCommand,
};
use crate::launch::network::{
    Action, Destination, DestinationGroup, Direction, DnsConfig, HostPattern, Nameserver,
    NetworkConfig, NetworkPolicy, PortProtocol, PortRange, Protocol, PublishedPort, Rule,
    SecretEntry, SecretsConfig, TlsConfig,
};

verus! {

/// The members of an object.
pub open spec fn members(j: Json) -> Seq<(String, Json)> {
    match j {
        Json::Object(m) => m@,
        _ => Seq::empty(),
    }
}

/// The items of an array.
pub open spec fn items(j: Json) -> Seq<Json> {
    match j {
        Json::Array(a) => a@,
        _ => Seq::empty(),
    }
}

/// The keys of an object, in order.
pub open spec fn keys(j: Json) -> Seq<Seq<char>> {
    Seq::new(members(j).len(), |i: int| members(j)[i].0@)
}

/// Whether `j` is the string `s`.
pub open spec fn is_text(j: Json, s: Seq<char>) -> bool {
    j matches Json::Text(t) && t@ == s
}

/// Whether `j` is the string `o`, or null where there is none.
pub open spec fn is_opt_text(j: Json, o: Option<Seq<char>>) -> bool {
    match o {
        Some(s) => is_text(j, s),
        None => j == Json::Null,
    }
}

/// Whether `j` is the number `n`.
pub open spec fn is_number(j: Json, n: int) -> bool {
    j matches Json::Number(m) && m == n
}

/// Whether `j` lists these strings.
pub open spec fn is_texts(j: Json, s: Seq<Seq<char>>) -> bool {
    &&& j is Array
    &&& items(j).len() == s.len()
    &&& forall|i: int| 0 <= i < s.len() ==> is_text(#[trigger] items(j)[i], s[i])
}

/// Whether `j` lists these ports.
pub open spec fn is_ports(j: Json, s: Seq<u16>) -> bool {
    &&& j is Array
    &&& items(j).len() == s.len()
    &&& forall|i: int| 0 <= i < s.len() ==> is_number(#[trigger] items(j)[i], s[i] as int)
}

fn member(key: &str, j: Json) -> (m: (String, Json))
    ensures
        m.0@ == key@,
        m.1 == j,
{
    (key.to_owned(), j)
}

fn text(s: &String) -> (j: Json)
    ensures
        is_text(j, s@),
{
    Json::Text(s.clone())
}

fn opt_text(o: &Option<String>) -> (j: Json)
    ensures
        is_opt_text(j, collections::opt(*o)),
{
    match o {
        Some(s) => text(s),
        None => Json::Null,
    }
}

fn texts(v: &Vec<String>) -> (j: Json)
    ensures
        is_texts(j, collections::views(v@)),
{
    let mut out: Vec<Json> = Vec::new();
    let mut i: usize = 0;
    while i < v.len()
        invariant
            i <= v.len(),
            out.len() == i,
            forall|k: int| 0 <= k < i ==> is_text(#[trigger] out@[k], v@[k]@),
        decreases v.len() - i,
    {
        out.push(text(&v[i]));
        i = i + 1;
    }
    Json::Array(out)
}

/// Each nameserver is one string.
fn nameservers(v: &Vec<Nameserver>) -> (j: Json)
    ensures
        is_texts(j, collections::views(v@)),
{
    let mut out: Vec<Json> = Vec::new();
    let mut i: usize = 0;
    while i < v.len()
        invariant
            i <= v.len(),
            out.len() == i,
            forall|k: int| 0 <= k < i ==> is_text(#[trigger] out@[k], v@[k]@),
        decreases v.len() - i,
    {
        out.push(text(&v[i].0));
        i = i + 1;
    }
    Json::Array(out)
}

fn ports(v: &Vec<u16>) -> (j: Json)
    ensures
        is_ports(j, v@),
{
    let mut out: Vec<Json> = Vec::new();
    let mut i: usize = 0;
    while i < v.len()
        invariant
            i <= v.len(),
            out.len() == i,
            forall|k: int| 0 <= k < i ==> is_number(#[trigger] out@[k], v@[k] as int),
        decreases v.len() - i,
    {
        out.push(Json::Number(v[i] as u64));
        i = i + 1;
    }
    Json::Array(out)
}

/// How JSON names a protocol of a published port.
pub open spec fn port_protocol_name(v: PortProtocol) -> Seq<char> {
    match v {
        PortProtocol::Tcp => "tcp"@,
        PortProtocol::Udp => "udp"@,
    }
}

fn write_port_protocol_name(v: PortProtocol) -> (s: &'static str)
    ensures
        s@ == port_protocol_name(v),
{
    match v {
        PortProtocol::Tcp => "tcp",
        PortProtocol::Udp => "udp",
    }
}

/// How JSON names an action.
pub open spec fn action_name(v: Action) -> Seq<char> {
    match v {
        Action::Allow => "allow"@,
        Action::Deny => "deny"@,
    }
}

fn write_action_name(v: Action) -> (s: &'static str)
    ensures
        s@ == action_name(v),
{
    match v {
        Action::Allow => "allow",
        Action::Deny => "deny",
    }
}

/// How JSON names a direction.
pub open spec fn direction_name(v: Direction) -> Seq<char> {
    match v {
        Direction::Egress => "egress"@,
    }
}

fn write_direction_name(v: Direction) -> (s: &'static str)
    ensures
        s@ == direction_name(v),
{
    match v {
        Direction::Egress => "egress",
    }
}

/// How JSON names a group of destinations.
pub open spec fn group_name(v: DestinationGroup) -> Seq<char> {
    match v {
        DestinationGroup::Host => "host"@,
        DestinationGroup::Public => "public"@,
        DestinationGroup::Private => "private"@,
    }
}

fn write_group_name(v: DestinationGroup) -> (s: &'static str)
    ensures
        s@ == group_name(v),
{
    match v {
        DestinationGroup::Host => "host",
        DestinationGroup::Public => "public",
        DestinationGroup::Private => "private",
    }
}

/// How JSON names a protocol of a rule.
pub open spec fn protocol_name(v: Protocol) -> Seq<char> {
    match v {
        Protocol::Tcp => "tcp"@,
        Protocol::Udp => "udp"@,
    }
}

fn write_protocol_name(v: Protocol) -> (s: &'static str)
    ensures
        s@ == protocol_name(v),
{
    match v {
        Protocol::Tcp => "tcp",
        Protocol::Udp => "udp",
    }
}

/// Whether `j` lists these protocols.
pub open spec fn is_protocols(j: Json, v: Seq<Protocol>) -> bool {
    &&& j is Array
    &&& items(j).len() == v.len()
    &&& forall|i: int| 0 <= i < v.len() ==> is_text(#[trigger] items(j)[i], protocol_name(v[i]))
}

fn protocols(v: &Vec<Protocol>) -> (j: Json)
    ensures
        is_protocols(j, v@),
{
    let mut out: Vec<Json> = Vec::new();
    let mut i: usize = 0;
    while i < v.len()
        invariant
            i <= v.len(),
            out.len() == i,
            forall|k: int| 0 <= k < i ==> is_text(#[trigger] out@[k], protocol_name(v@[k])),
        decreases v.len() - i,
    {
        out.push(Json::Text(write_protocol_name(v[i]).to_owned()));
        i = i + 1;
    }
    Json::Array(out)
}

/// Whether `j` is a destination: an object whose key tells its kind.
pub open spec fn is_destination(j: Json, v: Destination) -> bool {
    let Destination::Group(g) = v;
    &&& j is Object
    &&& keys(j) == seq!["group"@]
    &&& is_text(members(j)[0].1, group_name(g))
}

fn write_destination(v: &Destination) -> (j: Json)
    ensures
        is_destination(j, *v),
{
    let Destination::Group(g) = *v;
    let j = Json::Object(vec![member("group", Json::Text(write_group_name(g).to_owned()))]);
    assert(keys(j) =~= seq!["group"@]);
    j
}

/// Whether `j` is a host pattern: an object whose key tells its kind.
pub open spec fn is_pattern(j: Json, v: HostPattern) -> bool {
    &&& j is Object
    &&& keys(j).len() == 1
    &&& match v {
        HostPattern::Exact(h) => keys(j)[0] == "exact"@ && is_text(members(j)[0].1, h@),
        HostPattern::Wildcard(h) => keys(j)[0] == "wildcard"@ && is_text(members(j)[0].1, h@),
    }
}

fn write_pattern(v: &HostPattern) -> (j: Json)
    ensures
        is_pattern(j, *v),
{
    match v {
        HostPattern::Exact(h) => Json::Object(vec![member("exact", text(h))]),
        HostPattern::Wildcard(h) => Json::Object(vec![member("wildcard", text(h))]),
    }
}

/// Whether `j` lists these host patterns.
pub open spec fn is_pattern_list(j: Json, v: Seq<HostPattern>) -> bool {
    &&& j is Array
    &&& items(j).len() == v.len()
    &&& forall|i: int| 0 <= i < v.len() ==> is_pattern(#[trigger] items(j)[i], v[i])
}

fn write_pattern_list(v: &Vec<HostPattern>) -> (j: Json)
    ensures
        is_pattern_list(j, v@),
{
    let mut out: Vec<Json> = Vec::new();
    let mut i: usize = 0;
    while i < v.len()
        invariant
            i <= v.len(),
            out.len() == i,
            forall|k: int| 0 <= k < i ==> is_pattern(#[trigger] out@[k], v@[k]),
        decreases v.len() - i,
    {
        out.push(write_pattern(&v[i]));
        i = i + 1;
    }
    Json::Array(out)
}

/// Whether `j` is a slot for metrics.
pub open spec fn is_slot(j: Json, v: MetricsSlotHandoff) -> bool {
    &&& j is Object
    &&& keys(j) == seq!["shm_name"@, "slot"@, "generation"@]
    &&& is_text(members(j)[0].1, v.shm_name@)
    &&& is_number(members(j)[1].1, v.slot as int)
    &&& is_number(members(j)[2].1, v.generation as int)
}

fn write_slot(v: &MetricsSlotHandoff) -> (j: Json)
    ensures
        is_slot(j, *v),
{
    let j = Json::Object(
        vec![
            member("shm_name", text(&v.shm_name)),
            member("slot", Json::Number(v.slot as u64)),
            member("generation", Json::Number(v.generation as u64)),
        ],
    );
    assert(keys(j) =~= seq!["shm_name"@, "slot"@, "generation"@]);
    j
}

/// Whether `j` is a startup command.
pub open spec fn is_startup(j: Json, v: StartupCommand) -> bool {
    &&& j is Object
    &&& keys(j) == seq!["cmd"@, "args"@, "env"@, "cwd"@, "user"@]
    &&& is_text(members(j)[0].1, v.cmd@)
    &&& is_texts(members(j)[1].1, collections::views(v.args@))
    &&& is_texts(members(j)[2].1, collections::views(v.env@))
    &&& is_opt_text(members(j)[3].1, collections::opt(v.cwd))
    &&& is_opt_text(members(j)[4].1, collections::opt(v.user))
}

fn write_startup(v: &StartupCommand) -> (j: Json)
    ensures
        is_startup(j, *v),
{
    let j = Json::Object(
        vec![
            member("cmd", text(&v.cmd)),
            member("args", texts(&v.args)),
            member("env", texts(&v.env)),
            member("cwd", opt_text(&v.cwd)),
            member("user", opt_text(&v.user)),
        ],
    );
    assert(keys(j) =~= seq!["cmd"@, "args"@, "env"@, "cwd"@, "user"@]);
    j
}

/// Whether `j` is the limits on a lifetime.
pub open spec fn is_lifecycle(j: Json, v: Lifecycle) -> bool {
    &&& j is Object
    &&& keys(j) == seq!["max_duration_secs"@, "idle_timeout_secs"@]
    &&& (match v.max_duration_secs {
        Some(n) => is_number(members(j)[0].1, n as int),
        None => members(j)[0].1 == Json::Null,
    })
    &&& (match v.idle_timeout_secs {
        Some(n) => is_number(members(j)[1].1, n as int),
        None => members(j)[1].1 == Json::Null,
    })
}

fn write_lifecycle(v: &Lifecycle) -> (j: Json)
    ensures
        is_lifecycle(j, *v),
{
    let j = Json::Object(
        vec![
            member("max_duration_secs", match v.max_duration_secs {
                    Some(n) => Json::Number(n as u64),
                    None => Json::Null,
                }),
            member("idle_timeout_secs", match v.idle_timeout_secs {
                    Some(n) => Json::Number(n as u64),
                    None => Json::Null,
                }),
        ],
    );
    assert(keys(j) =~= seq!["max_duration_secs"@, "idle_timeout_secs"@]);
    j
}

/// Whether `j` is the metrics.
pub open spec fn is_metrics(j: Json, v: MetricsConfig) -> bool {
    &&& j is Object
    &&& keys(j) == seq!["sample_interval_ms"@, "disabled"@, "slot"@]
    &&& is_number(members(j)[0].1, v.sample_interval_ms as int)
    &&& members(j)[1].1 == Json::Bool(v.disabled)
    &&& (match v.slot {
        Some(y) => is_slot(members(j)[2].1, y),
        None => members(j)[2].1 == Json::Null,
    })
}

fn write_metrics(v: &MetricsConfig) -> (j: Json)
    ensures
        is_metrics(j, *v),
{
    let j = Json::Object(
        vec![
            member("sample_interval_ms", Json::Number(v.sample_interval_ms as u64)),
            member("disabled", Json::Bool(v.disabled)),
            member("slot", match &v.slot {
                    Some(y) => write_slot(y),
                    None => Json::Null,
                }),
        ],
    );
    assert(keys(j) =~= seq!["sample_interval_ms"@, "disabled"@, "slot"@]);
    j
}

/// Whether `j` is the root file system.
pub open spec fn is_rootfs(j: Json, v: RootfsConfig) -> bool {
    &&& j is Object
    &&& keys(j) == seq!["path"@, "disk"@, "disk_format"@, "disk_readonly"@, "upper"@]
    &&& is_opt_text(members(j)[0].1, collections::opt(v.path))
    &&& is_opt_text(members(j)[1].1, collections::opt(v.disk))
    &&& is_opt_text(members(j)[2].1, collections::opt(v.disk_format))
    &&& members(j)[3].1 == Json::Bool(v.disk_readonly)
    &&& is_opt_text(members(j)[4].1, collections::opt(v.upper))
}

fn write_rootfs(v: &RootfsConfig) -> (j: Json)
    ensures
        is_rootfs(j, *v),
{
    let j = Json::Object(
        vec![
            member("path", opt_text(&v.path)),
            member("disk", opt_text(&v.disk)),
            member("disk_format", opt_text(&v.disk_format)),
            member("disk_readonly", Json::Bool(v.disk_readonly)),
            member("upper", opt_text(&v.upper)),
        ],
    );
    assert(keys(j) =~= seq!["path"@, "disk"@, "disk_format"@, "disk_readonly"@, "upper"@]);
    j
}

/// Whether `j` is a published port.
pub open spec fn is_port(j: Json, v: PublishedPort) -> bool {
    &&& j is Object
    &&& keys(j) == seq!["host_port"@, "guest_port"@, "protocol"@, "host_bind"@]
    &&& is_number(members(j)[0].1, v.host_port as int)
    &&& is_number(members(j)[1].1, v.guest_port as int)
    &&& is_text(members(j)[2].1, port_protocol_name(v.protocol))
    &&& is_text(members(j)[3].1, v.host_bind@)
}

fn write_port(v: &PublishedPort) -> (j: Json)
    ensures
        is_port(j, *v),
{
    let j = Json::Object(
        vec![
            member("host_port", Json::Number(v.host_port as u64)),
            member("guest_port", Json::Number(v.guest_port as u64)),
            member("protocol", Json::Text(write_port_protocol_name(v.protocol).to_owned())),
            member("host_bind", text(&v.host_bind)),
        ],
    );
    assert(keys(j) =~= seq!["host_port"@, "guest_port"@, "protocol"@, "host_bind"@]);
    j
}

/// Whether `j` lists these published ports.
pub open spec fn is_port_list(j: Json, v: Seq<PublishedPort>) -> bool {
    &&& j is Array
    &&& items(j).len() == v.len()
    &&& forall|i: int| 0 <= i < v.len() ==> is_port(#[trigger] items(j)[i], v[i])
}

fn write_port_list(v: &Vec<PublishedPort>) -> (j: Json)
    ensures
        is_port_list(j, v@),
{
    let mut out: Vec<Json> = Vec::new();
    let mut i: usize = 0;
    while i < v.len()
        invariant
            i <= v.len(),
            out.len() == i,
            forall|k: int| 0 <= k < i ==> is_port(#[trigger] out@[k], v@[k]),
        decreases v.len() - i,
    {
        out.push(write_port(&v[i]));
        i = i + 1;
    }
    Json::Array(out)
}

/// Whether `j` is the DNS part.
pub open spec fn is_dns(j: Json, v: DnsConfig) -> bool {
    &&& j is Object
    &&& keys(j) == seq!["rebind_protection"@, "nameservers"@, "query_timeout_ms"@]
    &&& members(j)[0].1 == Json::Bool(v.rebind_protection)
    &&& is_texts(members(j)[1].1, collections::views(v.nameservers@))
    &&& is_number(members(j)[2].1, v.query_timeout_ms as int)
}

fn write_dns(v: &DnsConfig) -> (j: Json)
    ensures
        is_dns(j, *v),
{
    let j = Json::Object(
        vec![
            member("rebind_protection", Json::Bool(v.rebind_protection)),
            member("nameservers", nameservers(&v.nameservers)),
            member("query_timeout_ms", Json::Number(v.query_timeout_ms as u64)),
        ],
    );
    assert(keys(j) =~= seq!["rebind_protection"@, "nameservers"@, "query_timeout_ms"@]);
    j
}

/// Whether `j` is the TLS part.
pub open spec fn is_tls(j: Json, v: TlsConfig) -> bool {
    &&& j is Object
    &&& keys(j) == seq!["enabled"@, "intercepted_ports"@]
    &&& members(j)[0].1 == Json::Bool(v.enabled)
    &&& is_ports(members(j)[1].1, v.intercepted_ports@)
}

fn write_tls(v: &TlsConfig) -> (j: Json)
    ensures
        is_tls(j, *v),
{
    let j = Json::Object(
        vec![
            member("enabled", Json::Bool(v.enabled)),
            member("intercepted_ports", ports(&v.intercepted_ports)),
        ],
    );
    assert(keys(j) =~= seq!["enabled"@, "intercepted_ports"@]);
    j
}

/// Whether `j` is a secret.
pub open spec fn is_secret(j: Json, v: SecretEntry) -> bool {
    &&& j is Object
    &&& keys(j) == seq!["env_var"@, "value"@, "placeholder"@, "allowed_hosts"@, "require_tls_identity"@]
    &&& is_text(members(j)[0].1, v.env_var@)
    &&& is_text(members(j)[1].1, v.value@)
    &&& is_text(members(j)[2].1, v.placeholder@)
    &&& is_pattern_list(members(j)[3].1, v.allowed_hosts@)
    &&& members(j)[4].1 == Json::Bool(v.require_tls_identity)
}

fn write_secret(v: &SecretEntry) -> (j: Json)
    ensures
        is_secret(j, *v),
{
    let j = Json::Object(
        vec![
            member("env_var", text(&v.env_var)),
            member("value", text(&v.value)),
            member("placeholder", text(&v.placeholder)),
            member("allowed_hosts", write_pattern_list(&v.allowed_hosts)),
            member("require_tls_identity", Json::Bool(v.require_tls_identity)),
        ],
    );
    assert(keys(j) =~= seq!["env_var"@, "value"@, "placeholder"@, "allowed_hosts"@, "require_tls_identity"@]);
    j
}

/// Whether `j` lists these secrets.
pub open spec fn is_secret_list(j: Json, v: Seq<SecretEntry>) -> bool {
    &&& j is Array
    &&& items(j).len() == v.len()
    &&& forall|i: int| 0 <= i < v.len() ==> is_secret(#[trigger] items(j)[i], v[i])
}

fn write_secret_list(v: &Vec<SecretEntry>) -> (j: Json)
    ensures
        is_secret_list(j, v@),
{
    let mut out: Vec<Json> = Vec::new();
    let mut i: usize = 0;
    while i < v.len()
        invariant
            i <= v.len(),
            out.len() == i,
            forall|k: int| 0 <= k < i ==> is_secret(#[trigger] out@[k], v@[k]),
        decreases v.len() - i,
    {
        out.push(write_secret(&v[i]));
        i = i + 1;
    }
    Json::Array(out)
}

/// Whether `j` is the secrets.
pub open spec fn is_secrets(j: Json, v: SecretsConfig) -> bool {
    &&& j is Object
    &&& keys(j) == seq!["secrets"@]
    &&& is_secret_list(members(j)[0].1, v.secrets@)
}

fn write_secrets(v: &SecretsConfig) -> (j: Json)
    ensures
        is_secrets(j, *v),
{
    let j = Json::Object(
        vec![
            member("secrets", write_secret_list(&v.secrets)),
        ],
    );
    assert(keys(j) =~= seq!["secrets"@]);
    j
}

/// Whether `j` is a range of ports.
pub open spec fn is_range(j: Json, v: PortRange) -> bool {
    &&& j is Object
    &&& keys(j) == seq!["start"@, "end"@]
    &&& is_number(members(j)[0].1, v.start as int)
    &&& is_number(members(j)[1].1, v.end as int)
}

fn write_range(v: &PortRange) -> (j: Json)
    ensures
        is_range(j, *v),
{
    let j = Json::Object(
        vec![
            member("start", Json::Number(v.start as u64)),
            member("end", Json::Number(v.end as u64)),
        ],
    );
    assert(keys(j) =~= seq!["start"@, "end"@]);
    j
}

/// Whether `j` lists these ranges of ports.
pub open spec fn is_range_list(j: Json, v: Seq<PortRange>) -> bool {
    &&& j is Array
    &&& items(j).len() == v.len()
    &&& forall|i: int| 0 <= i < v.len() ==> is_range(#[trigger] items(j)[i], v[i])
}

fn write_range_list(v: &Vec<PortRange>) -> (j: Json)
    ensures
        is_range_list(j, v@),
{
    let mut out: Vec<Json> = Vec::new();
    let mut i: usize = 0;
    while i < v.len()
        invariant
            i <= v.len(),
            out.len() == i,
            forall|k: int| 0 <= k < i ==> is_range(#[trigger] out@[k], v@[k]),
        decreases v.len() - i,
    {
        out.push(write_range(&v[i]));
        i = i + 1;
    }
    Json::Array(out)
}

/// Whether `j` is a rule of a policy.
pub open spec fn is_rule(j: Json, v: Rule) -> bool {
    &&& j is Object
    &&& keys(j) == seq!["direction"@, "destination"@, "protocols"@, "ports"@, "action"@]
    &&& is_text(members(j)[0].1, direction_name(v.direction))
    &&& is_destination(members(j)[1].1, v.destination)
    &&& is_protocols(members(j)[2].1, v.protocols@)
    &&& is_range_list(members(j)[3].1, v.ports@)
    &&& is_text(members(j)[4].1, action_name(v.action))
}

fn write_rule(v: &Rule) -> (j: Json)
    ensures
        is_rule(j, *v),
{
    let j = Json::Object(
        vec![
            member("direction", Json::Text(write_direction_name(v.direction).to_owned())),
            member("destination", write_destination(&v.destination)),
            member("protocols", protocols(&v.protocols)),
            member("ports", write_range_list(&v.ports)),
            member("action", Json::Text(write_action_name(v.action).to_owned())),
        ],
    );
    assert(keys(j) =~= seq!["direction"@, "destination"@, "protocols"@, "ports"@, "action"@]);
    j
}

/// Whether `j` lists these rules.
pub open spec fn is_rule_list(j: Json, v: Seq<Rule>) -> bool {
    &&& j is Array
    &&& items(j).len() == v.len()
    &&& forall|i: int| 0 <= i < v.len() ==> is_rule(#[trigger] items(j)[i], v[i])
}

fn write_rule_list(v: &Vec<Rule>) -> (j: Json)
    ensures
        is_rule_list(j, v@),
{
    let mut out: Vec<Json> = Vec::new();
    let mut i: usize = 0;
    while i < v.len()
        invariant
            i <= v.len(),
            out.len() == i,
            forall|k: int| 0 <= k < i ==> is_rule(#[trigger] out@[k], v@[k]),
        decreases v.len() - i,
    {
        out.push(write_rule(&v[i]));
        i = i + 1;
    }
    Json::Array(out)
}

/// Whether `j` is a policy.
pub open spec fn is_policy(j: Json, v: NetworkPolicy) -> bool {
    &&& j is Object
    &&& keys(j) == seq!["default_egress"@, "default_ingress"@, "rules"@]
    &&& is_text(members(j)[0].1, action_name(v.default_egress))
    &&& is_text(members(j)[1].1, action_name(v.default_ingress))
    &&& is_rule_list(members(j)[2].1, v.rules@)
}

fn write_policy(v: &NetworkPolicy) -> (j: Json)
    ensures
        is_policy(j, *v),
{
    let j = Json::Object(
        vec![
            member("default_egress", Json::Text(write_action_name(v.default_egress).to_owned())),
            member("default_ingress", Json::Text(write_action_name(v.default_ingress).to_owned())),
            member("rules", write_rule_list(&v.rules)),
        ],
    );
    assert(keys(j) =~= seq!["default_egress"@, "default_ingress"@, "rules"@]);
    j
}

/// Whether `j` is the network.
pub open spec fn is_network(j: Json, v: NetworkConfig) -> bool {
    &&& j is Object
    &&& keys(j) == seq!["enabled"@, "ports"@, "policy"@, "dns"@, "tls"@, "secrets"@, "max_connections"@, "trust_host_cas"@]
    &&& members(j)[0].1 == Json::Bool(v.enabled)
    &&& is_port_list(members(j)[1].1, v.ports@)
    &&& is_policy(members(j)[2].1, v.policy)
    &&& is_dns(members(j)[3].1, v.dns)
    &&& is_tls(members(j)[4].1, v.tls)
    &&& is_secrets(members(j)[5].1, v.secrets)
    &&& (match v.max_connections {
        Some(n) => is_number(members(j)[6].1, n as int),
        None => members(j)[6].1 == Json::Null,
    })
    &&& members(j)[7].1 == Json::Bool(v.trust_host_cas)
}

fn write_network(v: &NetworkConfig) -> (j: Json)
    ensures
        is_network(j, *v),
{
    let j = Json::Object(
        vec![
            member("enabled", Json::Bool(v.enabled)),
            member("ports", write_port_list(&v.ports)),
            member("policy", write_policy(&v.policy)),
            member("dns", write_dns(&v.dns)),
            member("tls", write_tls(&v.tls)),
            member("secrets", write_secrets(&v.secrets)),
            member("max_connections", match v.max_connections {
                    Some(n) => Json::Number(n as u64),
                    None => Json::Null,
                }),
            member("trust_host_cas", Json::Bool(v.trust_host_cas)),
        ],
    );
    assert(keys(j) =~= seq!["enabled"@, "ports"@, "policy"@, "dns"@, "tls"@, "secrets"@, "max_connections"@, "trust_host_cas"@]);
    j
}

/// The keys of the launch configuration. All of them are always there.
pub open spec fn launch_keys() -> Seq<Seq<char>> {
    seq![
        "db_path"@,
        "db_connect_timeout_secs"@,
        "log_dir"@,
        "runtime_dir"@,
        "sandboxes_dir"@,
        "agent_sock"@,
        "libkrunfw_path"@,
        "startup"@,
        "lifecycle"@,
        "metrics"@,
        "rootfs"@,
        "mounts"@,
        "disks"@,
        "init_path"@,
        "env"@,
        "workdir"@,
        "exec_path"@,
        "exec_args"@,
        "network"@,
        "sandbox_slot"@,
    ]
}

/// Whether `j` is the launch configuration.
pub open spec fn is_launch_config(j: Json, v: LaunchConfig) -> bool {
    &&& j is Object
    &&& keys(j) == launch_keys()
    &&& is_text(members(j)[0].1, v.db_path@)
    &&& is_number(members(j)[1].1, v.db_connect_timeout_secs as int)
    &&& is_text(members(j)[2].1, v.log_dir@)
    &&& is_text(members(j)[3].1, v.runtime_dir@)
    &&& is_text(members(j)[4].1, v.sandboxes_dir@)
    &&& is_text(members(j)[5].1, v.agent_sock@)
    &&& is_text(members(j)[6].1, v.libkrunfw_path@)
    &&& (match v.startup {
        Some(y) => is_startup(members(j)[7].1, y),
        None => members(j)[7].1 == Json::Null,
    })
    &&& is_lifecycle(members(j)[8].1, v.lifecycle)
    &&& is_metrics(members(j)[9].1, v.metrics)
    &&& is_rootfs(members(j)[10].1, v.rootfs)
    &&& is_texts(members(j)[11].1, collections::views(v.mounts@))
    &&& is_texts(members(j)[12].1, collections::views(v.disks@))
    &&& is_opt_text(members(j)[13].1, collections::opt(v.init_path))
    &&& is_texts(members(j)[14].1, collections::views(v.env@))
    &&& is_opt_text(members(j)[15].1, collections::opt(v.workdir))
    &&& is_opt_text(members(j)[16].1, collections::opt(v.exec_path))
    &&& is_texts(members(j)[17].1, collections::views(v.exec_args@))
    &&& (match v.network {
        Some(y) => is_network(members(j)[18].1, y),
        None => members(j)[18].1 == Json::Null,
    })
    &&& is_number(members(j)[19].1, v.sandbox_slot as int)
}

/// Writes the launch configuration.
pub fn to_json(v: &LaunchConfig) -> (j: Json)
    ensures
        is_launch_config(j, *v),
{
    let j = Json::Object(
        vec![
            member("db_path", text(&v.db_path)),
            member("db_connect_timeout_secs", Json::Number(v.db_connect_timeout_secs as u64)),
            member("log_dir", text(&v.log_dir)),
            member("runtime_dir", text(&v.runtime_dir)),
            member("sandboxes_dir", text(&v.sandboxes_dir)),
            member("agent_sock", text(&v.agent_sock)),
            member("libkrunfw_path", text(&v.libkrunfw_path)),
            member("startup", match &v.startup {
                    Some(y) => write_startup(y),
                    None => Json::Null,
                }),
            member("lifecycle", write_lifecycle(&v.lifecycle)),
            member("metrics", write_metrics(&v.metrics)),
            member("rootfs", write_rootfs(&v.rootfs)),
            member("mounts", texts(&v.mounts)),
            member("disks", texts(&v.disks)),
            member("init_path", opt_text(&v.init_path)),
            member("env", texts(&v.env)),
            member("workdir", opt_text(&v.workdir)),
            member("exec_path", opt_text(&v.exec_path)),
            member("exec_args", texts(&v.exec_args)),
            member("network", match &v.network {
                    Some(y) => write_network(y),
                    None => Json::Null,
                }),
            member("sandbox_slot", Json::Number(v.sandbox_slot as u64)),
        ],
    );
    assert(keys(j) =~= launch_keys());
    j
}

} // verus!
