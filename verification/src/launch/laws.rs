//! What holds of the launch configuration, and of the JSON it is written as.

use vstd::prelude::*;

use crate::collections;
use crate::json::Json;
use crate::launch::config;
use crate::launch::config::{LaunchConfig, Lifecycle, MetricsConfig, StartupCommand};
use crate::launch::network::{
    Action, Destination, DestinationGroup, HostPattern, NetworkConfig, PortProtocol, Protocol, Rule,
    SecretEntry, SecretsConfig,
};
use crate::launch::wire;
use crate::paths;
use crate::sandbox::SandboxSpec;

verus! {

/// The program and its arguments, as one row of words.
pub open spec fn program(cfg: LaunchConfig) -> Seq<Seq<char>> {
    match cfg.exec_path {
        Some(p) => seq![p@] + collections::views(cfg.exec_args@),
        None => collections::views(cfg.exec_args@),
    }
}

/// What is launched is the command of the specification, word for word, from the given
/// disk, with a writable layer of the sandbox's own. All that the sandbox writes is in the
/// directory of its name, in that of all sandboxes, which is under the home.
pub proof fn the_sandbox_is_launched_in_its_own_directory(
    cfg: LaunchConfig,
    spec: SandboxSpec,
    msb_home: Seq<char>,
    name: Seq<char>,
    rootfs_vmdk: Seq<char>,
    libkrunfw_path: Seq<char>,
    secrets: Seq<SecretEntry>,
)
    requires
        config::launches(cfg, spec, msb_home, name, rootfs_vmdk, libkrunfw_path, secrets),
    ensures
        program(cfg) == collections::views(spec.cmd@),
        cfg.exec_path is Some <==> spec.cmd@.len() > 0,
        ({
            let dir = paths::joined(cfg.sandboxes_dir@, name);
            &&& cfg.sandboxes_dir@ == paths::joined(msb_home, "sandboxes"@)
            &&& cfg.log_dir@ == paths::joined(dir, "logs"@)
            &&& cfg.runtime_dir@ == paths::joined(dir, "runtime"@)
            &&& collections::opt(cfg.rootfs.upper) == Some(paths::joined(dir, "upper.ext4"@))
            &&& cfg.db_path@ == paths::joined(paths::joined(msb_home, "db"@), "msb.db"@)
        }),
        collections::opt(cfg.rootfs.disk) == Some(rootfs_vmdk),
        collections::opt(cfg.rootfs.disk_format) == Some("vmdk"@),
        cfg.rootfs.path is None,
        cfg.libkrunfw_path@ == libkrunfw_path,
        cfg.db_connect_timeout_secs == 10,
        cfg.sandbox_slot == 0,
        cfg.network is Some,
        cfg.network->0.secrets.secrets@ == secrets,
        cfg.network->0.enabled == spec.network.enabled,
{
    let words = collections::views(spec.cmd@);
    if spec.cmd@.len() > 0 {
        assert(cfg.exec_path->0@ == words[0]);
        assert(seq![words[0]] + words.skip(1) =~= words);
    } else {
        assert(program(cfg) =~= words);
    }
}

/// The keys of an object are those of its members.
proof fn keyed(j: Json)
    ensures
        wire::keys(j).len() == wire::members(j).len(),
        forall|i: int|
            0 <= i < wire::members(j).len() ==> (#[trigger] wire::members(j)[i]).0@
                == wire::keys(j)[i],
{
}

/// Whether an object has the string `s` under `key`.
pub open spec fn text_at(j: Json, key: Seq<char>, s: Seq<char>) -> bool {
    exists|i: int|
        0 <= i < wire::members(j).len() && (#[trigger] wire::members(j)[i]).0@ == key
            && (wire::members(j)[i].1 matches Json::Text(t) && t@ == s)
}

/// Whether an object has the string `o` under `key`, or null where there is none.
pub open spec fn opt_text_at(j: Json, key: Seq<char>, o: Option<Seq<char>>) -> bool {
    exists|i: int|
        0 <= i < wire::members(j).len() && (#[trigger] wire::members(j)[i]).0@ == key
            && match o {
            Some(s) => wire::members(j)[i].1 matches Json::Text(t) && t@ == s,
            None => wire::members(j)[i].1 is Null,
        }
}

/// Whether an object has these strings under `key`.
pub open spec fn texts_at(j: Json, key: Seq<char>, s: Seq<Seq<char>>) -> bool {
    exists|i: int|
        0 <= i < wire::members(j).len() && (#[trigger] wire::members(j)[i]).0@ == key
            && wire::is_texts(wire::members(j)[i].1, s)
}

/// Whether an object has the number `n` under `key`.
pub open spec fn number_at(j: Json, key: Seq<char>, n: int) -> bool {
    exists|i: int|
        0 <= i < wire::members(j).len() && (#[trigger] wire::members(j)[i]).0@ == key
            && (wire::members(j)[i].1 matches Json::Number(m) && m == n)
}

/// Whether an object has the truth value `b` under `key`.
pub open spec fn bool_at(j: Json, key: Seq<char>, b: bool) -> bool {
    exists|i: int|
        0 <= i < wire::members(j).len() && (#[trigger] wire::members(j)[i]).0@ == key
            && wire::members(j)[i].1 == Json::Bool(b)
}

/// Whether an object has `v` under `key`.
pub open spec fn value_at(j: Json, key: Seq<char>, v: Json) -> bool {
    exists|i: int|
        0 <= i < wire::members(j).len() && (#[trigger] wire::members(j)[i]).0@ == key
            && wire::members(j)[i].1 == v
}

/// Each setting of the launch configuration is written under its own name.
pub proof fn each_setting_is_written_under_its_name(j: Json, v: LaunchConfig)
    requires
        wire::is_launch_config(j, v),
    ensures
        wire::members(j).len() == 20,
        text_at(j, "db_path"@, v.db_path@),
        number_at(j, "db_connect_timeout_secs"@, v.db_connect_timeout_secs as int),
        text_at(j, "log_dir"@, v.log_dir@),
        text_at(j, "runtime_dir"@, v.runtime_dir@),
        text_at(j, "sandboxes_dir"@, v.sandboxes_dir@),
        text_at(j, "agent_sock"@, v.agent_sock@),
        text_at(j, "libkrunfw_path"@, v.libkrunfw_path@),
        texts_at(j, "mounts"@, collections::views(v.mounts@)),
        texts_at(j, "disks"@, collections::views(v.disks@)),
        opt_text_at(j, "init_path"@, collections::opt(v.init_path)),
        texts_at(j, "env"@, collections::views(v.env@)),
        opt_text_at(j, "workdir"@, collections::opt(v.workdir)),
        opt_text_at(j, "exec_path"@, collections::opt(v.exec_path)),
        texts_at(j, "exec_args"@, collections::views(v.exec_args@)),
        number_at(j, "sandbox_slot"@, v.sandbox_slot as int),
{
    let m = wire::members(j);
    let k = wire::keys(j);
    keyed(j);
    assert(k.len() == 20);
    assert(m[0].0@ == "db_path"@);
    assert(m[1].0@ == "db_connect_timeout_secs"@);
    assert(m[2].0@ == "log_dir"@);
    assert(m[3].0@ == "runtime_dir"@);
    assert(m[4].0@ == "sandboxes_dir"@);
    assert(m[5].0@ == "agent_sock"@);
    assert(m[6].0@ == "libkrunfw_path"@);
    assert(m[11].0@ == "mounts"@);
    assert(m[12].0@ == "disks"@);
    assert(m[13].0@ == "init_path"@);
    assert(m[14].0@ == "env"@);
    assert(m[15].0@ == "workdir"@);
    assert(m[16].0@ == "exec_path"@);
    assert(m[17].0@ == "exec_args"@);
    assert(m[19].0@ == "sandbox_slot"@);
}

/// The disks are written under their own names, and so is the network.
pub proof fn the_disks_are_written_under_their_names(j: Json, v: LaunchConfig)
    requires
        wire::is_launch_config(j, v),
    ensures
        exists|r: Json|
            {
                &&& #[trigger] value_at(j, "rootfs"@, r)
                &&& opt_text_at(r, "path"@, collections::opt(v.rootfs.path))
                &&& opt_text_at(r, "disk"@, collections::opt(v.rootfs.disk))
                &&& opt_text_at(r, "disk_format"@, collections::opt(v.rootfs.disk_format))
                &&& bool_at(r, "disk_readonly"@, v.rootfs.disk_readonly)
                &&& opt_text_at(r, "upper"@, collections::opt(v.rootfs.upper))
            },
        v.network matches Some(net) ==> exists|n: Json| #[trigger]
            value_at(j, "network"@, n) && wire::is_network(n, net),
{
    let m = wire::members(j);
    let k = wire::keys(j);
    keyed(j);
    assert(k.len() == 20);
    let r = m[10].1;
    let rm = wire::members(r);
    let rk = wire::keys(r);
    keyed(r);
    assert(rk.len() == 5);
    assert(rm[0].0@ == "path"@);
    assert(rm[1].0@ == "disk"@);
    assert(rm[2].0@ == "disk_format"@);
    assert(rm[3].0@ == "disk_readonly"@);
    assert(rm[4].0@ == "upper"@);
    assert(m[10].0@ == "rootfs"@);
    assert(m[18].0@ == "network"@);
    assert(value_at(j, "rootfs"@, r));
    assert(value_at(j, "network"@, m[18].1));
}

/// Each setting of the network is written under its own name.
pub proof fn the_network_is_written_under_its_names(j: Json, v: NetworkConfig, i: int)
    requires
        wire::is_network(j, v),
    ensures
        bool_at(j, "enabled"@, v.enabled),
        bool_at(j, "trust_host_cas"@, v.trust_host_cas),
        v.max_connections matches Some(n) ==> number_at(j, "max_connections"@, n as int),
        exists|p: Json|
            {
                &&& #[trigger] value_at(j, "ports"@, p)
                &&& wire::items(p).len() == v.ports@.len()
                &&& 0 <= i < v.ports@.len() ==> {
                    let q = wire::items(p)[i];
                    &&& number_at(q, "host_port"@, v.ports@[i].host_port as int)
                    &&& number_at(q, "guest_port"@, v.ports@[i].guest_port as int)
                    &&& text_at(q, "host_bind"@, v.ports@[i].host_bind@)
                    &&& text_at(
                        q,
                        "protocol"@,
                        match v.ports@[i].protocol {
                            PortProtocol::Tcp => "tcp"@,
                            PortProtocol::Udp => "udp"@,
                        },
                    )
                }
            },
        exists|d: Json|
            {
                &&& #[trigger] value_at(j, "dns"@, d)
                &&& bool_at(d, "rebind_protection"@, v.dns.rebind_protection)
                &&& texts_at(d, "nameservers"@, collections::views(v.dns.nameservers@))
                &&& number_at(d, "query_timeout_ms"@, v.dns.query_timeout_ms as int)
            },
        exists|t: Json| #[trigger]
            value_at(j, "tls"@, t) && bool_at(t, "enabled"@, v.tls.enabled),
        exists|p: Json|
            {
                &&& #[trigger] value_at(j, "policy"@, p)
                &&& text_at(
                    p,
                    "default_egress"@,
                    if v.policy.default_egress == Action::Allow {
                        "allow"@
                    } else {
                        "deny"@
                    },
                )
                &&& text_at(
                    p,
                    "default_ingress"@,
                    if v.policy.default_ingress == Action::Allow {
                        "allow"@
                    } else {
                        "deny"@
                    },
                )
            },
{
    let m = wire::members(j);
    let k = wire::keys(j);
    keyed(j);
    assert(k.len() == 8);
    assert(m[0].0@ == "enabled"@);
    assert(m[6].0@ == "max_connections"@);
    assert(m[7].0@ == "trust_host_cas"@);
    let ports = m[1].1;
    assert(m[1].0@ == "ports"@);
    assert(value_at(j, "ports"@, ports));
    if 0 <= i < v.ports@.len() {
        let q = wire::items(ports)[i];
        let (qm, qk) = (wire::members(q), wire::keys(q));
        assert(wire::is_port(q, v.ports@[i]));
        keyed(q);
        assert(qk.len() == 4);
        assert(qm[0].0@ == "host_port"@);
        assert(qm[1].0@ == "guest_port"@);
        assert(qm[2].0@ == "protocol"@);
        assert(qm[3].0@ == "host_bind"@);
    }
    let dns = m[3].1;
    assert(m[3].0@ == "dns"@);
    assert(value_at(j, "dns"@, dns));
    let (dm, dk) = (wire::members(dns), wire::keys(dns));
    keyed(dns);
    assert(dk.len() == 3);
    assert(dm[0].0@ == "rebind_protection"@);
    assert(dm[1].0@ == "nameservers"@);
    assert(dm[2].0@ == "query_timeout_ms"@);
    let tls = m[4].1;
    assert(m[4].0@ == "tls"@);
    assert(value_at(j, "tls"@, tls));
    keyed(tls);
    assert(wire::keys(tls).len() == 2);
    assert(wire::members(tls)[0].0@ == "enabled"@);
    let policy = m[2].1;
    assert(m[2].0@ == "policy"@);
    assert(value_at(j, "policy"@, policy));
    let (pm, pk) = (wire::members(policy), wire::keys(policy));
    keyed(policy);
    assert(pk.len() == 3);
    assert(pm[0].0@ == "default_egress"@);
    assert(pm[1].0@ == "default_ingress"@);
}

/// Each part of a secret is written under its own name, and each host as what it is.
pub proof fn a_secret_is_written_under_its_names(j: Json, v: SecretEntry, h: int)
    requires
        wire::is_secret(j, v),
    ensures
        text_at(j, "env_var"@, v.env_var@),
        text_at(j, "value"@, v.value@),
        text_at(j, "placeholder"@, v.placeholder@),
        bool_at(j, "require_tls_identity"@, v.require_tls_identity),
        exists|a: Json|
            {
                &&& #[trigger] value_at(j, "allowed_hosts"@, a)
                &&& wire::items(a).len() == v.allowed_hosts@.len()
                &&& 0 <= h < v.allowed_hosts@.len() ==> match v.allowed_hosts@[h] {
                    HostPattern::Exact(host) => text_at(wire::items(a)[h], "exact"@, host@),
                    HostPattern::Wildcard(host) => text_at(wire::items(a)[h], "wildcard"@, host@),
                }
            },
{
    let m = wire::members(j);
    let k = wire::keys(j);
    keyed(j);
    assert(k.len() == 5);
    assert(m[0].0@ == "env_var"@);
    assert(m[1].0@ == "value"@);
    assert(m[2].0@ == "placeholder"@);
    assert(m[3].0@ == "allowed_hosts"@);
    assert(m[4].0@ == "require_tls_identity"@);
    let a = m[3].1;
    assert(value_at(j, "allowed_hosts"@, a));
    if 0 <= h < v.allowed_hosts@.len() {
        let q = wire::items(a)[h];
        assert(wire::is_pattern(q, v.allowed_hosts@[h]));
        keyed(q);
        assert(wire::members(q)[0].0@ == wire::keys(q)[0]);
    }
}

/// Each part of a rule is written under its own name: what it does, where to, and for
/// which protocols and ports.
pub proof fn a_rule_is_written_under_its_names(j: Json, v: Rule, i: int)
    requires
        wire::is_rule(j, v),
    ensures
        text_at(j, "direction"@, "egress"@),
        text_at(
            j,
            "action"@,
            if v.action == Action::Allow {
                "allow"@
            } else {
                "deny"@
            },
        ),
        exists|d: Json|
            {
                &&& #[trigger] value_at(j, "destination"@, d)
                &&& v.destination == Destination::Group(DestinationGroup::Host) ==> text_at(
                    d,
                    "group"@,
                    "host"@,
                )
                &&& v.destination == Destination::Group(DestinationGroup::Public) ==> text_at(
                    d,
                    "group"@,
                    "public"@,
                )
                &&& v.destination == Destination::Group(DestinationGroup::Private) ==> text_at(
                    d,
                    "group"@,
                    "private"@,
                )
            },
        exists|p: Json|
            {
                &&& #[trigger] value_at(j, "protocols"@, p)
                &&& wire::items(p).len() == v.protocols@.len()
                &&& 0 <= i < v.protocols@.len() ==> wire::is_text(
                    wire::items(p)[i],
                    if v.protocols@[i] == Protocol::Tcp {
                        "tcp"@
                    } else {
                        "udp"@
                    },
                )
            },
        exists|p: Json|
            {
                &&& #[trigger] value_at(j, "ports"@, p)
                &&& wire::items(p).len() == v.ports@.len()
                &&& 0 <= i < v.ports@.len() ==> number_at(
                    wire::items(p)[i],
                    "start"@,
                    v.ports@[i].start as int,
                ) && number_at(wire::items(p)[i], "end"@, v.ports@[i].end as int)
            },
{
    let m = wire::members(j);
    let k = wire::keys(j);
    keyed(j);
    assert(k.len() == 5);
    assert(m[0].0@ == "direction"@);
    assert(m[1].0@ == "destination"@);
    assert(m[2].0@ == "protocols"@);
    assert(m[3].0@ == "ports"@);
    assert(m[4].0@ == "action"@);
    let d = m[1].1;
    assert(value_at(j, "destination"@, d));
    keyed(d);
    assert(wire::keys(d).len() == 1);
    assert(wire::members(d)[0].0@ == "group"@);
    assert(value_at(j, "protocols"@, m[2].1));
    if 0 <= i < v.protocols@.len() {
        assert(wire::is_text(wire::items(m[2].1)[i], wire::protocol_name(v.protocols@[i])));
    }
    assert(value_at(j, "ports"@, m[3].1));
    if 0 <= i < v.ports@.len() {
        let q = wire::items(m[3].1)[i];
        assert(wire::is_range(q, v.ports@[i]));
        keyed(q);
        assert(wire::keys(q).len() == 2);
        assert(wire::members(q)[0].0@ == "start"@);
        assert(wire::members(q)[1].0@ == "end"@);
    }
}

/// A row of words is written whole and in order.
pub proof fn a_row_of_words_is_written_whole(j: Json, words: Seq<Seq<char>>, i: int)
    requires
        wire::is_texts(j, words),
    ensures
        wire::items(j).len() == words.len(),
        0 <= i < words.len() ==> (wire::items(j)[i] matches Json::Text(t) && t@ == words[i]),
{
    if 0 <= i < words.len() {
        assert(wire::is_text(wire::items(j)[i], words[i]));
    }
}

/// Every secret is written, in order, and nothing beside them.
pub proof fn every_secret_is_written(j: Json, v: SecretsConfig, i: int)
    requires
        wire::is_secrets(j, v),
    ensures
        wire::members(j).len() == 1,
        exists|a: Json|
            {
                &&& #[trigger] value_at(j, "secrets"@, a)
                &&& wire::items(a).len() == v.secrets@.len()
                &&& 0 <= i < v.secrets@.len() ==> {
                    &&& text_at(wire::items(a)[i], "env_var"@, v.secrets@[i].env_var@)
                    &&& text_at(wire::items(a)[i], "placeholder"@, v.secrets@[i].placeholder@)
                    &&& text_at(wire::items(a)[i], "value"@, v.secrets@[i].value@)
                }
            },
{
    keyed(j);
    assert(wire::keys(j).len() == 1);
    let a = wire::members(j)[0].1;
    assert(wire::members(j)[0].0@ == "secrets"@);
    assert(value_at(j, "secrets"@, a));
    if 0 <= i < v.secrets@.len() {
        assert(wire::is_secret(wire::items(a)[i], v.secrets@[i]));
        a_secret_is_written_under_its_names(wire::items(a)[i], v.secrets@[i], 0);
    }
}

/// Whether an object has the number `o` under `key`, or null where there is none.
pub open spec fn opt_number_at(j: Json, key: Seq<char>, o: Option<u64>) -> bool {
    exists|i: int|
        0 <= i < wire::members(j).len() && (#[trigger] wire::members(j)[i]).0@ == key
            && match o {
            Some(n) => wire::members(j)[i].1 == Json::Number(n),
            None => wire::members(j)[i].1 is Null,
        }
}

/// The limits on a lifetime, the metrics and what is run first are written under their own
/// names.
pub proof fn the_lifetime_is_written_under_its_names(j: Json, v: LaunchConfig)
    requires
        wire::is_launch_config(j, v),
    ensures
        exists|l: Json|
            {
                &&& #[trigger] value_at(j, "lifecycle"@, l)
                &&& opt_number_at(l, "max_duration_secs"@, v.lifecycle.max_duration_secs)
                &&& opt_number_at(l, "idle_timeout_secs"@, v.lifecycle.idle_timeout_secs)
            },
        exists|m: Json|
            {
                &&& #[trigger] value_at(j, "metrics"@, m)
                &&& number_at(m, "sample_interval_ms"@, v.metrics.sample_interval_ms as int)
                &&& bool_at(m, "disabled"@, v.metrics.disabled)
            },
        v.startup is None ==> value_at(j, "startup"@, Json::Null),
        v.network is None ==> value_at(j, "network"@, Json::Null),
{
    let m = wire::members(j);
    keyed(j);
    assert(wire::keys(j).len() == 20);
    assert(m[7].0@ == "startup"@);
    assert(m[8].0@ == "lifecycle"@);
    assert(m[9].0@ == "metrics"@);
    assert(m[18].0@ == "network"@);
    assert(value_at(j, "lifecycle"@, m[8].1));
    assert(value_at(j, "metrics"@, m[9].1));
    limits_are_written(m[8].1, v.lifecycle);
    metrics_are_written(m[9].1, v.metrics);
}

/// The two limits stand under their names.
proof fn limits_are_written(j: Json, v: Lifecycle)
    requires
        wire::is_lifecycle(j, v),
    ensures
        opt_number_at(j, "max_duration_secs"@, v.max_duration_secs),
        opt_number_at(j, "idle_timeout_secs"@, v.idle_timeout_secs),
{
    keyed(j);
    assert(wire::keys(j).len() == 2);
    assert(wire::members(j)[0].0@ == "max_duration_secs"@);
    assert(wire::members(j)[1].0@ == "idle_timeout_secs"@);
}

/// The metrics stand under their names.
proof fn metrics_are_written(j: Json, v: MetricsConfig)
    requires
        wire::is_metrics(j, v),
    ensures
        number_at(j, "sample_interval_ms"@, v.sample_interval_ms as int),
        bool_at(j, "disabled"@, v.disabled),
{
    keyed(j);
    assert(wire::keys(j).len() == 3);
    assert(wire::members(j)[0].0@ == "sample_interval_ms"@);
    assert(wire::members(j)[1].0@ == "disabled"@);
}

/// Each part of a command that is run first is written under its own name.
pub proof fn a_startup_command_is_written_under_its_names(j: Json, v: StartupCommand)
    requires
        wire::is_startup(j, v),
    ensures
        text_at(j, "cmd"@, v.cmd@),
        texts_at(j, "args"@, collections::views(v.args@)),
        texts_at(j, "env"@, collections::views(v.env@)),
        opt_text_at(j, "cwd"@, collections::opt(v.cwd)),
        opt_text_at(j, "user"@, collections::opt(v.user)),
{
    keyed(j);
    let m = wire::members(j);
    assert(wire::keys(j).len() == 5);
    assert(m[0].0@ == "cmd"@);
    assert(m[1].0@ == "args"@);
    assert(m[2].0@ == "env"@);
    assert(m[3].0@ == "cwd"@);
    assert(m[4].0@ == "user"@);
}

/// The secrets, the rules and the intercepted ports are written with the network, each
/// list whole and in order.
pub proof fn the_lists_of_the_network_are_written_whole(j: Json, v: NetworkConfig, i: int)
    requires
        wire::is_network(j, v),
    ensures
        exists|s: Json| #[trigger] value_at(j, "secrets"@, s) && wire::is_secrets(s, v.secrets),
        exists|p: Json, r: Json|
            {
                &&& #[trigger] value_at(j, "policy"@, p)
                &&& #[trigger] value_at(p, "rules"@, r)
                &&& wire::items(r).len() == v.policy.rules@.len()
                &&& 0 <= i < v.policy.rules@.len() ==> wire::is_rule(
                    wire::items(r)[i],
                    v.policy.rules@[i],
                )
            },
        exists|t: Json, a: Json|
            {
                &&& #[trigger] value_at(j, "tls"@, t)
                &&& #[trigger] value_at(t, "intercepted_ports"@, a)
                &&& wire::items(a).len() == v.tls.intercepted_ports@.len()
                &&& 0 <= i < v.tls.intercepted_ports@.len() ==> (wire::items(
                    a,
                )[i] matches Json::Number(n) && n == v.tls.intercepted_ports@[i])
            },
{
    let m = wire::members(j);
    keyed(j);
    assert(wire::keys(j).len() == 8);
    assert(m[5].0@ == "secrets"@);
    assert(value_at(j, "secrets"@, m[5].1));
    let p = m[2].1;
    assert(m[2].0@ == "policy"@);
    assert(value_at(j, "policy"@, p));
    keyed(p);
    assert(wire::keys(p).len() == 3);
    let r = wire::members(p)[2].1;
    assert(wire::members(p)[2].0@ == "rules"@);
    assert(value_at(p, "rules"@, r));
    if 0 <= i < v.policy.rules@.len() {
        assert(wire::is_rule(wire::items(r)[i], v.policy.rules@[i]));
    }
    let t = m[4].1;
    assert(m[4].0@ == "tls"@);
    assert(value_at(j, "tls"@, t));
    keyed(t);
    assert(wire::keys(t).len() == 2);
    let a = wire::members(t)[1].1;
    assert(wire::members(t)[1].0@ == "intercepted_ports"@);
    assert(value_at(t, "intercepted_ports"@, a));
    if 0 <= i < v.tls.intercepted_ports@.len() {
        assert(wire::is_number(wire::items(a)[i], v.tls.intercepted_ports@[i] as int));
    }
}

} // verus!
