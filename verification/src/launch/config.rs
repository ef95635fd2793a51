//! The launch configuration that msb reads. It has no defaults on msb's side, so
//! every field is always there.

use vstd::prelude::*;

use crate::bridge::socket;
use crate::collections;
use crate::launch::network;
use crate::launch::network::{network_from_spec, NetworkConfig, SecretEntry};
use crate::paths;
use crate::sandbox::SandboxSpec;

verus! {

pub const DB_CONNECT_TIMEOUT_SECS: u64 = 10;

/// One sandbox per pod, so the slot is always 0.
pub const SANDBOX_SLOT: u64 = 0;

#[derive(PartialEq)]
pub struct LaunchConfig {
    pub db_path: String,
    pub db_connect_timeout_secs: u64,
    pub log_dir: String,
    pub runtime_dir: String,
    pub sandboxes_dir: String,
    pub agent_sock: String,
    pub libkrunfw_path: String,
    pub startup: Option<StartupCommand>,
    pub lifecycle: Lifecycle,
    pub metrics: MetricsConfig,
    pub rootfs: RootfsConfig,
    /// `tag:host_path[:opts]`
    pub mounts: Vec<String>,
    /// `id:host_path:format[:ro]`
    pub disks: Vec<String>,
    pub init_path: Option<String>,
    /// `KEY=VALUE`
    pub env: Vec<String>,
    pub workdir: Option<String>,
    pub exec_path: Option<String>,
    pub exec_args: Vec<String>,
    pub network: Option<NetworkConfig>,
    pub sandbox_slot: u64,
}

#[derive(Clone, Copy, Debug, PartialEq, Eq, Structural)]
pub struct Lifecycle {
    pub max_duration_secs: Option<u64>,
    pub idle_timeout_secs: Option<u64>,
}

#[derive(Debug, PartialEq)]
pub struct MetricsConfig {
    pub sample_interval_ms: u64,
    pub disabled: bool,
    pub slot: Option<MetricsSlotHandoff>,
}

#[derive(Debug, PartialEq)]
pub struct MetricsSlotHandoff {
    pub shm_name: String,
    pub slot: u32,
    pub generation: u64,
}

#[derive(Debug, PartialEq)]
pub struct RootfsConfig {
    pub path: Option<String>,
    pub disk: Option<String>,
    pub disk_format: Option<String>,
    pub disk_readonly: bool,
    pub upper: Option<String>,
}

#[derive(Debug, PartialEq)]
pub struct StartupCommand {
    pub cmd: String,
    pub args: Vec<String>,
    pub env: Vec<String>,
    pub cwd: Option<String>,
    pub user: Option<String>,
}

/// Hex of the first 16 bytes of the digest of `name`: the base name of msb's agent
/// socket.
pub fn agent_socket_hash(name: &str) -> (out: String)
    ensures
        out@ == socket::socket_hash(name@),
        out@.len() == 32,
{
    socket::short_hash(name)
}

/// Where the state of a sandbox is.
pub open spec fn sandbox_dir(msb_home: Seq<char>, name: Seq<char>) -> Seq<char> {
    paths::joined(paths::joined(msb_home, "sandboxes"@), name)
}

/// Whether a launch configuration boots `spec` under the given name: from the
/// read-only disk, with a writable layer of its own, with the first word of the
/// command as the program and the rest as its arguments.
pub open spec fn launches(
    cfg: LaunchConfig,
    spec: SandboxSpec,
    msb_home: Seq<char>,
    name: Seq<char>,
    rootfs_vmdk: Seq<char>,
    libkrunfw_path: Seq<char>,
    secrets: Seq<SecretEntry>,
) -> bool {
    let dir = sandbox_dir(msb_home, name);
    &&& cfg.db_path@ == paths::joined(paths::joined(msb_home, "db"@), "msb.db"@)
    &&& cfg.db_connect_timeout_secs == DB_CONNECT_TIMEOUT_SECS
    &&& cfg.log_dir@ == paths::joined(dir, "logs"@)
    &&& cfg.runtime_dir@ == paths::joined(dir, "runtime"@)
    &&& cfg.sandboxes_dir@ == paths::joined(msb_home, "sandboxes"@)
    &&& cfg.agent_sock@ == socket::agent_socket(msb_home, name)
    &&& cfg.libkrunfw_path@ == libkrunfw_path
    &&& cfg.startup is None
    &&& cfg.lifecycle == (Lifecycle { max_duration_secs: None, idle_timeout_secs: None })
    &&& cfg.metrics.sample_interval_ms == 0
    &&& !cfg.metrics.disabled
    &&& cfg.metrics.slot is None
    &&& cfg.rootfs.path is None
    &&& collections::opt(cfg.rootfs.disk) == Some(rootfs_vmdk)
    &&& collections::opt(cfg.rootfs.disk_format) == Some("vmdk"@)
    &&& !cfg.rootfs.disk_readonly
    &&& collections::opt(cfg.rootfs.upper) == Some(paths::joined(dir, "upper.ext4"@))
    &&& cfg.mounts@.len() == 0
    &&& cfg.disks@.len() == 0
    &&& cfg.init_path is None
    &&& cfg.env@.len() == 0
    &&& cfg.workdir is None
    &&& collections::opt(cfg.exec_path) == (if spec.cmd@.len() > 0 {
        Some(spec.cmd@[0]@)
    } else {
        None
    })
    &&& collections::views(cfg.exec_args@) == (if spec.cmd@.len() > 0 {
        collections::views(spec.cmd@).skip(1)
    } else {
        Seq::empty()
    })
    &&& cfg.network is Some
    &&& network::network_matches(cfg.network->0, spec, secrets)
    &&& cfg.sandbox_slot == SANDBOX_SLOT
}

/// All words of a command but the first.
fn arguments(cmd: &Vec<String>) -> (out: Vec<String>)
    requires
        cmd@.len() > 0,
    ensures
        collections::views(out@) == collections::views(cmd@).skip(1),
{
    let mut out: Vec<String> = Vec::new();
    let ghost all = collections::views(cmd@).skip(1);
    let mut i: usize = 1;
    assert(collections::views(out@) =~= all.take(0));
    while i < cmd.len()
        invariant
            1 <= i <= cmd.len(),
            all == collections::views(cmd@).skip(1),
            out.len() == i - 1,
            collections::views(out@) == all.take(i - 1),
        decreases cmd.len() - i,
    {
        let ghost before = out@;
        out.push(cmd[i].clone());
        proof {
            collections::grown(before, out@, all);
        }
        i = i + 1;
    }
    assert(all.take(i - 1) =~= all);
    out
}

/// Builds the launch configuration. The secrets arrive already resolved and the disk
/// already made.
pub fn build(
    spec: &SandboxSpec,
    msb_home: &str,
    sandbox_name: &str,
    rootfs_vmdk: String,
    libkrunfw_path: String,
    secrets: Vec<SecretEntry>,
) -> (cfg: LaunchConfig)
    ensures
        launches(
            cfg,
            *spec,
            msb_home@,
            sandbox_name@,
            rootfs_vmdk@,
            libkrunfw_path@,
            secrets@,
        ),
{
    let sandboxes_dir = paths::join(msb_home, "sandboxes");
    let dir = paths::join(sandboxes_dir.as_str(), sandbox_name);
    let run = paths::join(msb_home, "run");
    let agent = paths::join(run.as_str(), "agent");
    let agent_sock = paths::join(
        agent.as_str(),
        agent_socket_hash(sandbox_name).concat(".sock").as_str(),
    );
    let (exec_path, exec_args) = if spec.cmd.len() > 0 {
        (Some(spec.cmd[0].clone()), arguments(&spec.cmd))
    } else {
        let none: Vec<String> = Vec::new();
        assert(collections::views(none@) =~= Seq::empty());
        (None, none)
    };
    let db = paths::join(msb_home, "db");
    LaunchConfig {
        db_path: paths::join(db.as_str(), "msb.db"),
        db_connect_timeout_secs: DB_CONNECT_TIMEOUT_SECS,
        log_dir: paths::join(dir.as_str(), "logs"),
        runtime_dir: paths::join(dir.as_str(), "runtime"),
        sandboxes_dir,
        agent_sock,
        libkrunfw_path,
        startup: None,
        lifecycle: Lifecycle { max_duration_secs: None, idle_timeout_secs: None },
        metrics: MetricsConfig { sample_interval_ms: 0, disabled: false, slot: None },
        rootfs: RootfsConfig {
            path: None,
            disk: Some(rootfs_vmdk),
            disk_format: Some("vmdk".to_owned()),
            disk_readonly: false,
            upper: Some(paths::join(dir.as_str(), "upper.ext4")),
        },
        mounts: Vec::new(),
        disks: Vec::new(),
        init_path: None,
        env: Vec::new(),
        workdir: None,
        exec_path,
        exec_args,
        network: Some(network_from_spec(spec, secrets)),
        sandbox_slot: SANDBOX_SLOT,
    }
}

/// The bridge dials the socket that the launch configuration names: for any home and
/// any sandbox, whatever else the configuration says.
pub proof fn bridge_dials_the_launched_socket(
    cfg: LaunchConfig,
    spec: SandboxSpec,
    msb_home: Seq<char>,
    name: Seq<char>,
    rootfs_vmdk: Seq<char>,
    libkrunfw_path: Seq<char>,
    secrets: Seq<SecretEntry>,
)
    requires
        launches(cfg, spec, msb_home, name, rootfs_vmdk, libkrunfw_path, secrets),
    ensures
        cfg.agent_sock@ == socket::agent_socket(msb_home, name),
{
}

} // verus!
