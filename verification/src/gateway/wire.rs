//! What cloud clients send and receive.

use vstd::prelude::*;

use crate::collections::StringMap;
use crate::time::WireTime;

verus! {

/// A request to create a sandbox.
#[derive(Debug, PartialEq)]
pub struct CloudCreateSandboxRequest {
    pub name: String,
    pub image: CloudRootfsSource,
    pub resources: CloudSandboxResources,
    pub runtime: CloudSandboxRuntimeOptions,
    pub env: Vec<CloudEnvVar>,
    pub labels: StringMap,
    pub rlimits: Vec<CloudRlimit>,
    pub security_profile: WireSecurityProfile,
    pub lifecycle: SandboxPolicy,
}

/// Where the root file system comes from.
#[derive(Debug, PartialEq)]
pub enum CloudRootfsSource {
    /// A directory of the host.
    Bind,
    /// An OCI image.
    Oci { reference: String },
    /// A disk image file of the host.
    DiskImage,
}

#[derive(Clone, Copy, Debug, PartialEq, Eq, Structural)]
pub struct CloudSandboxResources {
    pub vcpus: u8,
    pub memory_mib: u32,
}

#[derive(Debug, PartialEq)]
pub struct CloudSandboxRuntimeOptions {
    pub workdir: Option<String>,
    pub shell: Option<String>,
    /// Named in-guest scripts.
    pub scripts: StringMap,
    pub entrypoint: Option<Vec<String>>,
    pub cmd: Option<Vec<String>>,
    pub user: Option<String>,
    pub log_level: Option<SandboxLogLevel>,
}

#[derive(Clone, Copy, Debug, PartialEq, Eq, Structural)]
pub enum SandboxLogLevel {
    Error,
    Warn,
    Info,
    Debug,
    Trace,
}

/// How the wire writes a log level.
pub open spec fn level_name(level: SandboxLogLevel) -> Seq<char> {
    match level {
        SandboxLogLevel::Error => "error"@,
        SandboxLogLevel::Warn => "warn"@,
        SandboxLogLevel::Info => "info"@,
        SandboxLogLevel::Debug => "debug"@,
        SandboxLogLevel::Trace => "trace"@,
    }
}

impl SandboxLogLevel {
    /// How the wire writes the level.
    pub fn name(&self) -> (s: &'static str)
        ensures
            s@ == level_name(*self),
    {
        match self {
            SandboxLogLevel::Error => "error",
            SandboxLogLevel::Warn => "warn",
            SandboxLogLevel::Info => "info",
            SandboxLogLevel::Debug => "debug",
            SandboxLogLevel::Trace => "trace",
        }
    }
}

#[derive(Debug, PartialEq)]
pub struct CloudEnvVar {
    pub key: String,
    pub value: String,
}

#[derive(Clone, Copy, Debug, PartialEq, Eq, Structural)]
pub struct CloudRlimit {
    pub resource: CloudRlimitResource,
    pub soft: u64,
    pub hard: u64,
}

#[derive(Clone, Copy, Debug, PartialEq, Eq, Structural)]
pub enum CloudRlimitResource {
    Cpu,
    Fsize,
    Data,
    Stack,
    Core,
    Rss,
    Nproc,
    Nofile,
    Memlock,
    As,
    Locks,
    Sigpending,
    Msgqueue,
    Nice,
    Rtprio,
    Rttime,
}

#[derive(Clone, Copy, Debug, PartialEq, Eq, Structural)]
pub enum WireSecurityProfile {
    Default,
    Restricted,
}

#[derive(Clone, Copy, Debug, PartialEq, Eq, Structural)]
pub struct SandboxPolicy {
    pub ephemeral: bool,
    pub max_duration_secs: Option<u64>,
    pub idle_timeout_secs: Option<u64>,
}

/// What a client is told of a sandbox.
#[derive(Debug, PartialEq)]
pub struct CloudCreateSandboxResponse {
    pub id: String,
    pub org_id: String,
    pub name: String,
    pub slug: String,
    pub status: CloudSandboxStatus,
    /// The specification as the server resolved it, as JSON.
    pub spec: Option<String>,
    pub ephemeral: bool,
    pub created_at: WireTime,
    pub started_at: Option<WireTime>,
    pub stopped_at: Option<WireTime>,
    pub last_failure_message: Option<String>,
}

#[derive(Clone, Copy, Debug, PartialEq, Eq, Structural)]
pub enum CloudSandboxStatus {
    Created,
    Starting,
    Running,
    Stopping,
    Stopped,
    Failed,
}

} // verus!
