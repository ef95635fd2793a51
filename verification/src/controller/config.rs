//! Settings of the controller, and the sizing of a sandbox's runtime container.

use vstd::prelude::*;

use crate::digest;
use crate::text;

verus! {

/// Longest `MSB_HOME` that keeps the hashed agent socket path inside `sun_path`.
///
/// The socket is `$MSB_HOME/run/agent/<32 hex>.sock`, costing a fixed 48 bytes
/// beyond the home path, and msb requires the total to be under 108 on Linux.
/// Past this limit msb silently falls back to a legacy socket layout, and the
/// bridge, which dials the hashed path, cannot connect.
pub const MSB_HOME_MAX_BYTES: usize = 59;

pub const KVM_RESOURCE: &'static str = "devices.microsandbox.dev/kvm";

pub const SANDBOX_LABEL: &'static str = "microsandbox.dev/sandbox";

pub const SANDBOX_NAME_LABEL: &'static str = "microsandbox.dev/sandbox-name";

pub const FIELD_MANAGER: &'static str = "msb-controller";

/// Memory of the runtime process and the VMM, on top of the guest RAM.
pub const RUNTIME_BASE_OVERHEAD_MIB: u64 = 96;

pub const PER_VCPU_OVERHEAD_MIB: u64 = 8;

/// Shared-CPU allocation ratio: cpu request = vCPUs/ratio.
pub const CPU_ALLOCATION_RATIO: u64 = 10;

pub const EPHEMERAL_STORAGE_MIB: u64 = 50;

/// Overhead added to guest RAM: the process base, the page tables (one bit per
/// 512 bytes of RAM) and per-vCPU structures.
pub open spec fn overhead_mib(guest_mib: int, vcpus: int) -> int {
    RUNTIME_BASE_OVERHEAD_MIB + guest_mib / 512 + PER_VCPU_OVERHEAD_MIB * vcpus
}

/// Overhead added to guest RAM, in MiB.
pub fn memory_overhead_mib(guest_mib: u64, vcpus: u64) -> (out: u64)
    requires
        overhead_mib(guest_mib as int, vcpus as int) <= u64::MAX,
    ensures
        out == overhead_mib(guest_mib as int, vcpus as int),
{
    RUNTIME_BASE_OVERHEAD_MIB + guest_mib / 512 + PER_VCPU_OVERHEAD_MIB * vcpus
}

/// Why a configuration is refused.
#[derive(Debug, PartialEq)]
pub enum ConfigError {
    MsbHomeTooLong { path: String, len: usize },
    MsbHomeNotAbsolute(String),
}

/// What a configuration error says.
pub open spec fn config_error_text(e: ConfigError) -> Seq<char> {
    match e {
        ConfigError::MsbHomeTooLong { path, len } => "msbHome "@ + text::debug_text(path@) + " is "@
            + text::dec(len as nat) + " bytes; must be <= "@ + text::dec(MSB_HOME_MAX_BYTES as nat)
            + " or msb falls back to the legacy agent socket path and the bridge cannot connect"@,
        ConfigError::MsbHomeNotAbsolute(path) => "msbHome "@ + text::debug_text(path@)
            + " must be an absolute path"@,
    }
}

impl ConfigError {
    /// The error in words.
    pub fn message(&self) -> (out: String)
        ensures
            out@ == config_error_text(*self),
    {
        match self {
            ConfigError::MsbHomeTooLong { path, len } => "msbHome ".to_owned().concat(
                text::debug(path.as_str()).as_str(),
            ).concat(" is ").concat(text::decimal(*len as u64).as_str()).concat(
                " bytes; must be <= ",
            ).concat(text::decimal(MSB_HOME_MAX_BYTES as u64).as_str()).concat(
                " or msb falls back to the legacy agent socket path and the bridge cannot connect",
            ),
            ConfigError::MsbHomeNotAbsolute(path) => "msbHome ".to_owned().concat(
                text::debug(path.as_str()).as_str(),
            ).concat(" must be an absolute path"),
        }
    }
}

/// The home of msb: an absolute path, short enough for the agent socket.
#[derive(Debug, PartialEq)]
pub struct MsbHome {
    path: String,
}

impl View for MsbHome {
    type V = Seq<char>;

    closed spec fn view(&self) -> Seq<char> {
        self.path@
    }
}

impl MsbHome {
    #[verifier::type_invariant]
    spec fn wf(self) -> bool {
        valid_home(self.path@)
    }

    /// The home at `path`.
    pub fn new(path: String) -> (r: Result<MsbHome, ConfigError>)
        ensures
            r is Ok <==> valid_home(path@),
            r matches Ok(home) ==> home@ == path@,
            r matches Err(ConfigError::MsbHomeNotAbsolute(p)) ==> p@ == path@,
            r matches Err(ConfigError::MsbHomeTooLong { path: p, len }) ==> p@ == path@ && len
                == digest::utf8(path@).len(),
            r matches Err(e) ==> (e is MsbHomeNotAbsolute <==> !absolute(path@)),
    {
        let text = path.as_str();
        if text.unicode_len() == 0 || text.get_char(0) != '/' {
            return Err(ConfigError::MsbHomeNotAbsolute(path));
        }
        let len: usize = text::byte_len(text);
        if len > MSB_HOME_MAX_BYTES {
            return Err(ConfigError::MsbHomeTooLong { path, len });
        }
        Ok(MsbHome { path })
    }

    /// The path of the home.
    pub fn as_str(&self) -> (out: &str)
        ensures
            out@ == self@,
            valid_home(out@),
    {
        proof {
            use_type_invariant(self);
        }
        self.path.as_str()
    }
}

impl Clone for MsbHome {
    fn clone(&self) -> (r: Self)
        ensures
            r@ == self@,
    {
        proof {
            use_type_invariant(self);
        }
        MsbHome { path: self.path.clone() }
    }
}

/// Node-dependent settings supplied by the Helm chart.
#[derive(Debug, PartialEq)]
pub struct ControllerConfig {
    pub msb_home: MsbHome,
    pub runtime_image: String,
    pub bridge_image: String,
    pub bridge_port: i32,
    /// The bridge's health/control HTTP port; carries both `/healthz` and the
    /// `/control` resize-relay route.
    pub bridge_control_port: i32,
    /// `RUST_LOG` stamped onto the runtime container so its boot is observable.
    pub runtime_log: String,
    /// The group that owns `/dev/kvm` on the nodes, which sandbox pods join.
    pub kvm_gid: Option<i64>,
}

/// What the settings say.
#[verifier::ext_equal]
pub struct ControllerConfigView {
    pub msb_home: Seq<char>,
    pub runtime_image: Seq<char>,
    pub bridge_image: Seq<char>,
    pub bridge_port: i32,
    pub bridge_control_port: i32,
    pub runtime_log: Seq<char>,
    pub kvm_gid: Option<i64>,
}

impl View for ControllerConfig {
    type V = ControllerConfigView;

    open spec fn view(&self) -> ControllerConfigView {
        ControllerConfigView {
            msb_home: self.msb_home@,
            runtime_image: self.runtime_image@,
            bridge_image: self.bridge_image@,
            bridge_port: self.bridge_port,
            bridge_control_port: self.bridge_control_port,
            runtime_log: self.runtime_log@,
            kvm_gid: self.kvm_gid,
        }
    }
}

impl Clone for ControllerConfig {
    fn clone(&self) -> (r: Self)
        ensures
            r@ == adjusted(self@, Adjustment::Copied),
            r@ == self@,
    {
        ControllerConfig {
            msb_home: self.msb_home.clone(),
            runtime_image: self.runtime_image.clone(),
            bridge_image: self.bridge_image.clone(),
            bridge_port: self.bridge_port,
            bridge_control_port: self.bridge_control_port,
            runtime_log: self.runtime_log.clone(),
            kvm_gid: self.kvm_gid,
        }
    }
}

/// The settings for the given home, images and bridge port.
pub open spec fn initial(
    msb_home: Seq<char>,
    runtime_image: Seq<char>,
    bridge_image: Seq<char>,
    bridge_port: i32,
) -> ControllerConfigView {
    ControllerConfigView {
        msb_home,
        runtime_image,
        bridge_image,
        bridge_port,
        bridge_control_port: 8080,
        runtime_log: "info"@,
        kvm_gid: None,
    }
}

/// What can be made of settings, once there are some.
pub enum Adjustment {
    BridgeControlPort(i32),
    RuntimeLog(Seq<char>),
    KvmGid(i64),
    Copied,
}

/// The settings after an adjustment.
pub open spec fn adjusted(cfg: ControllerConfigView, by: Adjustment) -> ControllerConfigView {
    match by {
        Adjustment::BridgeControlPort(port) => ControllerConfigView {
            bridge_control_port: port,
            ..cfg
        },
        Adjustment::RuntimeLog(level) => ControllerConfigView { runtime_log: level, ..cfg },
        Adjustment::KvmGid(gid) => ControllerConfigView { kvm_gid: Some(gid), ..cfg },
        Adjustment::Copied => cfg,
    }
}

/// The settings after any number of adjustments.
pub open spec fn all_adjusted(
    cfg: ControllerConfigView,
    by: Seq<Adjustment>,
) -> ControllerConfigView
    decreases by.len(),
{
    if by.len() == 0 {
        cfg
    } else {
        adjusted(all_adjusted(cfg, by.drop_last()), by.last())
    }
}

/// The home that settings were made with stays theirs, and every copy's, whatever is
/// adjusted; so it stays valid.
pub proof fn the_home_is_kept(cfg: ControllerConfigView, by: Seq<Adjustment>)
    ensures
        all_adjusted(cfg, by).msb_home == cfg.msb_home,
        valid_home(cfg.msb_home) ==> valid_home(all_adjusted(cfg, by).msb_home),
    decreases by.len(),
{
    if by.len() > 0 {
        the_home_is_kept(cfg, by.drop_last());
    }
}

/// Whether `path` is absolute.
pub open spec fn absolute(path: Seq<char>) -> bool {
    path.len() > 0 && path[0] == '/'
}

/// Whether `home` can be the home of msb: an absolute path, short enough for the
/// agent socket.
pub open spec fn valid_home(home: Seq<char>) -> bool {
    &&& absolute(home)
    &&& digest::utf8(home).len() <= MSB_HOME_MAX_BYTES
}

impl ControllerConfig {
    /// The settings for the given home, images and bridge port, with the defaults
    /// of the others. The home must be an absolute path of at most
    /// [`MSB_HOME_MAX_BYTES`].
    pub fn new(
        msb_home: String,
        runtime_image: String,
        bridge_image: String,
        bridge_port: i32,
    ) -> (r: Result<ControllerConfig, ConfigError>)
        ensures
            r is Ok <==> valid_home(msb_home@),
            r matches Ok(cfg) ==> cfg@ == initial(
                msb_home@,
                runtime_image@,
                bridge_image@,
                bridge_port,
            ),
            r matches Ok(cfg) ==> {
                &&& cfg.msb_home@ == msb_home@
                &&& cfg.runtime_image@ == runtime_image@
                &&& cfg.bridge_image@ == bridge_image@
                &&& cfg.bridge_port == bridge_port
                &&& cfg.bridge_control_port == 8080
                &&& cfg.runtime_log@ == "info"@
                &&& cfg.kvm_gid is None
            },
            r matches Err(ConfigError::MsbHomeNotAbsolute(p)) ==> p@ == msb_home@,
            r matches Err(ConfigError::MsbHomeTooLong { path: p, len }) ==> p@ == msb_home@ && len
                == digest::utf8(msb_home@).len(),
            r matches Err(e) ==> (e is MsbHomeNotAbsolute <==> !absolute(msb_home@)),
    {
        match MsbHome::new(msb_home) {
            Ok(home) => Ok(
                ControllerConfig {
                    msb_home: home,
                    runtime_image,
                    bridge_image,
                    bridge_port,
                    bridge_control_port: 8080,
                    runtime_log: "info".to_owned(),
                    kvm_gid: None,
                },
            ),
            Err(e) => Err(e),
        }
    }

    /// Sets the bridge's health/control HTTP port. Defaults to 8080, matching
    /// the bridge's own `MSB_BRIDGE_HEALTH_PORT` default.
    pub fn with_bridge_control_port(self, port: i32) -> (cfg: ControllerConfig)
        ensures
            cfg == (ControllerConfig { bridge_control_port: port, ..self }),
            cfg@ == adjusted(self@, Adjustment::BridgeControlPort(port)),
    {
        ControllerConfig { bridge_control_port: port, ..self }
    }

    /// Sets the `RUST_LOG` the runtime container runs with.
    pub fn with_runtime_log(self, level: String) -> (cfg: ControllerConfig)
        ensures
            cfg == (ControllerConfig { runtime_log: level, ..self }),
            cfg@ == adjusted(self@, Adjustment::RuntimeLog(level@)),
    {
        ControllerConfig { runtime_log: level, ..self }
    }

    /// Sets the group that owns `/dev/kvm` on the nodes.
    pub fn with_kvm_gid(self, gid: i64) -> (cfg: ControllerConfig)
        ensures
            cfg == (ControllerConfig { kvm_gid: Some(gid), ..self }),
            cfg@ == adjusted(self@, Adjustment::KvmGid(gid)),
    {
        ControllerConfig { kvm_gid: Some(gid), ..self }
    }

    /// The home of msb. Validated at construction, so it cannot be past
    /// [`MSB_HOME_MAX_BYTES`].
    pub fn msb_home(&self) -> (out: &str)
        ensures
            out@ == self.msb_home@,
            valid_home(out@),
    {
        self.msb_home.as_str()
    }

    /// What a log line says of the settings.
    pub fn describe(&self) -> (out: String)
        ensures
            out@ == "msb_home="@ + self.msb_home@,
    {
        "msb_home=".to_owned().concat(self.msb_home.as_str())
    }
}

/// A home is taken up to the 59 bytes that leave room for the agent socket, and where it
/// is absolute.
pub proof fn a_home_leaves_room_for_the_socket(home: Seq<char>)
    ensures
        valid_home(home) <==> home.len() > 0 && home[0] == '/' && digest::utf8(home).len() < 60,
{
}

} // verus!
