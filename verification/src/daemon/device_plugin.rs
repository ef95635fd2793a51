//! The KVM device plugin: what it offers the kubelet, and what it injects into a
//! container that gets a device.

use vstd::prelude::*;

use crate::collections;
use crate::controller::config::KVM_RESOURCE;
use crate::paths;
use crate::text;

verus! {

/// The resource that the plugin offers: the one that sandbox pods ask for.
pub const RESOURCE_NAME: &'static str = KVM_RESOURCE;

/// Where a sandbox finds the image cache, so that the absolute paths baked into the
/// cached disks resolve.
pub const CACHE_MOUNT: &'static str = "/msb/cache";

pub const API_VERSION: &'static str = "v1beta1";

pub const KUBELET_SOCKET: &'static str = "/var/lib/kubelet/device-plugins/kubelet.sock";

pub const PLUGIN_SOCKET_NAME: &'static str = "msb-kvm.sock";

pub const PLUGIN_DIR: &'static str = "/var/lib/kubelet/device-plugins";

pub const KVM_DEVICE: &'static str = "/dev/kvm";

pub const HEALTHY: &'static str = "Healthy";

pub const UNHEALTHY: &'static str = "Unhealthy";

/// How many sandboxes a node can hold.
pub const POOL_SIZE: usize = 1000;

/// Pause before the plugin registers anew with a kubelet that restarted, in
/// seconds.
pub const REREGISTER_SECS: u64 = 5;

/// A device that the plugin offers.
#[derive(Debug, PartialEq)]
pub struct Device {
    pub id: String,
    pub health: String,
}

impl View for Device {
    type V = (Seq<char>, Seq<char>);

    open spec fn view(&self) -> (Seq<char>, Seq<char>) {
        (self.id@, self.health@)
    }
}

/// The id of the device at this place in the pool.
pub open spec fn device_id(i: int) -> Seq<char> {
    "kvm-"@ + text::dec(i as nat)
}

/// The pool: every device of the same health.
pub open spec fn pool(healthy: bool) -> Seq<(Seq<char>, Seq<char>)> {
    Seq::new(
        POOL_SIZE as nat,
        |i: int|
            (
                device_id(i),
                if healthy {
                    HEALTHY@
                } else {
                    UNHEALTHY@
                },
            ),
    )
}

/// The devices that the plugin offers.
pub fn build_device_list(healthy: bool) -> (out: Vec<Device>)
    ensures
        collections::views(out@) == pool(healthy),
        out.len() == POOL_SIZE,
{
    let health = if healthy {
        HEALTHY
    } else {
        UNHEALTHY
    };
    let mut out: Vec<Device> = Vec::new();
    let ghost all = pool(healthy);
    let mut i: usize = 0;
    assert(collections::views(out@) =~= all.take(0));
    while i < POOL_SIZE
        invariant
            i <= POOL_SIZE,
            all == pool(healthy),
            health@ == (if healthy {
                HEALTHY@
            } else {
                UNHEALTHY@
            }),
            out.len() == i,
            collections::views(out@) == all.take(i as int),
        decreases POOL_SIZE - i,
    {
        let ghost before = out@;
        out.push(
            Device {
                id: "kvm-".to_owned().concat(text::decimal(i as u64).as_str()),
                health: health.to_owned(),
            },
        );
        proof {
            collections::grown(before, out@, all);
        }
        i = i + 1;
    }
    assert(all.take(i as int) =~= all);
    out
}

/// No two devices of the pool have the same id.
pub proof fn pool_ids_are_distinct(healthy: bool, i: int, j: int)
    requires
        0 <= i < j < pool(healthy).len(),
    ensures
        pool(healthy)[i].0 != pool(healthy)[j].0,
{
    let a = device_id(i);
    let b = device_id(j);
    if a == b {
        assert(a.skip("kvm-"@.len() as int) =~= text::dec(i as nat));
        assert(b.skip("kvm-"@.len() as int) =~= text::dec(j as nat));
        text::dec_injective(i as nat, j as nat);
    }
}

/// A device node that a container gets.
#[derive(Debug, PartialEq)]
pub struct DeviceSpec {
    pub host_path: String,
    pub container_path: String,
    pub permissions: String,
}

/// A directory that a container gets.
#[derive(Debug, PartialEq)]
pub struct Mount {
    pub host_path: String,
    pub container_path: String,
    pub read_only: bool,
}

/// What a container gets with its device.
#[derive(Debug, PartialEq)]
pub struct ContainerAllocateResponse {
    pub devices: Vec<DeviceSpec>,
    pub mounts: Vec<Mount>,
}

/// What a container gets with its device: the KVM device node, and the image cache,
/// read-only.
pub open spec fn grants(r: ContainerAllocateResponse, cache_host_path: Seq<char>) -> bool {
    &&& r.devices@.len() == 1
    &&& r.devices@[0].host_path@ == KVM_DEVICE@
    &&& r.devices@[0].container_path@ == KVM_DEVICE@
    &&& r.devices@[0].permissions@ == "rw"@
    &&& r.mounts@.len() == 1
    &&& r.mounts@[0].host_path@ == cache_host_path
    &&& r.mounts@[0].container_path@ == CACHE_MOUNT@
    &&& r.mounts@[0].read_only
}

/// What each of `containers` containers gets with its device. The cache is injected
/// by the kubelet, so it never appears in the pod.
pub fn allocate(containers: usize, cache_host_path: &str) -> (out: Vec<ContainerAllocateResponse>)
    ensures
        out.len() == containers,
        forall|i: int| 0 <= i < out.len() ==> grants(#[trigger] out@[i], cache_host_path@),
{
    let mut out: Vec<ContainerAllocateResponse> = Vec::new();
    let mut i: usize = 0;
    while i < containers
        invariant
            i <= containers,
            out.len() == i,
            forall|k: int| 0 <= k < i ==> grants(#[trigger] out@[k], cache_host_path@),
        decreases containers - i,
    {
        let mut devices: Vec<DeviceSpec> = Vec::new();
        devices.push(
            DeviceSpec {
                host_path: KVM_DEVICE.to_owned(),
                container_path: KVM_DEVICE.to_owned(),
                permissions: "rw".to_owned(),
            },
        );
        let mut mounts: Vec<Mount> = Vec::new();
        mounts.push(
            Mount {
                host_path: cache_host_path.to_owned(),
                container_path: CACHE_MOUNT.to_owned(),
                read_only: true,
            },
        );
        out.push(ContainerAllocateResponse { devices, mounts });
        i = i + 1;
    }
    out
}

/// How the plugin registers with the kubelet.
#[derive(Debug, PartialEq)]
pub struct RegisterRequest {
    pub version: String,
    pub endpoint: String,
    pub resource_name: String,
    pub pre_start_required: bool,
    pub get_preferred_allocation_available: bool,
}

/// How the plugin registers with the kubelet: at the socket of this name, for the
/// KVM resource, with no options.
pub fn register_request(socket_name: &str) -> (r: RegisterRequest)
    ensures
        r.version@ == API_VERSION@,
        r.endpoint@ == socket_name@,
        r.resource_name@ == RESOURCE_NAME@,
        !r.pre_start_required,
        !r.get_preferred_allocation_available,
{
    RegisterRequest {
        version: API_VERSION.to_owned(),
        endpoint: socket_name.to_owned(),
        resource_name: RESOURCE_NAME.to_owned(),
        pre_start_required: false,
        get_preferred_allocation_available: false,
    }
}

/// The plugin offers the resource that sandbox pods ask for.
pub proof fn offers_what_pods_request()
    ensures
        RESOURCE_NAME@ == KVM_RESOURCE@,
{
}

/// The socket that the plugin serves on.
pub fn plugin_socket() -> (out: String)
    ensures
        out@ == paths::joined(PLUGIN_DIR@, PLUGIN_SOCKET_NAME@),
{
    paths::join(PLUGIN_DIR, PLUGIN_SOCKET_NAME)
}

/// A container that has a device gets the KVM device node at the path that it has on the
/// node, and the cache where the guest's disks are looked for, which it cannot change.
pub proof fn a_container_gets_the_device_and_the_cache(
    r: ContainerAllocateResponse,
    cache_host_path: Seq<char>,
)
    requires
        grants(r, cache_host_path),
    ensures
        r.devices@.len() == 1 && r.mounts@.len() == 1,
        r.devices@[0].host_path@ == "/dev/kvm"@,
        r.devices@[0].host_path@ == r.devices@[0].container_path@,
        r.devices@[0].permissions@ == "rw"@,
        r.mounts@[0].host_path@ == cache_host_path,
        r.mounts@[0].container_path@ == "/msb/cache"@,
        r.mounts@[0].read_only,
{
}

} // verus!
