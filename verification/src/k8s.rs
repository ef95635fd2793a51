//! The parts of Kubernetes objects that the operator reads and writes.
//!
//! Each object that the operator writes has a view: the same fields, over
//! mathematical types. An absent list or map is an empty one.

use vstd::prelude::*;

use crate::collections;
use crate::collections::StringMap;
use crate::time::Time;

verus! {

/// Identity and bookkeeping of an object.
#[derive(Debug, PartialEq)]
pub struct ObjectMeta {
    pub name: Option<String>,
    pub generate_name: Option<String>,
    pub namespace: Option<String>,
    pub uid: Option<String>,
    pub generation: Option<i64>,
    pub creation_timestamp: Option<Time>,
    pub deletion_timestamp: Option<Time>,
    pub labels: StringMap,
    pub annotations: StringMap,
    pub owner_references: Vec<OwnerReference>,
}

#[verifier::ext_equal]
pub struct ObjectMetaView {
    pub name: Option<Seq<char>>,
    pub generate_name: Option<Seq<char>>,
    pub namespace: Option<Seq<char>>,
    pub uid: Option<Seq<char>>,
    pub generation: Option<i64>,
    pub creation_timestamp: Option<int>,
    pub deletion_timestamp: Option<int>,
    pub labels: Map<Seq<char>, Seq<char>>,
    pub annotations: Map<Seq<char>, Seq<char>>,
    pub owner_references: Seq<OwnerReferenceView>,
}

impl View for ObjectMeta {
    type V = ObjectMetaView;

    open spec fn view(&self) -> ObjectMetaView {
        ObjectMetaView {
            name: collections::opt(self.name),
            generate_name: collections::opt(self.generate_name),
            namespace: collections::opt(self.namespace),
            uid: collections::opt(self.uid),
            generation: self.generation,
            creation_timestamp: collections::opt(self.creation_timestamp),
            deletion_timestamp: collections::opt(self.deletion_timestamp),
            labels: self.labels@,
            annotations: self.annotations@,
            owner_references: collections::views(self.owner_references@),
        }
    }
}

/// Metadata of which nothing is set.
pub open spec fn empty_meta() -> ObjectMetaView {
    ObjectMetaView {
        name: None,
        generate_name: None,
        namespace: None,
        uid: None,
        generation: None,
        creation_timestamp: None,
        deletion_timestamp: None,
        labels: Map::empty(),
        annotations: Map::empty(),
        owner_references: Seq::empty(),
    }
}

impl Default for ObjectMeta {
    fn default() -> (r: Self)
        ensures
            r@ == empty_meta(),
    {
        ObjectMeta {
            name: None,
            generate_name: None,
            namespace: None,
            uid: None,
            generation: None,
            creation_timestamp: None,
            deletion_timestamp: None,
            labels: StringMap::new(),
            annotations: StringMap::new(),
            owner_references: Vec::new(),
        }
    }
}

impl ObjectMeta {
    /// The name of the object, else the prefix of a name to be generated, else
    /// nothing.
    pub open spec fn any_name(self) -> Seq<char> {
        match (self.name, self.generate_name) {
            (Some(n), _) => n@,
            (None, Some(g)) => g@,
            (None, None) => Seq::empty(),
        }
    }

    /// The name of the object, else the prefix of a name to be generated, else
    /// nothing.
    pub fn name_any(&self) -> (out: String)
        ensures
            out@ == self.any_name(),
    {
        match (&self.name, &self.generate_name) {
            (Some(n), _) => n.clone(),
            (None, Some(g)) => g.clone(),
            (None, None) => String::new(),
        }
    }
}

/// A copy of an optional string.
pub fn clone_opt(o: &Option<String>) -> (out: Option<String>)
    ensures
        collections::opt(out) == collections::opt(*o),
{
    match o {
        Some(s) => Some(s.clone()),
        None => None,
    }
}

/// What the API server says of a request that failed.
#[derive(Debug, PartialEq)]
pub struct ApiError {
    /// The HTTP status, where there was a response.
    pub code: Option<u16>,
    pub message: String,
}

/// A reference from an object to the one that owns it.
#[derive(Debug, PartialEq)]
pub struct OwnerReference {
    pub api_version: String,
    pub kind: String,
    pub name: String,
    pub uid: String,
    pub controller: Option<bool>,
}

#[verifier::ext_equal]
pub struct OwnerReferenceView {
    pub api_version: Seq<char>,
    pub kind: Seq<char>,
    pub name: Seq<char>,
    pub uid: Seq<char>,
    pub controller: Option<bool>,
}

impl View for OwnerReference {
    type V = OwnerReferenceView;

    open spec fn view(&self) -> OwnerReferenceView {
        OwnerReferenceView {
            api_version: self.api_version@,
            kind: self.kind@,
            name: self.name@,
            uid: self.uid@,
            controller: self.controller,
        }
    }
}

/// A condition of a status.
#[derive(Debug, PartialEq)]
pub struct Condition {
    pub type_: String,
    pub status: String,
    pub reason: String,
    pub message: String,
    pub last_transition_time: Time,
    pub observed_generation: Option<i64>,
}

#[verifier::ext_equal]
pub struct ConditionView {
    pub type_: Seq<char>,
    pub status: Seq<char>,
    pub reason: Seq<char>,
    pub message: Seq<char>,
    pub last_transition_time: int,
    pub observed_generation: Option<i64>,
}

impl View for Condition {
    type V = ConditionView;

    open spec fn view(&self) -> ConditionView {
        ConditionView {
            type_: self.type_@,
            status: self.status@,
            reason: self.reason@,
            message: self.message@,
            last_transition_time: self.last_transition_time@,
            observed_generation: self.observed_generation,
        }
    }
}

/// A pod: its identity, its specification and what the kubelet reports of it.
#[derive(Debug, PartialEq)]
pub struct Pod {
    pub metadata: ObjectMeta,
    pub spec: Option<PodSpec>,
    pub status: Option<PodStatus>,
}

/// What a pod is to be.
#[derive(Debug, PartialEq)]
pub struct PodSpec {
    pub init_containers: Vec<Container>,
    pub containers: Vec<Container>,
    pub volumes: Vec<Volume>,
    pub security_context: Option<PodSecurityContext>,
    pub restart_policy: Option<String>,
    pub service_account_name: Option<String>,
    pub node_name: Option<String>,
}

#[verifier::ext_equal]
pub struct PodSpecView {
    pub init_containers: Seq<ContainerView>,
    pub containers: Seq<ContainerView>,
    pub volumes: Seq<VolumeView>,
    pub security_context: Option<PodSecurityContextView>,
    pub restart_policy: Option<Seq<char>>,
    pub service_account_name: Option<Seq<char>>,
    pub node_name: Option<Seq<char>>,
}

impl View for PodSpec {
    type V = PodSpecView;

    open spec fn view(&self) -> PodSpecView {
        PodSpecView {
            init_containers: collections::views(self.init_containers@),
            containers: collections::views(self.containers@),
            volumes: collections::views(self.volumes@),
            security_context: collections::opt(self.security_context),
            restart_policy: collections::opt(self.restart_policy),
            service_account_name: collections::opt(self.service_account_name),
            node_name: collections::opt(self.node_name),
        }
    }
}

/// What the kubelet reports of a pod.
#[derive(Debug, PartialEq)]
pub struct PodStatus {
    pub phase: Option<String>,
    pub reason: Option<String>,
    pub container_statuses: Vec<ContainerStatus>,
    pub init_container_statuses: Vec<ContainerStatus>,
}

/// What the kubelet reports of a container.
#[derive(Debug, PartialEq)]
pub struct ContainerStatus {
    pub name: String,
    pub ready: bool,
    /// How the container ended, where it has.
    pub terminated: Option<ContainerStateTerminated>,
}

/// How a container ended.
#[derive(Debug, PartialEq)]
pub struct ContainerStateTerminated {
    pub exit_code: i32,
    pub reason: Option<String>,
}

/// What a pod that the operator applies is: its metadata and its specification.
/// It has no status yet.
#[verifier::ext_equal]
pub struct PodView {
    pub metadata: ObjectMetaView,
    pub spec: Option<PodSpecView>,
    pub has_status: bool,
}

impl View for Pod {
    type V = PodView;

    open spec fn view(&self) -> PodView {
        PodView {
            metadata: self.metadata@,
            spec: collections::opt(self.spec),
            has_status: self.status is Some,
        }
    }
}

/// A container of a pod.
#[derive(Debug, PartialEq)]
pub struct Container {
    pub name: String,
    pub image: Option<String>,
    pub args: Vec<String>,
    pub env: Vec<ContainerEnv>,
    pub ports: Vec<ContainerPort>,
    pub volume_mounts: Vec<VolumeMount>,
    pub resources: Option<ResourceRequirements>,
    pub security_context: Option<SecurityContext>,
    pub restart_policy: Option<String>,
}

#[verifier::ext_equal]
pub struct ContainerView {
    pub name: Seq<char>,
    pub image: Option<Seq<char>>,
    pub args: Seq<Seq<char>>,
    pub env: Seq<(Seq<char>, Option<Seq<char>>)>,
    pub ports: Seq<ContainerPortView>,
    pub volume_mounts: Seq<VolumeMountView>,
    pub resources: Option<ResourceRequirementsView>,
    pub security_context: Option<SecurityContextView>,
    pub restart_policy: Option<Seq<char>>,
}

impl View for Container {
    type V = ContainerView;

    open spec fn view(&self) -> ContainerView {
        ContainerView {
            name: self.name@,
            image: collections::opt(self.image),
            args: collections::views(self.args@),
            env: collections::views(self.env@),
            ports: collections::views(self.ports@),
            volume_mounts: collections::views(self.volume_mounts@),
            resources: collections::opt(self.resources),
            security_context: collections::opt(self.security_context),
            restart_policy: collections::opt(self.restart_policy),
        }
    }
}

/// An environment variable of a container.
#[derive(Debug, PartialEq)]
pub struct ContainerEnv {
    pub name: String,
    /// The value, where it is given in the pod itself.
    pub value: Option<String>,
}

impl View for ContainerEnv {
    type V = (Seq<char>, Option<Seq<char>>);

    open spec fn view(&self) -> (Seq<char>, Option<Seq<char>>) {
        (self.name@, collections::opt(self.value))
    }
}

impl ContainerEnv {
    /// The variable of the given name and value.
    pub fn new(name: &str, value: &str) -> (e: ContainerEnv)
        ensures
            e@ == (name@, Some(value@)),
    {
        ContainerEnv { name: name.to_owned(), value: Some(value.to_owned()) }
    }
}

/// A port of a container.
#[derive(Debug, PartialEq)]
pub struct ContainerPort {
    pub name: Option<String>,
    pub container_port: i32,
    pub protocol: Option<String>,
}

#[verifier::ext_equal]
pub struct ContainerPortView {
    pub name: Option<Seq<char>>,
    pub container_port: i32,
    pub protocol: Option<Seq<char>>,
}

impl View for ContainerPort {
    type V = ContainerPortView;

    open spec fn view(&self) -> ContainerPortView {
        ContainerPortView {
            name: collections::opt(self.name),
            container_port: self.container_port,
            protocol: collections::opt(self.protocol),
        }
    }
}

/// Where a volume appears in a container.
#[derive(Debug, PartialEq)]
pub struct VolumeMount {
    pub name: String,
    pub mount_path: String,
    pub read_only: Option<bool>,
}

#[verifier::ext_equal]
pub struct VolumeMountView {
    pub name: Seq<char>,
    pub mount_path: Seq<char>,
    pub read_only: Option<bool>,
}

impl View for VolumeMount {
    type V = VolumeMountView;

    open spec fn view(&self) -> VolumeMountView {
        VolumeMountView {
            name: self.name@,
            mount_path: self.mount_path@,
            read_only: self.read_only,
        }
    }
}

/// The quantities that a container requests and is limited to, by resource name.
#[derive(Debug, PartialEq)]
pub struct ResourceRequirements {
    pub requests: StringMap,
    pub limits: StringMap,
}

#[verifier::ext_equal]
pub struct ResourceRequirementsView {
    pub requests: Map<Seq<char>, Seq<char>>,
    pub limits: Map<Seq<char>, Seq<char>>,
}

impl View for ResourceRequirements {
    type V = ResourceRequirementsView;

    open spec fn view(&self) -> ResourceRequirementsView {
        ResourceRequirementsView { requests: self.requests@, limits: self.limits@ }
    }
}

/// Privileges of a container.
#[derive(Debug, PartialEq)]
pub struct SecurityContext {
    pub allow_privilege_escalation: Option<bool>,
    pub read_only_root_filesystem: Option<bool>,
    pub capabilities: Option<Capabilities>,
}

#[verifier::ext_equal]
pub struct SecurityContextView {
    pub allow_privilege_escalation: Option<bool>,
    pub read_only_root_filesystem: Option<bool>,
    pub capabilities: Option<CapabilitiesView>,
}

impl View for SecurityContext {
    type V = SecurityContextView;

    open spec fn view(&self) -> SecurityContextView {
        SecurityContextView {
            allow_privilege_escalation: self.allow_privilege_escalation,
            read_only_root_filesystem: self.read_only_root_filesystem,
            capabilities: collections::opt(self.capabilities),
        }
    }
}

/// Capabilities that a container gains and loses.
#[derive(Debug, PartialEq)]
pub struct Capabilities {
    pub add: Vec<String>,
    pub drop: Vec<String>,
}

#[verifier::ext_equal]
pub struct CapabilitiesView {
    pub add: Seq<Seq<char>>,
    pub drop: Seq<Seq<char>>,
}

impl View for Capabilities {
    type V = CapabilitiesView;

    open spec fn view(&self) -> CapabilitiesView {
        CapabilitiesView {
            add: collections::views(self.add@),
            drop: collections::views(self.drop@),
        }
    }
}

/// Privileges of a pod.
#[derive(Debug, PartialEq)]
pub struct PodSecurityContext {
    pub run_as_non_root: Option<bool>,
    pub run_as_user: Option<i64>,
    pub supplemental_groups: Vec<i64>,
    /// The type of the seccomp profile.
    pub seccomp_profile: Option<String>,
}

#[verifier::ext_equal]
pub struct PodSecurityContextView {
    pub run_as_non_root: Option<bool>,
    pub run_as_user: Option<i64>,
    pub supplemental_groups: Seq<i64>,
    pub seccomp_profile: Option<Seq<char>>,
}

impl View for PodSecurityContext {
    type V = PodSecurityContextView;

    open spec fn view(&self) -> PodSecurityContextView {
        PodSecurityContextView {
            run_as_non_root: self.run_as_non_root,
            run_as_user: self.run_as_user,
            supplemental_groups: self.supplemental_groups@,
            seccomp_profile: collections::opt(self.seccomp_profile),
        }
    }
}

/// A volume of a pod.
#[derive(Debug, PartialEq)]
pub struct Volume {
    pub name: String,
    pub source: VolumeSource,
}

#[verifier::ext_equal]
pub struct VolumeView {
    pub name: Seq<char>,
    pub source: VolumeSourceView,
}

impl View for Volume {
    type V = VolumeView;

    open spec fn view(&self) -> VolumeView {
        VolumeView { name: self.name@, source: self.source@ }
    }
}

/// Where the contents of a volume come from.
#[derive(Debug, PartialEq)]
pub enum VolumeSource {
    /// An empty directory of the pod's own.
    EmptyDir,
    /// Keys of a Secret, as files.
    Secret(SecretVolumeSource),
}

#[verifier::ext_equal]
pub enum VolumeSourceView {
    EmptyDir,
    Secret(SecretVolumeSourceView),
}

impl View for VolumeSource {
    type V = VolumeSourceView;

    open spec fn view(&self) -> VolumeSourceView {
        match *self {
            VolumeSource::EmptyDir => VolumeSourceView::EmptyDir,
            VolumeSource::Secret(s) => VolumeSourceView::Secret(s@),
        }
    }
}

/// Keys of a Secret, as files.
#[derive(Debug, PartialEq)]
pub struct SecretVolumeSource {
    pub secret_name: String,
    pub items: Vec<KeyToPath>,
    pub default_mode: Option<i32>,
}

#[verifier::ext_equal]
pub struct SecretVolumeSourceView {
    pub secret_name: Seq<char>,
    pub items: Seq<(Seq<char>, Seq<char>)>,
    pub default_mode: Option<i32>,
}

impl View for SecretVolumeSource {
    type V = SecretVolumeSourceView;

    open spec fn view(&self) -> SecretVolumeSourceView {
        SecretVolumeSourceView {
            secret_name: self.secret_name@,
            items: collections::views(self.items@),
            default_mode: self.default_mode,
        }
    }
}

/// The file that a key of a Secret becomes.
#[derive(Debug, PartialEq)]
pub struct KeyToPath {
    pub key: String,
    pub path: String,
}

impl View for KeyToPath {
    type V = (Seq<char>, Seq<char>);

    open spec fn view(&self) -> (Seq<char>, Seq<char>) {
        (self.key@, self.path@)
    }
}

/// A Service: a stable address for the pods that its selector picks.
#[derive(Debug, PartialEq)]
pub struct Service {
    pub metadata: ObjectMeta,
    pub spec: ServiceSpec,
}

#[verifier::ext_equal]
pub struct ServiceView {
    pub metadata: ObjectMetaView,
    pub spec: ServiceSpecView,
}

impl View for Service {
    type V = ServiceView;

    open spec fn view(&self) -> ServiceView {
        ServiceView { metadata: self.metadata@, spec: self.spec@ }
    }
}

/// What a Service is to be.
#[derive(Debug, PartialEq)]
pub struct ServiceSpec {
    pub type_: Option<String>,
    pub selector: StringMap,
    pub ports: Vec<ServicePort>,
}

#[verifier::ext_equal]
pub struct ServiceSpecView {
    pub type_: Option<Seq<char>>,
    pub selector: Map<Seq<char>, Seq<char>>,
    pub ports: Seq<ServicePortView>,
}

impl View for ServiceSpec {
    type V = ServiceSpecView;

    open spec fn view(&self) -> ServiceSpecView {
        ServiceSpecView {
            type_: collections::opt(self.type_),
            selector: self.selector@,
            ports: collections::views(self.ports@),
        }
    }
}

/// A port of a Service. It leads to the pod's port of number `target_port`.
#[derive(Debug, PartialEq)]
pub struct ServicePort {
    pub name: Option<String>,
    pub port: i32,
    pub target_port: Option<i32>,
    pub protocol: Option<String>,
}

#[verifier::ext_equal]
pub struct ServicePortView {
    pub name: Option<Seq<char>>,
    pub port: i32,
    pub target_port: Option<i32>,
    pub protocol: Option<Seq<char>>,
}

impl View for ServicePort {
    type V = ServicePortView;

    open spec fn view(&self) -> ServicePortView {
        ServicePortView {
            name: collections::opt(self.name),
            port: self.port,
            target_port: self.target_port,
            protocol: collections::opt(self.protocol),
        }
    }
}

} // verus!
