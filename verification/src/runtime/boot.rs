//! Booting a sandbox, and the status that its container exits with.

use vstd::prelude::*;

use crate::collections;
use crate::gateway::convert;
use crate::gateway::wire::CloudCreateSandboxRequest;
use crate::runtime::net;
use crate::runtime::net::NetworkPlan;
use crate::runtime::quantity;
use crate::runtime::quantity::{quantity_to_mib, Quantity, QuantityError, QuantityErrorView};
use crate::sandbox;
use crate::sandbox::{EnvVar, ResolvedSecret, Rlimit, SandboxSpec, SecurityProfile};
use crate::text;

verus! {

/// All that the runtime sets up of a sandbox. What is not set is left to msb.
#[derive(PartialEq)]
pub struct BootPlan {
    /// The image by its reference: the boot never pulls, so it must be in the cache.
    pub image: String,
    pub cpus: u8,
    pub memory: u32,
    /// The vCPUs that the VMM reserves slots for.
    pub max_cpus: u8,
    /// The memory that the VMM reserves a hotplug region for, in MiB.
    pub max_memory: u32,
    /// The capacity of the guest's writable layer.
    pub root_disk: Quantity,
    pub entrypoint: Option<Vec<String>>,
    /// Launched in the background: the sandbox stops when the command exits.
    pub background_command: Option<Vec<String>>,
    pub env: Vec<EnvVar>,
    pub workdir: Option<String>,
    pub shell: Option<String>,
    pub user: Option<String>,
    pub hostname: Option<String>,
    pub max_duration_secs: Option<u64>,
    pub idle_timeout_secs: Option<u64>,
    /// The hardening of exec sessions.
    pub security_profile: SecurityProfile,
    /// The limits of guest processes.
    pub rlimits: Vec<Rlimit>,
    pub network: NetworkPlan,
}

/// Why a sandbox cannot be booted.
#[derive(Debug, PartialEq)]
pub enum BootError {
    /// A microVM has no more than 255 vCPUs.
    TooManyCpus(u32),
    Disk(QuantityError),
}

#[verifier::ext_equal]
pub enum BootErrorView {
    TooManyCpus(u32),
    Disk(QuantityErrorView),
}

impl View for BootError {
    type V = BootErrorView;

    open spec fn view(&self) -> BootErrorView {
        match *self {
            BootError::TooManyCpus(n) => BootErrorView::TooManyCpus(n),
            BootError::Disk(e) => BootErrorView::Disk(e@),
        }
    }
}

/// What an error says.
pub open spec fn boot_error_text(e: BootErrorView) -> Seq<char> {
    match e {
        BootErrorView::TooManyCpus(n) => text::dec(n as nat)
            + " vCPUs are more than a microVM can have (255)"@,
        BootErrorView::Disk(q) => quantity::quantity_error_text(q),
    }
}

impl BootError {
    /// The error in words.
    pub fn message(&self) -> (out: String)
        ensures
            out@ == boot_error_text(self@),
    {
        match self {
            BootError::TooManyCpus(n) => text::decimal(*n as u64).concat(
                " vCPUs are more than a microVM can have (255)",
            ),
            BootError::Disk(q) => q.message(),
        }
    }
}

/// A list of words, where there are any.
pub open spec fn words(v: Seq<String>) -> Option<Seq<Seq<char>>> {
    if v.len() == 0 {
        None
    } else {
        Some(collections::views(v))
    }
}

/// The words of an optional list.
pub open spec fn optional_words(o: Option<Vec<String>>) -> Option<Seq<Seq<char>>> {
    match o {
        Some(v) => Some(collections::views(v@)),
        None => None,
    }
}

/// Why what a specification asks for cannot be booted: its vCPUs, then their ceiling,
/// are too many, or its disk size cannot be read.
pub open spec fn boot_refusal(spec: SandboxSpec) -> Option<BootErrorView> {
    let max = sandbox::ceiling(spec.max_cpus, spec.cpus);
    if spec.cpus > 255 {
        Some(BootErrorView::TooManyCpus(spec.cpus))
    } else if max > 255 {
        Some(BootErrorView::TooManyCpus(max))
    } else {
        match quantity::quantity_outcome(text::trimmed(spec.upper.size.0@)) {
            Err(e) => Some(BootErrorView::Disk(e)),
            Ok(_) => None,
        }
    }
}

/// Whether a plan boots what a specification asks for.
pub open spec fn boots(plan: BootPlan, spec: SandboxSpec, secrets: Seq<ResolvedSecret>) -> bool {
    &&& plan.image@ == spec.image@
    &&& plan.cpus == spec.cpus
    &&& plan.memory == spec.memory
    &&& plan.max_cpus == sandbox::ceiling(spec.max_cpus, spec.cpus)
    &&& plan.max_memory == sandbox::ceiling(spec.max_memory, spec.memory)
    &&& Ok::<_, quantity::QuantityErrorView>(plan.root_disk@) == quantity::quantity_outcome(
        text::trimmed(spec.upper.size.0@),
    )
    &&& optional_words(plan.entrypoint) == words(spec.entrypoint@)
    &&& optional_words(plan.background_command) == words(spec.cmd@)
    &&& collections::views(plan.env@) == collections::views(spec.env@)
    &&& collections::opt(plan.workdir) == collections::opt(spec.workdir)
    &&& collections::opt(plan.shell) == collections::opt(spec.shell)
    &&& collections::opt(plan.user) == collections::opt(spec.user)
    &&& collections::opt(plan.hostname) == collections::opt(spec.hostname)
    &&& plan.max_duration_secs == spec.max_duration_secs
    &&& plan.idle_timeout_secs == spec.idle_timeout_secs
    &&& plan.security_profile == spec.security_profile
    &&& plan.rlimits@ == spec.rlimits@
    &&& net::plan_matches(plan.network, spec, secrets)
}

fn some_words(v: &Vec<String>) -> (r: Option<Vec<String>>)
    ensures
        optional_words(r) == words(v@),
{
    if v.len() == 0 {
        None
    } else {
        Some(collections::clone_strings(v))
    }
}

fn clone_env(v: &Vec<EnvVar>) -> (out: Vec<EnvVar>)
    ensures
        collections::views(out@) == collections::views(v@),
{
    let mut out: Vec<EnvVar> = Vec::new();
    let ghost all = collections::views(v@);
    let mut i: usize = 0;
    assert(collections::views(out@) =~= all.take(0));
    while i < v.len()
        invariant
            i <= v.len(),
            all == collections::views(v@),
            out.len() == i,
            collections::views(out@) == all.take(i as int),
        decreases v.len() - i,
    {
        let ghost before = out@;
        out.push(EnvVar { name: v[i].name.clone(), value: v[i].value.clone() });
        proof {
            collections::grown(before, out@, all);
        }
        i = i + 1;
    }
    assert(all.take(i as int) =~= all);
    out
}

fn copy_rlimits(v: &Vec<Rlimit>) -> (out: Vec<Rlimit>)
    ensures
        out@ == v@,
{
    let mut out: Vec<Rlimit> = Vec::new();
    let mut i: usize = 0;
    while i < v.len()
        invariant
            i <= v.len(),
            out@ == v@.take(i as int),
        decreases v.len() - i,
    {
        out.push(v[i]);
        i = i + 1;
    }
    out
}

/// What the runtime sets up of the sandbox that a specification asks for: its
/// resources and their boot-time ceilings, its hardening and limits, what it runs, and
/// its network.
pub fn boot_plan(spec: &SandboxSpec, secrets: &Vec<ResolvedSecret>) -> (r: Result<
    BootPlan,
    BootError,
>)
    ensures
        r is Ok <==> boot_refusal(*spec) is None,
        r matches Ok(plan) ==> boots(plan, *spec, secrets@),
        r matches Err(e) ==> boot_refusal(*spec) == Some(e@),
{
    let max_cpus: u32 = spec.effective_max_cpus();
    if spec.cpus > 255 {
        return Err(BootError::TooManyCpus(spec.cpus));
    }
    if max_cpus > 255 {
        return Err(BootError::TooManyCpus(max_cpus));
    }
    let root_disk = match quantity_to_mib(spec.upper.size.0.as_str()) {
        Ok(q) => q,
        Err(e) => {
            return Err(BootError::Disk(e));
        },
    };
    Ok(
        BootPlan {
            image: spec.image.clone(),
            cpus: spec.cpus as u8,
            memory: spec.memory,
            max_cpus: max_cpus as u8,
            max_memory: spec.effective_max_memory(),
            root_disk,
            entrypoint: some_words(&spec.entrypoint),
            background_command: some_words(&spec.cmd),
            env: clone_env(&spec.env),
            workdir: crate::k8s::clone_opt(&spec.workdir),
            shell: crate::k8s::clone_opt(&spec.shell),
            user: crate::k8s::clone_opt(&spec.user),
            hostname: crate::k8s::clone_opt(&spec.hostname),
            max_duration_secs: spec.max_duration_secs,
            idle_timeout_secs: spec.idle_timeout_secs,
            security_profile: spec.security_profile,
            rlimits: copy_rlimits(&spec.rlimits),
            network: net::apply(spec, secrets),
        },
    )
}

/// The hardening and the limits that a cloud client asks for reach the guest.
pub proof fn a_requested_profile_reaches_the_guest(
    req: CloudCreateSandboxRequest,
    spec: SandboxSpec,
    secrets: Seq<ResolvedSecret>,
    plan: BootPlan,
)
    requires
        convert::spec_matches(spec, req, req.image->reference@),
        boots(plan, spec, secrets),
    ensures
        plan.security_profile == convert::security_of(req.security_profile),
        plan.rlimits@ == convert::rlimits_of(req.rlimits@),
{
}

/// The status that a container exits with: 128 and the signal where one ended the
/// sandbox, else the sandbox's own code, else 0.
pub open spec fn exit_status(code: Option<i32>, signal: Option<i32>) -> int {
    match (code, signal) {
        (_, Some(s)) => 128 + s,
        (Some(c), None) => c as int,
        (None, None) => 0,
    }
}

/// The status that a container exits with, so that it reflects how its sandbox
/// ended.
pub fn exit_code(code: Option<i32>, signal: Option<i32>) -> (r: i32)
    requires
        signal matches Some(s) ==> s <= i32::MAX - 128,
    ensures
        r == exit_status(code, signal),
{
    match signal {
        Some(s) => 128 + s,
        None => match code {
            Some(c) => c,
            None => 0,
        },
    }
}

} // verus!
