//! Between the wire and the `Sandbox` resource.

use vstd::prelude::*;

use crate::collections;
use crate::collections::StringMap;
use crate::digest;
use crate::gateway::auth;
use crate::gateway::error::{GatewayError, GatewayErrorView};
use crate::gateway::wire;
use crate::gateway::wire::{
    CloudCreateSandboxRequest, CloudCreateSandboxResponse, CloudEnvVar, CloudRlimit,
    CloudRlimitResource, CloudRootfsSource, CloudSandboxStatus, WireSecurityProfile,
};
use crate::json;
use crate::k8s;
use crate::k8s::ObjectMeta;
use crate::names;
use crate::sandbox::{
    DesiredState, EnvVar, Lifecycle, LoggingSpec, NetworkSpec, Rlimit, RlimitResource, RunPolicy,
    Sandbox, SandboxPhase, SandboxSpec, SandboxStatus, SecurityProfile, ShutdownPolicy, UpperSpec,
};
use crate::text;
use crate::time;
use crate::time::{Time, WireTime};

verus! {

/// Annotation prefix for wire fields with no place in the specification.
pub const CLOUD_ANN: &'static str = "microsandbox.dev/cloud-";

/// Annotation prefix for labels that Kubernetes does not take as labels.
pub const CLOUD_LABEL_ANN: &'static str = "microsandbox.dev/cloud-label.";

/// Marks a Sandbox as made by the gateway.
pub const MANAGED_BY_KEY: &'static str = "sandbox.microsandbox.dev/managed-by";

pub const MANAGED_BY_VALUE: &'static str = "msb-gateway";

/// Whether Kubernetes takes `s` as the name of an object: at most 253 lower-case
/// letters, digits and dashes, with no dash at either end.
pub open spec fn valid_name(s: Seq<char>) -> bool {
    &&& s.len() > 0
    &&& digest::utf8(s).len() <= 253
    &&& forall|i: int| 0 <= i < s.len() ==> names::is_name_end(#[trigger] s[i]) || s[i] == '-'
    &&& names::is_name_end(s[0])
    &&& names::is_name_end(s.last())
}

fn name_is_valid(name: &str) -> (r: bool)
    ensures
        r == valid_name(name@),
{
    let chars = text::chars_of(name);
    let n: usize = chars.len();
    if n == 0 || text::byte_len(name) > 253 {
        return false;
    }
    let mut i: usize = 0;
    while i < n
        invariant
            i <= n,
            n == chars.len(),
            chars@ == name@,
            forall|k: int| 0 <= k < i ==> names::is_name_end(#[trigger] name@[k]) || name@[k] == '-',
        decreases n - i,
    {
        if !names::name_end(chars[i]) && chars[i] != '-' {
            assert(!(names::is_name_end(name@[i as int]) || name@[i as int] == '-'));
            return false;
        }
        i = i + 1;
    }
    names::name_end(chars[0]) && names::name_end(chars[n - 1])
}

/// Reject a name that is no valid Kubernetes object name.
pub fn validate_name(name: &str) -> (r: Result<(), GatewayError>)
    ensures
        r is Ok <==> valid_name(name@),
        r matches Err(e) ==> e@ == GatewayErrorView::InvalidRequest(bad_name_text(name@)),
{
    if name_is_valid(name) {
        Ok(())
    } else {
        Err(
            GatewayError::InvalidRequest(
                "sandbox name ".to_owned().concat(text::debug(name).as_str()).concat(
                    " must be a valid Kubernetes name: lowercase alphanumeric and '-'",
                ),
            ),
        )
    }
}

/// What a client hears whose name is refused.
pub open spec fn bad_name_text(name: Seq<char>) -> Seq<char> {
    "sandbox name "@ + text::debug_text(name)
        + " must be a valid Kubernetes name: lowercase alphanumeric and '-'"@
}

/// A character that a label can hold.
pub open spec fn is_label_char(c: char) -> bool {
    text::is_alnum(c) || c == '-' || c == '_' || c == '.'
}

/// A label value, or the name part of a label key: empty, or at most 63 letters,
/// digits, dashes, underscores and dots, with a letter or digit at each end.
pub open spec fn valid_segment(s: Seq<char>) -> bool {
    ||| s.len() == 0
    ||| {
        &&& s.len() <= 63
        &&& forall|i: int| 0 <= i < s.len() ==> is_label_char(#[trigger] s[i])
        &&& text::is_alnum(s[0])
        &&& text::is_alnum(s.last())
    }
}

/// A label key: a name, behind a DNS subdomain and a slash where it has a prefix.
/// Unlike a value, the name is never empty.
pub open spec fn valid_key(s: Seq<char>) -> bool {
    match text::split_once_at(s, '/') {
        Some((prefix, name)) => names::dns_subdomain(prefix) && name.len() > 0 && valid_segment(
            name,
        ),
        None => s.len() > 0 && valid_segment(s),
    }
}

/// Whether Kubernetes takes a pair as a label.
pub open spec fn valid_label(k: Seq<char>, v: Seq<char>) -> bool {
    valid_key(k) && valid_segment(v)
}

/// A label value or name segment.
pub fn is_k8s_label_segment(v: &str) -> (r: bool)
    ensures
        r == valid_segment(v@),
{
    let chars = text::chars_of(v);
    let n: usize = chars.len();
    if n == 0 {
        return true;
    }
    if n > 63 {
        return false;
    }
    let mut i: usize = 0;
    while i < n
        invariant
            i <= n,
            n == chars.len(),
            chars@ == v@,
            forall|k: int| 0 <= k < i ==> is_label_char(#[trigger] v@[k]),
        decreases n - i,
    {
        let c = chars[i];
        if !(text::alnum(c) || c == '-' || c == '_' || c == '.') {
            assert(!is_label_char(v@[i as int]));
            return false;
        }
        i = i + 1;
    }
    text::alnum(chars[0]) && text::alnum(chars[n - 1])
}

/// Whether Kubernetes takes `key` as the key of a label: an optional DNS subdomain and
/// a slash, then a name of 1 to 63 characters bounded by letters or digits.
pub fn is_k8s_label_key(key: &str) -> (r: bool)
    ensures
        r == valid_key(key@),
{
    match text::split_once(key, '/') {
        Some((prefix, name)) => names::is_dns_subdomain(prefix.as_str())
            && !name.as_str().is_empty() && is_k8s_label_segment(name.as_str()),
        None => !key.is_empty() && is_k8s_label_segment(key),
    }
}

/// What a create request maps to: the specification, and the labels and annotations
/// that carry the wire fields with no place in it.
#[derive(Debug, PartialEq)]
pub struct SpecMapping {
    pub spec: SandboxSpec,
    pub labels: StringMap,
    pub annotations: StringMap,
}

/// The security profile of the specification.
pub open spec fn security_of(p: WireSecurityProfile) -> SecurityProfile {
    match p {
        WireSecurityProfile::Default => SecurityProfile::Default,
        WireSecurityProfile::Restricted => SecurityProfile::Restricted,
    }
}

/// The security profile that the client asked for reaches the guest.
pub fn map_security(p: WireSecurityProfile) -> (r: SecurityProfile)
    ensures
        r == security_of(p),
{
    match p {
        WireSecurityProfile::Default => SecurityProfile::Default,
        WireSecurityProfile::Restricted => SecurityProfile::Restricted,
    }
}

/// The resource of the specification.
pub open spec fn resource_of(r: CloudRlimitResource) -> RlimitResource {
    match r {
        CloudRlimitResource::Cpu => RlimitResource::Cpu,
        CloudRlimitResource::Fsize => RlimitResource::Fsize,
        CloudRlimitResource::Data => RlimitResource::Data,
        CloudRlimitResource::Stack => RlimitResource::Stack,
        CloudRlimitResource::Core => RlimitResource::Core,
        CloudRlimitResource::Rss => RlimitResource::Rss,
        CloudRlimitResource::Nproc => RlimitResource::Nproc,
        CloudRlimitResource::Nofile => RlimitResource::Nofile,
        CloudRlimitResource::Memlock => RlimitResource::Memlock,
        CloudRlimitResource::As => RlimitResource::As,
        CloudRlimitResource::Locks => RlimitResource::Locks,
        CloudRlimitResource::Sigpending => RlimitResource::Sigpending,
        CloudRlimitResource::Msgqueue => RlimitResource::Msgqueue,
        CloudRlimitResource::Nice => RlimitResource::Nice,
        CloudRlimitResource::Rtprio => RlimitResource::Rtprio,
        CloudRlimitResource::Rttime => RlimitResource::Rttime,
    }
}

/// The resource of the specification.
pub fn map_rlimit_resource(r: CloudRlimitResource) -> (out: RlimitResource)
    ensures
        out == resource_of(r),
{
    match r {
        CloudRlimitResource::Cpu => RlimitResource::Cpu,
        CloudRlimitResource::Fsize => RlimitResource::Fsize,
        CloudRlimitResource::Data => RlimitResource::Data,
        CloudRlimitResource::Stack => RlimitResource::Stack,
        CloudRlimitResource::Core => RlimitResource::Core,
        CloudRlimitResource::Rss => RlimitResource::Rss,
        CloudRlimitResource::Nproc => RlimitResource::Nproc,
        CloudRlimitResource::Nofile => RlimitResource::Nofile,
        CloudRlimitResource::Memlock => RlimitResource::Memlock,
        CloudRlimitResource::As => RlimitResource::As,
        CloudRlimitResource::Locks => RlimitResource::Locks,
        CloudRlimitResource::Sigpending => RlimitResource::Sigpending,
        CloudRlimitResource::Msgqueue => RlimitResource::Msgqueue,
        CloudRlimitResource::Nice => RlimitResource::Nice,
        CloudRlimitResource::Rtprio => RlimitResource::Rtprio,
        CloudRlimitResource::Rttime => RlimitResource::Rttime,
    }
}

/// The resource limits of the specification.
pub open spec fn rlimits_of(rlimits: Seq<CloudRlimit>) -> Seq<Rlimit> {
    Seq::new(
        rlimits.len(),
        |i: int|
            Rlimit {
                resource: resource_of(rlimits[i].resource),
                soft: rlimits[i].soft,
                hard: rlimits[i].hard,
            },
    )
}

/// The resource limits of the specification.
pub fn map_rlimits(rlimits: &Vec<CloudRlimit>) -> (out: Vec<Rlimit>)
    ensures
        out@ == rlimits_of(rlimits@),
{
    let mut out: Vec<Rlimit> = Vec::new();
    let mut i: usize = 0;
    while i < rlimits.len()
        invariant
            i <= rlimits.len(),
            out@ == rlimits_of(rlimits@).take(i as int),
        decreases rlimits.len() - i,
    {
        let r = rlimits[i];
        out.push(
            Rlimit { resource: map_rlimit_resource(r.resource), soft: r.soft, hard: r.hard },
        );
        assert(rlimits_of(rlimits@).take(i + 1) =~= rlimits_of(rlimits@).take(i as int).push(
            rlimits_of(rlimits@)[i as int],
        ));
        i = i + 1;
    }
    assert(rlimits_of(rlimits@).take(i as int) =~= rlimits_of(rlimits@));
    out
}

/// The environment of the specification.
pub open spec fn env_of(env: Seq<CloudEnvVar>) -> Seq<(Seq<char>, Seq<char>)> {
    Seq::new(env.len(), |i: int| (env[i].key@, env[i].value@))
}

fn map_env(env: &Vec<CloudEnvVar>) -> (out: Vec<EnvVar>)
    ensures
        collections::views(out@) == env_of(env@),
{
    let mut out: Vec<EnvVar> = Vec::new();
    let ghost all = env_of(env@);
    let mut i: usize = 0;
    assert(collections::views(out@) =~= all.take(0));
    while i < env.len()
        invariant
            i <= env.len(),
            all == env_of(env@),
            out.len() == i,
            collections::views(out@) == all.take(i as int),
        decreases env.len() - i,
    {
        let ghost before = out@;
        out.push(EnvVar { name: env[i].key.clone(), value: env[i].value.clone() });
        proof {
            collections::grown(before, out@, all);
        }
        i = i + 1;
    }
    assert(all.take(i as int) =~= all);
    out
}

/// The words of an optional list of them.
pub open spec fn words_of(o: Option<Vec<String>>) -> Seq<Seq<char>> {
    match o {
        Some(v) => collections::views(v@),
        None => Seq::empty(),
    }
}

fn words(o: &Option<Vec<String>>) -> (out: Vec<String>)
    ensures
        collections::views(out@) == words_of(*o),
{
    match o {
        Some(v) => collections::clone_strings(v),
        None => {
            let out: Vec<String> = Vec::new();
            assert(collections::views(out@) =~= Seq::empty());
            out
        },
    }
}

/// Whether a specification is what a request asks for, with the defaults of all that
/// a request does not name.
pub open spec fn spec_matches(
    spec: SandboxSpec,
    req: CloudCreateSandboxRequest,
    image: Seq<char>,
) -> bool {
    &&& spec.image@ == image
    &&& spec.cpus == req.resources.vcpus
    &&& spec.memory == req.resources.memory_mib
    &&& spec.max_cpus is None
    &&& spec.max_memory is None
    &&& collections::views(spec.cmd@) == words_of(req.runtime.cmd)
    &&& collections::views(spec.entrypoint@) == words_of(req.runtime.entrypoint)
    &&& collections::views(spec.env@) == env_of(req.env@)
    &&& collections::opt(spec.workdir) == collections::opt(req.runtime.workdir)
    &&& collections::opt(spec.shell) == collections::opt(req.runtime.shell)
    &&& collections::opt(spec.user) == collections::opt(req.runtime.user)
    &&& spec.hostname is None
    &&& spec.ephemeral == req.lifecycle.ephemeral
    &&& spec.lifecycle.shutdown_time is None
    &&& spec.lifecycle.shutdown_policy == ShutdownPolicy::Retain
    &&& spec.max_duration_secs == req.lifecycle.max_duration_secs
    &&& spec.idle_timeout_secs == req.lifecycle.idle_timeout_secs
    &&& spec.run_policy == RunPolicy::Once
    &&& spec.secrets@.len() == 0
    &&& spec.network.is_default()
    &&& spec.upper.size.0@ == "4Gi"@
    &&& spec.security_profile == security_of(req.security_profile)
    &&& spec.rlimits@ == rlimits_of(req.rlimits@)
    &&& !spec.logging.guest_console
    &&& spec.desired_state == DesiredState::Running
}

/// The labels of a sandbox: those of the request that Kubernetes takes, and the mark
/// of the gateway.
pub open spec fn labels_of(labels: Map<Seq<char>, Seq<char>>) -> Map<Seq<char>, Seq<char>> {
    Map::new(
        |k: Seq<char>| labels.dom().contains(k) && valid_label(k, labels[k]),
        |k: Seq<char>| labels[k],
    ).insert(MANAGED_BY_KEY@, MANAGED_BY_VALUE@)
}

/// The annotations that the runtime options become.
pub open spec fn option_annotations(
    level: Option<wire::SandboxLogLevel>,
    scripts: Map<Seq<char>, Seq<char>>,
) -> Map<Seq<char>, Seq<char>> {
    let m0 = match level {
        Some(l) => Map::<Seq<char>, Seq<char>>::empty().insert(
            CLOUD_ANN@ + "log-level"@,
            wire::level_name(l),
        ),
        None => Map::empty(),
    };
    if scripts =~= Map::empty() {
        m0
    } else {
        m0.insert(CLOUD_ANN@ + "scripts"@, json::string_map_text(scripts))
    }
}

/// The annotations that the labels become which Kubernetes does not take as labels.
pub open spec fn label_annotations(labels: Map<Seq<char>, Seq<char>>) -> Map<Seq<char>, Seq<char>> {
    Map::new(
        |a: Seq<char>|
            {
                let k = a.skip(CLOUD_LABEL_ANN@.len() as int);
                text::has_prefix(a, CLOUD_LABEL_ANN@) && labels.dom().contains(k) && !valid_label(
                    k,
                    labels[k],
                )
            },
        |a: Seq<char>| labels[a.skip(CLOUD_LABEL_ANN@.len() as int)],
    )
}

/// The annotations of a sandbox: what the request says that has no place in the
/// specification.
pub open spec fn annotations_of(req: CloudCreateSandboxRequest) -> Map<Seq<char>, Seq<char>> {
    option_annotations(req.runtime.log_level, req.runtime.scripts@).union_prefer_right(
        label_annotations(req.labels@),
    )
}

/// What a create request comes to: an error for a bad name, then for an image that
/// is no OCI reference.
pub open spec fn refusal(req: CloudCreateSandboxRequest) -> Option<GatewayErrorView> {
    if !valid_name(req.name@) {
        Some(GatewayErrorView::InvalidRequest(bad_name_text(req.name@)))
    } else if !(req.image is Oci) {
        Some(GatewayErrorView::InvalidRequest("only OCI image references are supported"@))
    } else {
        None
    }
}

fn annotate_options(
    level: Option<wire::SandboxLogLevel>,
    scripts: &StringMap,
) -> (ann: StringMap)
    ensures
        ann@ == option_annotations(level, scripts@),
{
    let mut ann = StringMap::new();
    if let Some(l) = level {
        ann.insert(CLOUD_ANN.to_owned().concat("log-level"), l.name().to_owned());
    }
    let entries = scripts.entries();
    if entries.len() > 0 {
        proof {
            assert(entries@[0].0@ == entries@[0].0@);
            assert(scripts@.dom().contains(entries@[0].0@));
        }
        ann.insert(CLOUD_ANN.to_owned().concat("scripts"), json::write_string_map(scripts));
    } else {
        assert(scripts@ =~= Map::empty());
    }
    ann
}

/// Splits the labels of a request: those that Kubernetes takes stay labels, the rest
/// are kept as annotations.
fn split_labels(labels: &StringMap, ann: &mut StringMap) -> (out: StringMap)
    ensures
        out@ == labels_of(labels@),
        final(ann)@ == old(ann)@.union_prefer_right(label_annotations(labels@)),
{
    let entries = labels.entries();
    let mut out = StringMap::new();
    let ghost start = ann@;
    let ghost p = CLOUD_LABEL_ANN@;
    let mut i: usize = 0;
    while i < entries.len()
        invariant
            i <= entries.len(),
            collections::ascending(collections::keys_of(entries@)),
            collections::map_of(entries@) == labels@,
            p == CLOUD_LABEL_ANN@,
            forall|k: Seq<char>|
                #[trigger] out@.dom().contains(k) <==> kept(entries@, i as int, k),
            forall|k: Seq<char>| out@.dom().contains(k) ==> #[trigger] out@[k] == labels@[k],
            forall|a: Seq<char>|
                #[trigger] ann@.dom().contains(a) <==> start.dom().contains(a) || set_aside(
                    entries@,
                    i as int,
                    p,
                    a,
                ),
            forall|a: Seq<char>|
                ann@.dom().contains(a) ==> #[trigger] ann@[a] == (if set_aside(
                    entries@,
                    i as int,
                    p,
                    a,
                ) {
                    labels@[a.skip(p.len() as int)]
                } else {
                    start[a]
                }),
        decreases entries.len() - i,
    {
        let k = &entries[i].0;
        let v = &entries[i].1;
        let ghost key = k@;
        proof {
            collections::entry_value(entries@, i as int);
            assert forall|x: Seq<char>| kept(entries@, i + 1, x) <==> kept(entries@, i as int, x)
                || (x == key && valid_label(key, v@)) by {
                kept_step(entries@, i as int, x);
            }
            assert forall|a: Seq<char>| set_aside(entries@, i + 1, p, a) <==> set_aside(
                entries@,
                i as int,
                p,
                a,
            ) || (a == p + key && !valid_label(key, v@)) by {
                set_aside_step(entries@, i as int, p, a);
            }
            assert((p + key).skip(p.len() as int) =~= key);
        }
        if is_k8s_label_key(k.as_str()) && is_k8s_label_segment(v.as_str()) {
            out.insert(k.clone(), v.clone());
        } else {
            ann.insert(CLOUD_LABEL_ANN.to_owned().concat(k.as_str()), v.clone());
        }
        i = i + 1;
    }
    out.insert(MANAGED_BY_KEY.to_owned(), MANAGED_BY_VALUE.to_owned());
    proof {
        let all = entries@.len() as int;
        assert forall|k: Seq<char>| kept(entries@, all, k) <==> labels@.dom().contains(k)
            && valid_label(k, labels@[k]) by {
            kept_all(entries@, k);
        }
        assert(out@ =~= labels_of(labels@));
        assert forall|a: Seq<char>| set_aside(entries@, all, p, a) <==> label_annotations(
            labels@,
        ).dom().contains(a) by {
            set_aside_all(entries@, p, a);
        }
        assert(ann@ =~= start.union_prefer_right(label_annotations(labels@)));
    }
    out
}

/// Whether one of the first `n` entries is a label under `k`.
pub open spec fn kept(s: Seq<(String, String)>, n: int, k: Seq<char>) -> bool {
    exists|j: int| 0 <= j < n && #[trigger] s[j].0@ == k && valid_label(k, s[j].1@)
}

/// Whether one of the first `n` entries is no label and becomes the annotation `a`.
pub open spec fn set_aside(s: Seq<(String, String)>, n: int, p: Seq<char>, a: Seq<char>) -> bool {
    exists|j: int| 0 <= j < n && p + (#[trigger] s[j]).0@ == a && !valid_label(s[j].0@, s[j].1@)
}

proof fn kept_step(s: Seq<(String, String)>, n: int, k: Seq<char>)
    requires
        0 <= n < s.len(),
    ensures
        kept(s, n + 1, k) <==> kept(s, n, k) || (s[n].0@ == k && valid_label(k, s[n].1@)),
{
    if kept(s, n + 1, k) {
        let j = choose|j: int| 0 <= j < n + 1 && #[trigger] s[j].0@ == k && valid_label(k, s[j].1@);
        if j < n {
            assert(s[j].0@ == k);
        }
    }
    if s[n].0@ == k && valid_label(k, s[n].1@) {
        assert(s[n].0@ == k);
    }
}

proof fn set_aside_step(s: Seq<(String, String)>, n: int, p: Seq<char>, a: Seq<char>)
    requires
        0 <= n < s.len(),
    ensures
        set_aside(s, n + 1, p, a) <==> set_aside(s, n, p, a) || (p + s[n].0@ == a && !valid_label(
            s[n].0@,
            s[n].1@,
        )),
{
    if set_aside(s, n + 1, p, a) {
        let j = choose|j: int|
            0 <= j < n + 1 && p + (#[trigger] s[j]).0@ == a && !valid_label(s[j].0@, s[j].1@);
        if j < n {
            assert(p + s[j].0@ == a);
        }
    }
}

proof fn kept_all(s: Seq<(String, String)>, k: Seq<char>)
    requires
        collections::ascending(collections::keys_of(s)),
    ensures
        kept(s, s.len() as int, k) <==> collections::map_of(s).dom().contains(k) && valid_label(
            k,
            collections::map_of(s)[k],
        ),
{
    if kept(s, s.len() as int, k) {
        let j = choose|j: int|
            0 <= j < s.len() && #[trigger] s[j].0@ == k && valid_label(k, s[j].1@);
        collections::entry_value(s, j);
    }
    if collections::map_of(s).dom().contains(k) {
        let j = choose|j: int| 0 <= j < s.len() && #[trigger] s[j].0@ == k;
        collections::entry_value(s, j);
    }
}

proof fn set_aside_all(s: Seq<(String, String)>, p: Seq<char>, a: Seq<char>)
    requires
        collections::ascending(collections::keys_of(s)),
        p == CLOUD_LABEL_ANN@,
    ensures
        set_aside(s, s.len() as int, p, a) <==> label_annotations(
            collections::map_of(s),
        ).dom().contains(a),
{
    let m = collections::map_of(s);
    let k = a.skip(p.len() as int);
    if set_aside(s, s.len() as int, p, a) {
        let j = choose|j: int|
            0 <= j < s.len() && p + (#[trigger] s[j]).0@ == a && !valid_label(s[j].0@, s[j].1@);
        collections::entry_value(s, j);
        assert(a.take(p.len() as int) =~= p);
        assert(k =~= s[j].0@);
    }
    if text::has_prefix(a, p) && m.dom().contains(k) && !valid_label(k, m[k]) {
        let j = choose|j: int| 0 <= j < s.len() && #[trigger] s[j].0@ == k;
        collections::entry_value(s, j);
        assert(p + s[j].0@ =~= a);
    }
}

/// A create request as a specification, labels, and annotations for what has no
/// place in it.
pub fn request_to_spec(req: &CloudCreateSandboxRequest) -> (r: Result<SpecMapping, GatewayError>)
    ensures
        r is Ok <==> refusal(*req) is None,
        r matches Err(e) ==> refusal(*req) == Some(e@),
        r matches Ok(m) ==> {
            &&& spec_matches(m.spec, *req, req.image->reference@)
            &&& m.labels@ == labels_of(req.labels@)
            &&& m.annotations@ == annotations_of(*req)
        },
{
    if let Err(e) = validate_name(req.name.as_str()) {
        return Err(e);
    }
    let image = match &req.image {
        CloudRootfsSource::Oci { reference } => reference.clone(),
        _ => {
            return Err(
                GatewayError::InvalidRequest("only OCI image references are supported".to_owned()),
            );
        },
    };
    let spec = SandboxSpec {
        image,
        desired_state: DesiredState::default(),
        cpus: req.resources.vcpus as u32,
        memory: req.resources.memory_mib,
        max_cpus: None,
        max_memory: None,
        cmd: words(&req.runtime.cmd),
        entrypoint: words(&req.runtime.entrypoint),
        env: map_env(&req.env),
        workdir: k8s::clone_opt(&req.runtime.workdir),
        shell: k8s::clone_opt(&req.runtime.shell),
        user: k8s::clone_opt(&req.runtime.user),
        hostname: None,
        ephemeral: req.lifecycle.ephemeral,
        lifecycle: Lifecycle::default(),
        max_duration_secs: req.lifecycle.max_duration_secs,
        idle_timeout_secs: req.lifecycle.idle_timeout_secs,
        run_policy: RunPolicy::default(),
        secrets: Vec::new(),
        network: NetworkSpec::default(),
        upper: UpperSpec::default(),
        security_profile: map_security(req.security_profile),
        rlimits: map_rlimits(&req.rlimits),
        logging: LoggingSpec::default(),
    };
    let mut annotations = annotate_options(req.runtime.log_level, &req.runtime.scripts);
    let labels = split_labels(&req.labels, &mut annotations);
    Ok(SpecMapping { spec, labels, annotations })
}

/// Every sandbox that the gateway makes carries its mark.
pub proof fn gateway_mark_is_always_there(labels: Map<Seq<char>, Seq<char>>)
    ensures
        labels_of(labels).contains_pair(MANAGED_BY_KEY@, MANAGED_BY_VALUE@),
{
}

/// No label of a request is lost: it becomes a label or, where Kubernetes does not
/// take it as one, an annotation. (The mark of the gateway stands in for a label
/// under its own key.)
pub proof fn no_label_is_lost(req: CloudCreateSandboxRequest, k: Seq<char>)
    requires
        req.labels@.dom().contains(k),
        k != MANAGED_BY_KEY@,
    ensures
        valid_label(k, req.labels@[k]) ==> labels_of(req.labels@).contains_pair(
            k,
            req.labels@[k],
        ),
        !valid_label(k, req.labels@[k]) ==> annotations_of(req).contains_pair(
            CLOUD_LABEL_ANN@ + k,
            req.labels@[k],
        ),
{
    let p = CLOUD_LABEL_ANN@;
    let a = p + k;
    assert(a.take(p.len() as int) =~= p);
    assert(a.skip(p.len() as int) =~= k);
}

/// An equality selector for pairs: `k1=v1,k2=v2`.
pub open spec fn selector_text(pairs: Seq<(Seq<char>, Seq<char>)>) -> Seq<char>
    decreases pairs.len(),
{
    if pairs.len() == 0 {
        Seq::empty()
    } else if pairs.len() == 1 {
        pairs[0].0 + "="@ + pairs[0].1
    } else {
        selector_text(pairs.drop_last()) + ","@ + (pairs.last().0 + "="@ + pairs.last().1)
    }
}

/// What a parsed labels filter means: no filter where it is empty.
pub open spec fn selector_outcome(
    parsed: Result<Seq<(Seq<char>, Seq<char>)>, Seq<char>>,
) -> Result<Option<Seq<char>>, GatewayErrorView> {
    match parsed {
        Err(e) => Err(
            GatewayErrorView::InvalidRequest("labels filter must be a JSON object: "@ + e),
        ),
        Ok(pairs) => if pairs.len() == 0 {
            Ok(None)
        } else {
            Ok(Some(selector_text(pairs)))
        },
    }
}

/// The view of the outcome of reading a labels filter.
pub open spec fn selector_view(r: Result<Option<String>, GatewayError>) -> Result<
    Option<Seq<char>>,
    GatewayErrorView,
> {
    match r {
        Ok(o) => Ok(collections::opt(o)),
        Err(e) => Err(e@),
    }
}

/// What a parsed labels filter means.
pub fn selector_of(parsed: Result<Vec<(String, String)>, String>) -> (r: Result<
    Option<String>,
    GatewayError,
>)
    ensures
        selector_view(r) == selector_outcome(json::pairs_outcome(parsed)),
{
    let pairs = match parsed {
        Ok(p) => p,
        Err(e) => {
            return Err(
                GatewayError::InvalidRequest(
                    "labels filter must be a JSON object: ".to_owned().concat(e.as_str()),
                ),
            );
        },
    };
    if pairs.len() == 0 {
        return Ok(None);
    }
    let ghost all = json::pair_views(pairs@);
    let mut out = pairs[0].0.clone().concat("=").concat(pairs[0].1.as_str());
    let mut i: usize = 1;
    assert(all.take(1)[0] == all[0]);
    while i < pairs.len()
        invariant
            1 <= i <= pairs.len(),
            all == json::pair_views(pairs@),
            out@ == selector_text(all.take(i as int)),
        decreases pairs.len() - i,
    {
        let item = pairs[i].0.clone().concat("=").concat(pairs[i].1.as_str());
        proof {
            let t = all.take(i + 1);
            assert(t.drop_last() =~= all.take(i as int));
            assert(t.last() == all[i as int]);
        }
        out = out.concat(",").concat(item.as_str());
        i = i + 1;
    }
    assert(all.take(i as int) =~= all);
    Ok(Some(out))
}

/// Translate a labels filter (a JSON object of strings) into an equality label
/// selector, its keys in ascending order. Nothing and an empty object mean no
/// filter; anything else that is no such object is refused, so that a client's typo
/// does not return everything.
pub fn labels_query_to_selector(labels: Option<&str>) -> (r: Result<Option<String>, GatewayError>)
    ensures
        selector_view(r) == (match auth::opt_str(labels) {
            Some(raw) if raw.len() > 0 => selector_outcome(json::parsed_string_map(raw)),
            _ => Ok(None),
        }),
{
    match labels {
        Some(raw) => {
            if raw.is_empty() {
                return Ok(None);
            }
            selector_of(json::parse_string_map(raw))
        },
        None => Ok(None),
    }
}

/// The status that a client is told.
pub open spec fn status_of(
    phase: Option<SandboxPhase>,
    terminating: bool,
    has_started: bool,
) -> CloudSandboxStatus {
    if terminating {
        CloudSandboxStatus::Stopping
    } else {
        match phase {
            Some(SandboxPhase::Running) => CloudSandboxStatus::Running,
            Some(SandboxPhase::Stopped) | Some(
                SandboxPhase::Succeeded,
            ) => CloudSandboxStatus::Stopped,
            Some(SandboxPhase::Failed) => CloudSandboxStatus::Failed,
            Some(SandboxPhase::Pending) | None => if has_started {
                CloudSandboxStatus::Starting
            } else {
                CloudSandboxStatus::Created
            },
        }
    }
}

/// The status that a client is told. A sandbox that is being deleted is stopping,
/// whatever else.
pub fn phase_to_status(phase: Option<SandboxPhase>, terminating: bool, has_started: bool) -> (s:
    CloudSandboxStatus)
    ensures
        s == status_of(phase, terminating, has_started),
{
    if terminating {
        return CloudSandboxStatus::Stopping;
    }
    match phase {
        Some(SandboxPhase::Running) => CloudSandboxStatus::Running,
        Some(SandboxPhase::Stopped) => CloudSandboxStatus::Stopped,
        Some(SandboxPhase::Succeeded) => CloudSandboxStatus::Stopped,
        Some(SandboxPhase::Failed) => CloudSandboxStatus::Failed,
        _ => if has_started {
            CloudSandboxStatus::Starting
        } else {
            CloudSandboxStatus::Created
        },
    }
}

/// The failure that a client is told of: an end that was not clean.
pub open spec fn failure_of(status: SandboxStatus) -> Option<Seq<char>> {
    match status.termination_reason {
        Some(r) => if r.clean() {
            None
        } else {
            Some(r.label())
        },
        None => None,
    }
}

/// The failure that a client is told of.
pub fn last_error(status: &SandboxStatus) -> (r: Option<String>)
    ensures
        collections::opt(r) == failure_of(*status),
{
    match &status.termination_reason {
        Some(reason) => if reason.is_clean() {
            None
        } else {
            Some(reason.name().to_owned())
        },
        None => None,
    }
}

/// A recorded instant as the wire carries it.
pub open spec fn ts_of(t: Option<Time>) -> Option<(i64, u32)> {
    match t {
        Some(x) => time::wire_of(x@),
        None => None,
    }
}

/// Whether a recorded instant, where its year has four digits, is told as it is.
pub open spec fn same_instant(recorded: Option<Time>, told: Option<(i64, u32)>) -> bool {
    match recorded {
        Some(t) => time::four_digit_year(t@) ==> told == Some(time::instant_parts(t@)),
        None => told is None,
    }
}

/// A recorded instant as the wire carries it: the same instant, where its year has
/// four digits.
pub fn parse_ts(t: Option<Time>) -> (r: Option<WireTime>)
    ensures
        collections::opt(r) == ts_of(t),
        same_instant(t, collections::opt(r)),
{
    match t {
        Some(x) => x.to_wire(),
        None => None,
    }
}

/// When an object was made, as the wire carries it: the epoch where that is not
/// known.
pub open spec fn created_of(meta: ObjectMeta) -> (i64, u32) {
    match ts_of(meta.creation_timestamp) {
        Some(p) => p,
        None => (0i64, 0u32),
    }
}

/// When an object was made, as the wire carries it.
pub fn meta_created_at(meta: &ObjectMeta) -> (t: WireTime)
    ensures
        t@ == created_of(*meta),
        meta.creation_timestamp is Some ==> same_instant(meta.creation_timestamp, Some(t@)),
{
    match parse_ts(meta.creation_timestamp) {
        Some(t) => t,
        None => WireTime::epoch(),
    }
}

/// Whether a response says what there is to say of a sandbox. Its id is its name.
pub open spec fn tells(r: CloudCreateSandboxResponse, sb: Sandbox) -> bool {
    let name = match sb.metadata.name {
        Some(n) => n@,
        None => Seq::empty(),
    };
    let phase = sb.phase();
    let started = match sb.status {
        Some(s) => s.started_at,
        None => None,
    };
    let terminated = match sb.status {
        Some(s) => s.terminated_at,
        None => None,
    };
    &&& r.id@ == name
    &&& r.name@ == name
    &&& r.slug@ == name
    &&& r.org_id@ == Seq::<char>::empty()
    &&& r.status == status_of(
        phase,
        sb.metadata.deletion_timestamp is Some,
        started is Some || phase == Some(SandboxPhase::Running),
    )
    &&& r.spec is None
    &&& r.ephemeral == sb.spec.ephemeral
    &&& r.created_at@ == created_of(sb.metadata)
    &&& collections::opt(r.started_at) == ts_of(started)
    &&& collections::opt(r.stopped_at) == ts_of(terminated)
    &&& collections::opt(r.last_failure_message) == (match sb.status {
        Some(s) => failure_of(s),
        None => None,
    })
}

/// A sandbox as a client is told of it. All that is required comes from the metadata
/// and the status, so that a sandbox made without the gateway is told of too. Its
/// times are told as they were recorded.
pub fn sandbox_to_cloud(sb: &Sandbox) -> (r: CloudCreateSandboxResponse)
    ensures
        tells(r, *sb),
        sb.metadata.creation_timestamp is Some ==> same_instant(
            sb.metadata.creation_timestamp,
            Some(r.created_at@),
        ),
        sb.status matches Some(s) ==> {
            &&& same_instant(s.started_at, collections::opt(r.started_at))
            &&& same_instant(s.terminated_at, collections::opt(r.stopped_at))
        },
{
    let name = match &sb.metadata.name {
        Some(n) => n.clone(),
        None => String::new(),
    };
    let terminating = sb.metadata.deletion_timestamp.is_some();
    let phase = sb.recorded_phase();
    let (started, terminated, failure) = match &sb.status {
        Some(s) => (s.started_at, s.terminated_at, last_error(s)),
        None => (None, None, None),
    };
    let has_started = started.is_some() || matches!(phase, Some(SandboxPhase::Running));
    CloudCreateSandboxResponse {
        id: name.clone(),
        org_id: String::new(),
        slug: name.clone(),
        name,
        status: phase_to_status(phase, terminating, has_started),
        spec: None,
        ephemeral: sb.spec.ephemeral,
        created_at: meta_created_at(&sb.metadata),
        started_at: parse_ts(started),
        stopped_at: parse_ts(terminated),
        last_failure_message: failure,
    }
}

} // verus!
