//! The sandbox pods of a node: which image each needs in the cache.

use vstd::prelude::*;

use crate::collections;
use crate::controller::config::{ControllerConfig, SANDBOX_LABEL, SANDBOX_NAME_LABEL};
use crate::controller::pod;
use crate::controller::pod::{PodBuildErrorView, RUNTIME_CONTAINER};
use crate::daemon::marker;
use crate::daemon::marker::MarkerWrite;
use crate::daemon::pull;
use crate::daemon::pull::PullError;
use crate::json;
use crate::json::{JsonScalar, JsonScalarView};
use crate::k8s::{Container, ContainerEnv, Pod, PodView};
use crate::paths;
use crate::sandbox::Sandbox;
use crate::text;

verus! {

pub const SPEC_ENV: &'static str = "MSB_SANDBOX_SPEC";

/// The labels of the pods to watch.
pub fn label_selector() -> (out: String)
    ensures
        out@ == SANDBOX_LABEL@ + "=true"@,
{
    SANDBOX_LABEL.to_owned().concat("=true")
}

/// The pods of this node.
pub fn field_selector(node_name: &str) -> (out: String)
    ensures
        out@ == "spec.nodeName="@ + node_name@,
{
    "spec.nodeName=".to_owned().concat(node_name)
}

/// The first container of this name.
pub open spec fn container_of(cs: Seq<Container>, name: Seq<char>) -> Option<Container>
    decreases cs.len(),
{
    if cs.len() == 0 {
        None
    } else if cs[0].name@ == name {
        Some(cs[0])
    } else {
        container_of(cs.drop_first(), name)
    }
}

fn find_container<'a>(cs: &'a Vec<Container>, name: &str) -> (r: Option<&'a Container>)
    ensures
        r is Some <==> container_of(cs@, name@) is Some,
        r matches Some(c) ==> container_of(cs@, name@) == Some(*c),
{
    let mut i: usize = 0;
    assert(cs@.skip(0) =~= cs@);
    while i < cs.len()
        invariant
            i <= cs.len(),
            container_of(cs@, name@) == container_of(cs@.skip(i as int), name@),
        decreases cs.len() - i,
    {
        assert(cs@.skip(i as int)[0] == cs@[i as int]);
        if text::same(cs[i].name.as_str(), name) {
            return Some(&cs[i]);
        }
        assert(cs@.skip(i as int).drop_first() =~= cs@.skip(i + 1));
        i = i + 1;
    }
    None
}

/// The first variable of this name.
pub open spec fn env_of(es: Seq<ContainerEnv>, name: Seq<char>) -> Option<ContainerEnv>
    decreases es.len(),
{
    if es.len() == 0 {
        None
    } else if es[0].name@ == name {
        Some(es[0])
    } else {
        env_of(es.drop_first(), name)
    }
}

fn find_env<'a>(es: &'a Vec<ContainerEnv>, name: &str) -> (r: Option<&'a ContainerEnv>)
    ensures
        r is Some <==> env_of(es@, name@) is Some,
        r matches Some(e) ==> env_of(es@, name@) == Some(*e),
{
    let mut i: usize = 0;
    assert(es@.skip(0) =~= es@);
    while i < es.len()
        invariant
            i <= es.len(),
            env_of(es@, name@) == env_of(es@.skip(i as int), name@),
        decreases es.len() - i,
    {
        assert(es@.skip(i as int)[0] == es@[i as int]);
        if text::same(es[i].name.as_str(), name) {
            return Some(&es[i]);
        }
        assert(es@.skip(i as int).drop_first() =~= es@.skip(i + 1));
        i = i + 1;
    }
    None
}

/// The sandbox specification that a pod carries, as JSON.
pub open spec fn spec_text(pod: Pod) -> Option<Seq<char>> {
    match pod.spec {
        None => None,
        Some(spec) => match container_of(spec.containers@, RUNTIME_CONTAINER@) {
            None => None,
            Some(c) => match env_of(c.env@, SPEC_ENV@) {
                Some(ContainerEnv { name: _, value: Some(v) }) => Some(v@),
                _ => None,
            },
        },
    }
}

/// The pod that the controller makes for a sandbox is one that the daemon watches,
/// and the specification that the daemon reads off it is the one that the controller
/// wrote.
pub proof fn the_daemon_reads_what_the_controller_wrote(
    sandbox: Sandbox,
    cfg: ControllerConfig,
    spec_json: Seq<char>,
    made: Pod,
)
    requires
        pod::built(sandbox, cfg, Ok(spec_json)) == Ok::<PodView, PodBuildErrorView>(made@),
    ensures
        made@.metadata.labels.dom().contains(SANDBOX_LABEL@),
        made@.metadata.labels[SANDBOX_LABEL@] == "true"@,
        spec_text(made) == Some(spec_json),
{
    reveal_strlit("microsandbox.dev/sandbox");
    reveal_strlit("microsandbox.dev/sandbox-name");
    assert(SANDBOX_LABEL@.len() != SANDBOX_NAME_LABEL@.len());
    reveal_with_fuel(container_of, 2);
    reveal_with_fuel(env_of, 2);
    let spec = made.spec->0;
    assert(made@.spec == collections::opt(made.spec));
    let flat = pod::flat_name_of(sandbox.metadata.namespace->0@, sandbox.metadata.name->0@);
    let runtime = pod::runtime_view(cfg, spec_json, flat, sandbox.spec);
    assert(collections::views(spec.containers@) == seq![runtime]);
    assert(spec.containers@.len() == 1);
    assert(collections::views(spec.containers@)[0] == spec.containers@[0]@);
    let c = spec.containers@[0];
    assert(c@ == runtime);
    assert(collections::views(c.env@) == runtime.env);
    assert(collections::views(c.env@)[0] == c.env@[0]@);
    assert(c.env@[0]@ == (SPEC_ENV@, Some(spec_json)));
}

/// The image that a specification names: its member `image`, where that is a
/// string.
pub open spec fn image_named(
    parsed: Result<Seq<(Seq<char>, JsonScalarView)>, Seq<char>>,
) -> Option<Seq<char>> {
    match parsed {
        Ok(members) => match json::member(members, "image"@) {
            Some(JsonScalarView::Text(s)) => Some(s),
            _ => None,
        },
        Err(_) => None,
    }
}

/// The image that a specification names, given what parsing it came to.
pub fn image_of(parsed: &Result<json::JsonObject, String>) -> (r: Option<String>)
    ensures
        collections::opt(r) == image_named(
            match *parsed {
                Ok(o) => Ok(o@),
                Err(e) => Err(e@),
            },
        ),
{
    match parsed {
        Ok(o) => match o.get("image") {
            Some(JsonScalar::Text(s)) => Some(s.clone()),
            _ => None,
        },
        Err(_) => None,
    }
}

/// The sandbox image, read from the runtime container's `MSB_SANDBOX_SPEC` env.
pub fn pod_image(pod: &Pod) -> (r: Option<String>)
    ensures
        collections::opt(r) == (match spec_text(*pod) {
            Some(t) => image_named(json::parsed_object(t)),
            None => None,
        }),
{
    let spec = match &pod.spec {
        Some(s) => s,
        None => {
            return None;
        },
    };
    let container = match find_container(&spec.containers, RUNTIME_CONTAINER) {
        Some(c) => c,
        None => {
            return None;
        },
    };
    let value = match find_env(&container.env, SPEC_ENV) {
        Some(e) => match &e.value {
            Some(v) => v,
            None => {
                return None;
            },
        },
        None => {
            return None;
        },
    };
    image_of(&json::parse_object(value.as_str()))
}

/// The marker that a pull leaves: that the image is in the cache, or why it is not.
pub fn after_pull(msb_home: &str, image: &str, pulled: Result<(), PullError>) -> (w: MarkerWrite)
    ensures
        match pulled {
            Ok(_) => marker::writes(
                w,
                paths::joined(msb_home@, "cache"@),
                image@,
                crate::cache::ready_path(paths::joined(msb_home@, "cache"@), image@),
                Seq::empty(),
            ),
            Err(e) => marker::writes(
                w,
                paths::joined(msb_home@, "cache"@),
                image@,
                crate::cache::failed_path(paths::joined(msb_home@, "cache"@), image@),
                crate::digest::utf8(pull::pull_error_text(e@)),
            ),
        },
{
    let cache_root = paths::join(msb_home, "cache");
    match pulled {
        Ok(_) => marker::write_ready(cache_root.as_str(), image),
        Err(e) => marker::write_failed(cache_root.as_str(), image, e.message().as_str()),
    }
}

/// The image to fetch is the one that the specification names first, wherever in it.
pub proof fn the_named_image_is_fetched(
    members: Seq<(Seq<char>, JsonScalarView)>,
    i: int,
    image: Seq<char>,
)
    requires
        0 <= i < members.len(),
        members[i].0 == "image"@,
        members[i].1 == JsonScalarView::Text(image),
        forall|k: int| 0 <= k < i ==> (#[trigger] members[k]).0 != "image"@,
    ensures
        image_named(Ok(members)) == Some(image),
{
    the_first_member_is_meant(members, i);
}

/// The first member of the name `image` is the one that counts.
proof fn the_first_member_is_meant(members: Seq<(Seq<char>, JsonScalarView)>, i: int)
    requires
        0 <= i < members.len(),
        members[i].0 == "image"@,
        forall|k: int| 0 <= k < i ==> (#[trigger] members[k]).0 != "image"@,
    ensures
        json::member(members, "image"@) == Some(members[i].1),
    decreases members.len(),
{
    if i > 0 {
        let rest = members.drop_first();
        assert forall|k: int| 0 <= k < i - 1 implies (#[trigger] rest[k]).0 != "image"@ by {
            assert(rest[k] == members[k + 1]);
        }
        the_first_member_is_meant(rest, i - 1);
    }
}

/// Nothing is fetched of a specification that cannot be read.
pub proof fn nothing_is_fetched_of_an_unreadable_one(error: Seq<char>)
    ensures
        image_named(Err(error)) is None,
{
}

} // verus!
