//! Creating a sandbox, and waiting for it to run.
//!
//! The outcomes: running (or done) within the budget, the sandbox is returned;
//! failed, or not running within the budget, it is deleted again and the request is
//! refused; a name that is taken is a conflict.

use vstd::prelude::*;

use crate::collections;
use crate::gateway::convert;
use crate::gateway::convert::SpecMapping;
use crate::gateway::error::{GatewayError, GatewayErrorView};
use crate::gateway::wire::{
    CloudCreateSandboxRequest, CloudCreateSandboxResponse, CloudSandboxStatus,
};
use crate::k8s;
use crate::k8s::{ApiError, ObjectMeta, ObjectMetaView};
use crate::sandbox::{Sandbox, SandboxPhase};
use crate::text;

verus! {

/// Pause between two looks at a sandbox that is coming up, in milliseconds.
pub const POLL_MILLIS: u64 = 500;

/// The metadata of a sandbox that the gateway makes.
pub open spec fn new_meta(
    name: Seq<char>,
    namespace: Seq<char>,
    labels: Map<Seq<char>, Seq<char>>,
    annotations: Map<Seq<char>, Seq<char>>,
) -> ObjectMetaView {
    ObjectMetaView {
        name: Some(name),
        namespace: Some(namespace),
        labels,
        annotations,
        ..k8s::empty_meta()
    }
}

/// The sandbox that a create request asks for, in the caller's namespace; or why the
/// request is refused.
pub fn new_sandbox(req: &CloudCreateSandboxRequest, namespace: &str) -> (r: Result<
    Sandbox,
    GatewayError,
>)
    ensures
        r is Ok <==> convert::refusal(*req) is None,
        r matches Err(e) ==> convert::refusal(*req) == Some(e@),
        r matches Ok(sb) ==> {
            &&& convert::spec_matches(sb.spec, *req, req.image->reference@)
            &&& sb.metadata@ == new_meta(
                req.name@,
                namespace@,
                convert::labels_of(req.labels@),
                convert::annotations_of(*req),
            )
            &&& sb.status is None
        },
{
    let SpecMapping { spec, labels, annotations } = match convert::request_to_spec(req) {
        Ok(m) => m,
        Err(e) => {
            return Err(e);
        },
    };
    let metadata = ObjectMeta {
        name: Some(req.name.clone()),
        namespace: Some(namespace.to_owned()),
        labels,
        annotations,
        ..ObjectMeta::default()
    };
    assert(metadata@ =~= new_meta(
        req.name@,
        namespace@,
        convert::labels_of(req.labels@),
        convert::annotations_of(*req),
    ));
    Ok(Sandbox { metadata, spec, status: None })
}

/// What a client is told of a sandbox just made is what it asked for: its name, and
/// whether it is ephemeral. It is created, and has neither started nor failed.
pub proof fn new_sandbox_is_told_as_asked(
    req: CloudCreateSandboxRequest,
    namespace: Seq<char>,
    sb: Sandbox,
    told: CloudCreateSandboxResponse,
)
    requires
        convert::spec_matches(sb.spec, req, req.image->reference@),
        sb.metadata@ == new_meta(
            req.name@,
            namespace,
            convert::labels_of(req.labels@),
            convert::annotations_of(req),
        ),
        sb.status is None,
        convert::tells(told, sb),
    ensures
        told.name@ == req.name@,
        told.id@ == req.name@,
        told.slug@ == req.name@,
        told.ephemeral == req.lifecycle.ephemeral,
        told.status == CloudSandboxStatus::Created,
        told.started_at is None,
        told.stopped_at is None,
        told.last_failure_message is None,
{
    let meta = sb.metadata@;
    assert(meta.name == collections::opt(sb.metadata.name));
    assert(meta.deletion_timestamp is None);
    assert(collections::opt(told.started_at) is None);
    assert(collections::opt(told.stopped_at) is None);
    assert(collections::opt(told.last_failure_message) is None);
}

/// Why a creation failed: a conflict is a name that is taken.
pub fn create_failed(name: &str, e: ApiError) -> (r: GatewayError)
    ensures
        r@ == (if e.code == Some(409u16) {
            GatewayErrorView::AlreadyExists(name@)
        } else {
            GatewayErrorView::Kube(e.message@)
        }),
{
    if matches!(e.code, Some(409)) {
        GatewayError::AlreadyExists(name.to_owned())
    } else {
        GatewayError::Kube(e)
    }
}

/// What comes of a look at a sandbox that is coming up.
#[derive(Debug, PartialEq)]
pub enum CreateStep {
    /// It runs, or has run: answer the request with it.
    Respond(CloudCreateSandboxResponse),
    /// Delete it, and refuse the request.
    Abandon(GatewayError),
    /// Look again after [`POLL_MILLIS`].
    Wait,
}

/// Why a sandbox that failed is given up.
pub open spec fn failed_text(name: Seq<char>, sb: Sandbox) -> Seq<char> {
    "sandbox "@ + name + " reached Failed before Running: "@ + (match sb.status {
        Some(s) => match s.termination_reason {
            Some(r) => r.label(),
            None => "sandbox failed"@,
        },
        None => "sandbox failed"@,
    })
}

/// Why a sandbox that takes too long is given up.
pub open spec fn slow_text(name: Seq<char>, timeout_secs: u64) -> Seq<char> {
    "sandbox "@ + name + " did not reach Running within "@ + text::dec(timeout_secs as nat)
        + "s \u{2014} raise the SDK request_timeout and retry, or the image is slow to boot"@
}

/// What comes of a look at a sandbox that is coming up. What it is comes before how
/// long it took: one that runs is returned even at the deadline.
pub fn create_poll(sb: &Sandbox, name: &str, past_deadline: bool, timeout_secs: u64) -> (step:
    CreateStep)
    ensures
        sb.phase() == Some(SandboxPhase::Running) || sb.phase() == Some(SandboxPhase::Succeeded)
            ==> (step matches CreateStep::Respond(r) && convert::tells(r, *sb)),
        sb.phase() == Some(SandboxPhase::Failed) ==> (step matches CreateStep::Abandon(e) && e@
            == GatewayErrorView::InvalidRequest(failed_text(name@, *sb))),
        sb.phase() is None || sb.phase() == Some(SandboxPhase::Pending) || sb.phase() == Some(
            SandboxPhase::Stopped,
        ) ==> if past_deadline {
            step matches CreateStep::Abandon(e) && e@ == GatewayErrorView::InvalidRequest(
                slow_text(name@, timeout_secs),
            )
        } else {
            step is Wait
        },
{
    match sb.recorded_phase() {
        Some(SandboxPhase::Running) => {
            return CreateStep::Respond(convert::sandbox_to_cloud(sb));
        },
        Some(SandboxPhase::Succeeded) => {
            return CreateStep::Respond(convert::sandbox_to_cloud(sb));
        },
        Some(SandboxPhase::Failed) => {
            let reason = match &sb.status {
                Some(s) => match &s.termination_reason {
                    Some(r) => r.name(),
                    None => "sandbox failed",
                },
                None => "sandbox failed",
            };
            return CreateStep::Abandon(
                GatewayError::InvalidRequest(
                    "sandbox ".to_owned().concat(name).concat(
                        " reached Failed before Running: ",
                    ).concat(reason),
                ),
            );
        },
        _ => {},
    }
    if past_deadline {
        return CreateStep::Abandon(
            GatewayError::InvalidRequest(
                "sandbox ".to_owned().concat(name).concat(" did not reach Running within ").concat(
                    text::decimal(timeout_secs).as_str(),
                ).concat(
                    "s \u{2014} raise the SDK request_timeout and retry, or the image is slow to boot",
                ),
            ),
        );
    }
    CreateStep::Wait
}

} // verus!
