//! From a sandbox to the WebSocket endpoint of its bridge, read off its status.

use vstd::prelude::*;

use crate::collections;
use crate::gateway::error::{GatewayError, GatewayErrorView};
use crate::sandbox::{Sandbox, SandboxPhase};
use crate::text;

verus! {

pub const BRIDGE_PORT: u16 = 7000;

/// Where the bridge of a sandbox is dialed.
#[derive(Debug, PartialEq)]
pub struct BridgeTarget {
    pub url: String,
}

impl View for BridgeTarget {
    type V = Seq<char>;

    open spec fn view(&self) -> Seq<char> {
        self.url@
    }
}

/// The address of a bridge inside the cluster.
pub open spec fn bridge_url_of(service_name: Seq<char>, namespace: Seq<char>) -> Seq<char> {
    "ws://"@ + service_name + "."@ + namespace + ".svc.cluster.local:"@ + text::dec(
        BRIDGE_PORT as nat,
    ) + "/"@
}

/// The address of a bridge inside the cluster. The hop stays in the cluster, so it
/// is in plain text; the gateway's own listener is where clients meet TLS.
pub fn bridge_url(service_name: &str, namespace: &str) -> (out: String)
    ensures
        out@ == bridge_url_of(service_name@, namespace@),
{
    "ws://".to_owned().concat(service_name).concat(".").concat(namespace).concat(
        ".svc.cluster.local:",
    ).concat(text::decimal(BRIDGE_PORT as u64).as_str()).concat("/")
}

/// Where the bridge of a sandbox is dialed: only a running sandbox whose Service is
/// known has one.
pub open spec fn target_of(sandbox: Sandbox, namespace: Seq<char>, name: Seq<char>) -> Result<
    Seq<char>,
    GatewayErrorView,
> {
    match sandbox.status {
        Some(s) => if s.phase == Some(SandboxPhase::Running) && s.service_name is Some {
            Ok(bridge_url_of(s.service_name->0@, namespace))
        } else {
            Err(GatewayErrorView::NotReady(name))
        },
        None => Err(GatewayErrorView::NotReady(name)),
    }
}

/// Where the bridge of a sandbox is dialed.
pub fn target_from_sandbox(sandbox: &Sandbox, namespace: &str, name: &str) -> (r: Result<
    BridgeTarget,
    GatewayError,
>)
    ensures
        collections::res(r) == target_of(*sandbox, namespace@, name@),
{
    let status = match &sandbox.status {
        Some(s) => s,
        None => {
            return Err(GatewayError::NotReady(name.to_owned()));
        },
    };
    if !matches!(status.phase, Some(SandboxPhase::Running)) {
        return Err(GatewayError::NotReady(name.to_owned()));
    }
    match &status.service_name {
        Some(service_name) => Ok(BridgeTarget { url: bridge_url(service_name.as_str(), namespace) }),
        None => Err(GatewayError::NotReady(name.to_owned())),
    }
}

/// Where the bridge of the sandbox that a lookup found is dialed.
pub fn resolve(found: Option<&Sandbox>, namespace: &str, name: &str) -> (r: Result<
    BridgeTarget,
    GatewayError,
>)
    ensures
        collections::res(r) == (match found {
            Some(sb) => target_of(*sb, namespace@, name@),
            None => Err(GatewayErrorView::NotFound(name@)),
        }),
{
    match found {
        Some(sb) => target_from_sandbox(sb, namespace, name),
        None => Err(GatewayError::NotFound(name.to_owned())),
    }
}

} // verus!
