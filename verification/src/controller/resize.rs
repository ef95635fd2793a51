//! Applying a `spec.cpus`/`spec.memory` edit to a running sandbox: live, over the
//! bridge's `/control` relay, when the new value fits inside the booted max
//! envelope, otherwise with a restart.

use vstd::prelude::*;

use crate::json;
use crate::json::{JsonObject, JsonScalar, JsonScalarView};
use crate::sandbox::SandboxSpec;
use crate::text;

verus! {

/// Whether hotplug headroom may have been reserved at boot for vCPUs. Unset, the
/// VM booted with no hotplug capacity and no control listener, so a change needs
/// a restart. When set, the control socket is the authority: a change it cannot
/// honor is rejected there.
pub fn cpus_have_headroom(spec: &SandboxSpec) -> (r: bool)
    ensures
        r == spec.max_cpus is Some,
{
    spec.max_cpus.is_some()
}

/// Whether hotplug headroom may have been reserved at boot for memory.
pub fn memory_has_headroom(spec: &SandboxSpec) -> (r: bool)
    ensures
        r == spec.max_memory is Some,
{
    spec.max_memory.is_some()
}

/// Why a resize was not applied.
#[derive(Debug, PartialEq)]
pub enum ResizeError {
    /// The request did not get through.
    Request { url: String, source: String },
    /// The bridge answered with a status other than success. `status` is the code
    /// and its reason phrase.
    BridgeStatus { url: String, status: String, body: String },
    /// The control socket refused the request.
    ControlRejected(String),
    /// The reply is no JSON.
    InvalidReply(String),
}

/// What a resize error says.
pub open spec fn resize_error_text(e: ResizeError) -> Seq<char> {
    match e {
        ResizeError::Request { url, source } => "POSTing to "@ + url@ + ": "@ + source@,
        ResizeError::BridgeStatus { url, status, body } => "bridge returned "@ + status@ + " from "@
            + url@ + ": "@ + body@,
        ResizeError::ControlRejected(error) => "control socket rejected the request: "@ + error@,
        ResizeError::InvalidReply(source) => "parsing the control reply: "@ + source@,
    }
}

impl ResizeError {
    /// The error in words.
    pub fn message(&self) -> (out: String)
        ensures
            out@ == resize_error_text(*self),
    {
        match self {
            ResizeError::Request { url, source } => "POSTing to ".to_owned().concat(
                url.as_str(),
            ).concat(": ").concat(source.as_str()),
            ResizeError::BridgeStatus { url, status, body } => "bridge returned ".to_owned().concat(
                status.as_str(),
            ).concat(" from ").concat(url.as_str()).concat(": ").concat(body.as_str()),
            ResizeError::ControlRejected(
                error,
            ) => "control socket rejected the request: ".to_owned().concat(error.as_str()),
            ResizeError::InvalidReply(
                source,
            ) => "parsing the control reply: ".to_owned().concat(source.as_str()),
        }
    }
}

/// The control endpoint of a sandbox's bridge.
pub open spec fn control_url_of(
    service_name: Seq<char>,
    namespace: Seq<char>,
    control_port: i32,
) -> Seq<char> {
    "http://"@ + service_name + "."@ + namespace + ".svc:"@ + text::dec_int(control_port as int)
        + "/control"@
}

/// Base URL for a sandbox's bridge control endpoint, reached through the
/// per-sandbox Service, the stable address across a resize.
pub fn control_url(service_name: &str, namespace: &str, control_port: i32) -> (out: String)
    ensures
        out@ == control_url_of(service_name@, namespace@, control_port),
{
    "http://".to_owned().concat(service_name).concat(".").concat(namespace).concat(".svc:").concat(
        text::decimal_signed(control_port as i64).as_str(),
    ).concat("/control")
}

/// What a control reply means: success where its `ok` is true, else the `error`
/// that it gives, if it gives one.
pub open spec fn reply_outcome(members: Seq<(Seq<char>, JsonScalarView)>) -> Result<(), Seq<char>> {
    if json::member(members, "ok"@) == Some(JsonScalarView::Bool(true)) {
        Ok(())
    } else {
        Err(
            match json::member(members, "error"@) {
                Some(JsonScalarView::Text(s)) => s,
                _ => "unknown control error"@,
            },
        )
    }
}

/// Reads a parsed control reply. A reply that is no object has no members.
pub fn read_reply(reply: &JsonObject) -> (r: Result<(), ResizeError>)
    ensures
        r is Ok <==> reply_outcome(reply@) is Ok,
        r matches Err(e) ==> (e matches ResizeError::ControlRejected(s) && reply_outcome(reply@)
            == Err::<(), Seq<char>>(s@)),
{
    if let Some(JsonScalar::Bool(true)) = reply.get("ok") {
        return Ok(());
    }
    let error = match reply.get("error") {
        Some(JsonScalar::Text(s)) => s.clone(),
        _ => "unknown control error".to_owned(),
    };
    Err(ResizeError::ControlRejected(error))
}

/// What the bridge's answer to a control request means: an error where its status
/// is no success, where its body is no JSON, and where the control socket refused
/// the request.
pub fn read_answer(url: &str, success: bool, status: String, body: String) -> (r: Result<
    (),
    ResizeError,
>)
    ensures
        !success ==> (r matches Err(ResizeError::BridgeStatus { url: u, status: s, body: b }) && u@
            == url@ && s@ == status@ && b@ == body@),
        success && json::parsed_object(body@) is Err ==> (r matches Err(
            ResizeError::InvalidReply(source),
        ) && source@ == json::parsed_object(body@)->Err_0),
        success && json::parsed_object(body@) is Ok ==> {
            let outcome = reply_outcome(json::parsed_object(body@)->Ok_0);
            &&& r is Ok <==> outcome is Ok
            &&& r matches Err(e) ==> (e matches ResizeError::ControlRejected(s) && outcome == Err::<
                (),
                Seq<char>,
            >(s@))
        },
{
    if !success {
        return Err(ResizeError::BridgeStatus { url: url.to_owned(), status, body });
    }
    match json::parse_object(body.as_str()) {
        Ok(reply) => read_reply(&reply),
        Err(source) => Err(ResizeError::InvalidReply(source)),
    }
}

/// The request to bring this many vCPUs online, as JSON.
pub open spec fn cpu_request_text(online: u32) -> Seq<char> {
    "{\"online\":"@ + text::dec(online as nat) + ",\"op\":\"cpu_target\"}"@
}

/// The request to bring this many vCPUs online, as JSON.
pub fn cpu_target_request(online: u32) -> (out: String)
    ensures
        out@ == cpu_request_text(online),
{
    "{\"online\":".to_owned().concat(text::decimal(online as u64).as_str()).concat(
        ",\"op\":\"cpu_target\"}",
    )
}

/// The request to bring the guest's memory to this many MiB, as JSON.
pub open spec fn memory_request_text(total_mib: u32) -> Seq<char> {
    "{\"op\":\"memory_target\",\"total_mib\":"@ + text::dec(total_mib as nat) + "}"@
}

/// The request to bring the guest's memory to this many MiB, as JSON.
pub fn memory_target_request(total_mib: u32) -> (out: String)
    ensures
        out@ == memory_request_text(total_mib),
{
    "{\"op\":\"memory_target\",\"total_mib\":".to_owned().concat(
        text::decimal(total_mib as u64).as_str(),
    ).concat("}")
}

} // verus!
