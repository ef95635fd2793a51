//! The exec path: the client's WebSocket and the bridge's are spliced into one
//! transparent byte pipe, forwarded untouched in both directions.

use vstd::prelude::*;

use crate::bridge::proxy;
use crate::bridge::proxy::{Forward, Frame};
use crate::gateway::error::{GatewayError, GatewayErrorView};
use crate::text;

verus! {

/// The limits of a session.
#[derive(Clone, Copy, Debug, PartialEq, Eq, Structural)]
pub struct SpliceConfig {
    /// The largest frame, and the largest message, in bytes.
    pub max_frame_bytes: usize,
    /// A backstop against sessions that never close, in seconds. An idle shell stays
    /// connected until it elapses. Without one there is no ceiling.
    pub max_session_secs: Option<u64>,
}

impl SpliceConfig {
    /// The limits of a session. A ceiling of 0 seconds is none.
    pub fn new(max_frame_bytes: usize, max_session_secs: u64) -> (c: SpliceConfig)
        ensures
            c.max_frame_bytes == max_frame_bytes,
            c.max_session_secs == (if max_session_secs > 0 {
                Some(max_session_secs)
            } else {
                None
            }),
    {
        SpliceConfig {
            max_frame_bytes,
            max_session_secs: if max_session_secs > 0 {
                Some(max_session_secs)
            } else {
                None
            },
        }
    }

    /// The largest message and the largest frame of either leg.
    pub fn ws_config(&self) -> (limits: (Option<usize>, Option<usize>))
        ensures
            limits == (Some(self.max_frame_bytes), Some(self.max_frame_bytes)),
    {
        (Some(self.max_frame_bytes), Some(self.max_frame_bytes))
    }
}

/// How long a session tries to reach the bridge, in seconds. It stays under the
/// client's own timeout.
pub const DIAL_DEADLINE_SECS: u64 = 8;

/// How long one attempt may take, in milliseconds. A Service without endpoints
/// swallows the attempt instead of refusing it.
pub const DIAL_ATTEMPT_MILLIS: u64 = 500;

/// The shortest pause between two attempts, in milliseconds.
pub const DIAL_MIN_DELAY_MILLIS: u64 = 20;

/// The longest pause between two attempts, in milliseconds.
pub const DIAL_MAX_DELAY_MILLIS: u64 = 500;

/// What a message, or the failure to receive one, means for the other leg.
pub fn splice(received: Result<Frame, String>) -> (out: Forward)
    ensures
        match received {
            Err(_) => out is Stop,
            Ok(Frame::Binary(data)) => out matches Forward::Write(bytes) && bytes@ == data@,
            Ok(Frame::Text(t)) => out matches Forward::Write(bytes) && bytes@
                == vstd::utf8::encode_utf8(t@),
            Ok(Frame::Close) => out is Stop,
            Ok(Frame::Ping(_)) | Ok(Frame::Pong(_)) => out is Skip,
        },
{
    match received {
        Ok(frame) => proxy::forward(frame),
        Err(_) => Forward::Stop,
    }
}

/// Why one attempt to dial the bridge failed.
#[derive(Debug, PartialEq)]
pub enum AttemptError {
    TimedOut,
    Connect(String),
}

/// What a failed attempt is reported as.
pub open spec fn attempt_text(e: AttemptError) -> Seq<char> {
    match e {
        AttemptError::TimedOut => "connect attempt timed out"@,
        AttemptError::Connect(s) => "connect: "@ + s@,
    }
}

/// The error of one attempt to dial the bridge.
pub fn attempt_failed(e: &AttemptError) -> (r: GatewayError)
    ensures
        r@ == GatewayErrorView::Bridge(attempt_text(*e)),
{
    match e {
        AttemptError::TimedOut => GatewayError::Bridge("connect attempt timed out".to_owned()),
        AttemptError::Connect(s) => GatewayError::Bridge("connect: ".to_owned().concat(s.as_str())),
    }
}

/// The error of a session that could not reach the bridge: the last attempt's, or
/// that the time for it was up.
pub fn dial_failed(bridge_url: &str, last: Option<GatewayError>) -> (r: GatewayError)
    ensures
        r@ == GatewayErrorView::Bridge(
            match last {
                Some(e) => "dial "@ + bridge_url@ + " failed: "@
                    + crate::gateway::error::message_of(e@),
                None => "dial "@ + bridge_url@ + " not ready within "@ + text::dec(
                    DIAL_DEADLINE_SECS as nat,
                ) + "s"@,
            },
        ),
{
    match last {
        Some(e) => GatewayError::Bridge(
            "dial ".to_owned().concat(bridge_url).concat(" failed: ").concat(
                e.message().as_str(),
            ),
        ),
        None => GatewayError::Bridge(
            "dial ".to_owned().concat(bridge_url).concat(" not ready within ").concat(
                text::decimal(DIAL_DEADLINE_SECS).as_str(),
            ).concat("s"),
        ),
    }
}

/// The status of a refusal because a caller holds too many sessions.
pub const TOO_MANY_SESSIONS_STATUS: u16 = 429;

pub const TOO_MANY_SESSIONS_CODE: &'static str = "too_many_sessions";

pub const TOO_MANY_SESSIONS_TEXT: &'static str =
    "per-identity concurrent exec-session limit reached";

/// The bytes that a run of messages forwards, up to the one that ends the session.
pub open spec fn piped(frames: Seq<Frame>) -> Seq<u8>
    decreases frames.len(),
{
    if frames.len() == 0 {
        Seq::empty()
    } else {
        match frames[0] {
            Frame::Binary(data) => data@ + piped(frames.drop_first()),
            Frame::Text(t) => vstd::utf8::encode_utf8(t@) + piped(frames.drop_first()),
            Frame::Close => Seq::empty(),
            Frame::Ping(_) | Frame::Pong(_) => piped(frames.drop_first()),
        }
    }
}

/// How the bytes are cut into binary messages is of no account: what comes before
/// the first close is forwarded verbatim, one message after the other.
pub proof fn splitting_a_message_changes_nothing(
    front: Frame,
    back: Frame,
    whole: Frame,
    rest: Seq<Frame>,
)
    requires
        front is Binary,
        back is Binary,
        whole is Binary,
        whole->Binary_0@ == front->Binary_0@ + back->Binary_0@,
    ensures
        piped(seq![front, back] + rest) == piped(seq![whole] + rest),
{
    let a = seq![front, back] + rest;
    let b = seq![whole] + rest;
    assert(a.drop_first() =~= seq![back] + rest);
    assert(a.drop_first().drop_first() =~= rest);
    assert(b.drop_first() =~= rest);
    assert(piped(a.drop_first()) == back->Binary_0@ + piped(rest));
    assert(piped(a) =~= front->Binary_0@ + (back->Binary_0@ + piped(rest)));
    assert(piped(b) =~= whole->Binary_0@ + piped(rest));
    assert(front->Binary_0@ + (back->Binary_0@ + piped(rest)) =~= (front->Binary_0@
        + back->Binary_0@) + piped(rest));
}

} // verus!
