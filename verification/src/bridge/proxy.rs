//! What passes through a bridge connection, and the bridge's health endpoint.

use vstd::prelude::*;

use crate::text;

verus! {

/// A WebSocket message.
#[derive(Debug, PartialEq)]
pub enum Frame {
    Text(String),
    Binary(Vec<u8>),
    Ping(Vec<u8>),
    Pong(Vec<u8>),
    Close,
}

/// What a message from the client means for the other side.
#[derive(Debug, PartialEq)]
pub enum Forward {
    /// Write these bytes.
    Write(Vec<u8>),
    /// The client is done: stop.
    Stop,
    /// No data: go on.
    Skip,
}

/// Text and binary messages carry data, byte for byte; a close ends the
/// connection; pings and pongs are the transport's own.
pub fn forward(frame: Frame) -> (out: Forward)
    ensures
        match frame {
            Frame::Binary(data) => out matches Forward::Write(bytes) && bytes@ == data@,
            Frame::Text(t) => out matches Forward::Write(bytes) && bytes@
                == vstd::utf8::encode_utf8(t@),
            Frame::Close => out is Stop,
            Frame::Ping(_) | Frame::Pong(_) => out is Skip,
        },
{
    match frame {
        Frame::Binary(data) => Forward::Write(data),
        Frame::Text(t) => Forward::Write(t.as_str().as_bytes_vec()),
        Frame::Close => Forward::Stop,
        Frame::Ping(_) => Forward::Skip,
        Frame::Pong(_) => Forward::Skip,
    }
}

/// The reply to a health check: 200 once a connection has been served, else 503.
pub open spec fn health_reply(ready: bool) -> Seq<char> {
    let status = if ready {
        "200 OK"@
    } else {
        "503 Service Unavailable"@
    };
    let body = if ready {
        "ok"@
    } else {
        "not ready"@
    };
    "HTTP/1.1 "@ + status + "\r\ncontent-length: "@ + text::dec(
        vstd::utf8::encode_utf8(body).len(),
    ) + "\r\nconnection: close\r\n\r\n"@ + body
}

/// The reply to a health check.
pub fn health_response(ready: bool) -> (out: String)
    ensures
        out@ == health_reply(ready),
{
    let status = if ready {
        "200 OK"
    } else {
        "503 Service Unavailable"
    };
    let body = if ready {
        "ok"
    } else {
        "not ready"
    };
    let length = text::decimal(text::byte_len(body) as u64);
    "HTTP/1.1 ".to_owned().concat(status).concat("\r\ncontent-length: ").concat(
        length.as_str(),
    ).concat("\r\nconnection: close\r\n\r\n").concat(body)
}

/// A health check passes only once the bridge is ready: the reply begins with the status
/// line of success exactly then, and with that of unavailability before.
pub proof fn health_tells_readiness(ready: bool)
    ensures
        text::has_prefix(health_reply(ready), "HTTP/1.1 200 "@) <==> ready,
        text::has_prefix(health_reply(ready), "HTTP/1.1 503 "@) <==> !ready,
{
    reveal_strlit("HTTP/1.1 ");
    reveal_strlit("200 OK");
    reveal_strlit("503 Service Unavailable");
    reveal_strlit("HTTP/1.1 200 ");
    reveal_strlit("HTTP/1.1 503 ");
    assert("HTTP/1.1 200 "@.len() == 13);
    assert("HTTP/1.1 503 "@.len() == 13);
    let reply = health_reply(ready);
    assert(reply[9] == (if ready {
        '2'
    } else {
        '5'
    }));
    assert("HTTP/1.1 200 "@[9] == '2');
    assert("HTTP/1.1 503 "@[9] == '5');
    assert(reply.take(13)[9] == reply[9]);
    if ready {
        assert(reply.take(13) =~= "HTTP/1.1 200 "@);
    } else {
        assert(reply.take(13) =~= "HTTP/1.1 503 "@);
    }
}

} // verus!
