//! The sandbox's agent relay socket and control socket.

use vstd::prelude::*;

use crate::controller::config;
use crate::controller::config::{Adjustment, ControllerConfigView, MSB_HOME_MAX_BYTES};
use crate::digest;
use crate::paths;
use crate::text;

verus! {

/// How long a dial waits before it tries again, in milliseconds.
pub const DIAL_RETRY_MILLIS: u64 = 200;

/// The bytes that a Unix socket address has for its path.
pub const SUN_PATH_BYTES: usize = 108;

/// The name of the relay socket: the first 16 bytes of the digest of the
/// sandbox name, in hexadecimal.
pub open spec fn socket_hash(sandbox_name: Seq<char>) -> Seq<char> {
    digest::text_digest(sandbox_name).take(32)
}

/// Where the relay socket of the given hash is: `$MSB_HOME/run/agent/<hash>.sock`.
pub open spec fn hashed_socket(msb_home: Seq<char>, hash: Seq<char>) -> Seq<char> {
    paths::joined(
        paths::joined(paths::joined(msb_home, "run"@), "agent"@),
        hash + ".sock"@,
    )
}

/// Where the relay socket of a sandbox is.
pub open spec fn agent_socket(msb_home: Seq<char>, sandbox_name: Seq<char>) -> Seq<char> {
    hashed_socket(msb_home, socket_hash(sandbox_name))
}

/// The first 16 bytes of the digest of `name`, as 32 hexadecimal digits.
pub fn short_hash(name: &str) -> (out: String)
    ensures
        out@ == socket_hash(name@),
        out@.len() == 32,
        forall|i: int| 0 <= i < 32 ==> digest::is_hex(#[trigger] out@[i]),
{
    let full = digest::sha256_hex(name);
    let out = full.as_str().substring_char(0, 32).to_owned();
    assert forall|i: int| 0 <= i < 32 implies digest::is_hex(#[trigger] out@[i]) by {
        assert(digest::is_hex(full@[i]));
    }
    out
}

/// The separator between a base path and what goes under it.
pub open spec fn separator(base: Seq<char>) -> Seq<char> {
    if base.len() == 0 || base.last() == '/' {
        Seq::empty()
    } else {
        seq!['/']
    }
}

/// The relay socket path for a sandbox, by the scheme that msb itself uses to
/// create it. Under a home of at most [`MSB_HOME_MAX_BYTES`] it fits a Unix
/// socket address.
pub fn socket_path(msb_home: &str, sandbox_name: &str) -> (out: String)
    ensures
        out@ == agent_socket(msb_home@, sandbox_name@),
        out@ == msb_home@ + separator(msb_home@) + "run/agent/"@ + socket_hash(sandbox_name@)
            + ".sock"@,
        socket_hash(sandbox_name@).len() == 32,
        digest::utf8(msb_home@).len() <= MSB_HOME_MAX_BYTES ==> digest::utf8(out@).len()
            < SUN_PATH_BYTES,
{
    let hash = short_hash(sandbox_name);
    proof {
        socket_path_shape(msb_home@, hash@);
    }
    let run = paths::join(msb_home, "run");
    let agent = paths::join(run.as_str(), "agent");
    paths::join(agent.as_str(), hash.concat(".sock").as_str())
}

/// The control socket path for a given agent socket path: `<sandbox>.sock`
/// becomes `<sandbox>.control.sock`.
pub fn control_socket_path(agent_sock: &str) -> (out: String)
    ensures
        out@ == paths::path_with_extension(agent_sock@, "control.sock"@),
        paths::names_a_file(agent_sock@) ==> out@ == paths::without_extension(agent_sock@).push('.')
            + "control.sock"@,
{
    proof {
        reveal_strlit("control.sock");
    }
    paths::with_extension(agent_sock, "control.sock")
}

/// What a failed attempt to dial the socket leads to.
#[derive(Clone, Copy, Debug, PartialEq, Eq, Structural)]
pub enum DialStep {
    /// Wait this many milliseconds, then try again.
    RetryAfter(u64),
    /// Give up and report the failure.
    Fail,
}

/// A dial that failed is retried until the deadline: msb creates the socket
/// shortly after boot. Times are milliseconds on one clock.
pub fn dial_failed(now: u64, deadline: u64) -> (step: DialStep)
    ensures
        step == (if now < deadline {
            DialStep::RetryAfter(DIAL_RETRY_MILLIS)
        } else {
            DialStep::Fail
        }),
{
    if now < deadline {
        DialStep::RetryAfter(DIAL_RETRY_MILLIS)
    } else {
        DialStep::Fail
    }
}

/// What a relay socket path is made of: the home, a separator where the home
/// does not end in one, and 47 characters of ASCII.
proof fn socket_path_shape(msb_home: Seq<char>, hash: Seq<char>)
    requires
        hash.len() == 32,
        forall|i: int| 0 <= i < 32 ==> digest::is_hex(#[trigger] hash[i]),
    ensures
        ({
            let path = hashed_socket(msb_home, hash);
            &&& path == msb_home + separator(msb_home) + "run/agent/"@ + hash + ".sock"@
            &&& digest::utf8(path).len() <= digest::utf8(msb_home).len() + 48
        }),
{
    reveal_strlit("run");
    reveal_strlit("agent");
    reveal_strlit("run/agent/");
    reveal_strlit(".sock");
    let file = hash + ".sock"@;
    assert(digest::is_hex(hash[0]));
    assert(file[0] == hash[0]);
    let a = paths::joined(msb_home, "run"@);
    assert(a.last() == 'n');
    let b = paths::joined(a, "agent"@);
    assert(b == a.push('/') + "agent"@);
    assert(b.last() == 't');
    assert(paths::joined(b, file) == b.push('/') + file);
    assert(a =~= msb_home + separator(msb_home) + "run"@);
    let rest = separator(msb_home) + "run/agent/"@ + hash + ".sock"@;
    assert(rest.len() <= 48);
    assert forall|i: int| 0 <= i < rest.len() implies '\0' <= #[trigger] rest[i] <= '\u{7f}' by {
        let k = i - separator(msb_home).len() - 10;
        if 0 <= k < 32 {
            assert(rest[i] == hash[k]);
            assert(digest::is_hex(hash[k]));
        }
    }
    text::utf8_ascii_len(rest);
    text::utf8_concat(msb_home, rest);
    assert(paths::joined(b, file) =~= msb_home + rest);
    assert(msb_home + rest =~= msb_home + separator(msb_home) + "run/agent/"@ + hash + ".sock"@);
}

/// Under the home of settings that were accepted, however they are adjusted and copied,
/// every relay socket fits its address: whatever the sandbox, its hash is 32 digits.
pub proof fn every_relay_socket_fits(
    cfg: ControllerConfigView,
    by: Seq<Adjustment>,
    hash: Seq<char>,
)
    requires
        config::valid_home(cfg.msb_home),
        hash.len() == 32,
        forall|i: int| 0 <= i < 32 ==> digest::is_hex(#[trigger] hash[i]),
    ensures
        digest::utf8(hashed_socket(config::all_adjusted(cfg, by).msb_home, hash)).len()
            < SUN_PATH_BYTES,
{
    config::the_home_is_kept(cfg, by);
    socket_path_shape(cfg.msb_home, hash);
}

/// The bridge dials the socket that is named by half of the digest of the sandbox's name,
/// its first, in the home's directory of agents.
pub proof fn the_socket_is_named_by_half_the_digest(msb_home: Seq<char>, sandbox_name: Seq<char>)
    ensures
        digest::text_digest(sandbox_name).len() == 64 ==> {
            &&& socket_hash(sandbox_name).len() == 32
            &&& text::has_prefix(digest::text_digest(sandbox_name), socket_hash(sandbox_name))
        },
        text::has_suffix(
            agent_socket(msb_home, sandbox_name),
            socket_hash(sandbox_name) + ".sock"@,
        ),
{
    let hash = socket_hash(sandbox_name);
    let path = agent_socket(msb_home, sandbox_name);
    let tail = hash + ".sock"@;
    if digest::text_digest(sandbox_name).len() == 64 {
        assert(digest::text_digest(sandbox_name).take(32) =~= hash);
    }
    assert(path.skip(path.len() - tail.len()) =~= tail);
}

} // verus!
