//! Streaming a sandbox's console log as server-sent events.

use vstd::prelude::*;

use crate::collections;
use crate::gateway::error::{GatewayError, GatewayErrorView};
use crate::json;
use crate::runtime::console_log;
use crate::sandbox::Sandbox;
use crate::time;
use crate::time::WireTime;

verus! {

/// A line of the console log.
#[derive(Debug, PartialEq)]
pub struct ConsoleLogLine {
    pub source: String,
    pub ts: WireTime,
    pub text: String,
}

/// The event of a line of the console log: one `data` field that holds the line, as
/// the console log writes it.
pub open spec fn event_text(source: Seq<char>, ts: Seq<char>, text: Seq<char>) -> Seq<char> {
    "event: log\ndata: "@ + console_log::line_text(source, ts, text) + "\n\n"@
}

/// The event of a line of the console log.
pub fn log_event(line: &ConsoleLogLine) -> (out: String)
    ensures
        out@ == event_text(line.source@, time::wire_text(line.ts@.0, line.ts@.1)->0, line.text@),
{
    let data = console_log::write_line(line.source.as_str(), &line.ts, line.text.as_str());
    "event: log\ndata: ".to_owned().concat(data.as_str()).concat("\n\n")
}

/// Whatever a line holds, its event ends where its blank line is: the `data` field
/// before it is on one line.
pub proof fn an_event_has_one_data_line(source: Seq<char>, ts: Seq<char>, text: Seq<char>)
    ensures
        ({
            let head = "event: log\ndata: "@.len() as int;
            let e = event_text(source, ts, text);
            &&& e.take(e.len() - 2).skip(head) == console_log::line_text(source, ts, text)
            &&& json::one_line(e.take(e.len() - 2).skip(head))
            &&& e.skip(e.len() - 2) == "\n\n"@
        }),
{
    reveal_strlit("\n\n");
    console_log::a_log_line_is_one_line(source, ts, text);
    let head = "event: log\ndata: "@.len() as int;
    let e = event_text(source, ts, text);
    let line = console_log::line_text(source, ts, text);
    assert(e.take(e.len() - 2).skip(head) =~= line);
    assert(e.skip(e.len() - 2) =~= "\n\n"@);
}

/// The block that ends the client's parse loop.
pub fn end_event() -> (s: &'static str)
    ensures
        s@ == "event: end\n\n"@,
{
    "event: end\n\n"
}

/// What comes next of a container's log.
#[derive(Debug, PartialEq)]
pub enum LogItem {
    /// A line of the console.
    Line(ConsoleLogLine),
    /// A line that is none of the console's.
    Malformed,
    /// The log is over.
    End,
}

/// What the stream does with an item: it sends a frame, where there is one, and is
/// finished or goes on.
#[derive(Debug, PartialEq)]
pub struct SseStep {
    pub frame: Option<String>,
    pub finished: bool,
}

/// The frame of an item. A malformed line has none.
pub open spec fn frame_of(item: LogItem) -> Option<Seq<char>> {
    match item {
        LogItem::Line(line) => Some(
            event_text(line.source@, time::wire_text(line.ts@.0, line.ts@.1)->0, line.text@),
        ),
        LogItem::Malformed => None,
        LogItem::End => Some("event: end\n\n"@),
    }
}

/// What the stream does with what comes next of a container's log. A malformed line is
/// skipped, not fatal: the log can splice partial lines around a container restart.
/// The end of the log is told to the client, and is the end of the stream.
pub fn sse_step(item: &LogItem) -> (step: SseStep)
    ensures
        collections::opt(step.frame) == frame_of(*item),
        step.finished == (*item is End),
{
    match item {
        LogItem::Line(line) => SseStep { frame: Some(log_event(line)), finished: false },
        LogItem::Malformed => SseStep { frame: None, finished: false },
        LogItem::End => SseStep { frame: Some(end_event().to_owned()), finished: true },
    }
}

/// The frames that a stream sends, up to the item that finishes it.
pub open spec fn frames(items: Seq<LogItem>) -> Seq<Seq<char>>
    decreases items.len(),
{
    if items.len() == 0 {
        Seq::empty()
    } else {
        let head = match frame_of(items[0]) {
            Some(f) => seq![f],
            None => Seq::empty(),
        };
        if items[0] is End {
            head
        } else {
            head + frames(items.drop_first())
        }
    }
}

/// The events of the lines among some items, in order.
pub open spec fn log_events(items: Seq<LogItem>) -> Seq<Seq<char>>
    decreases items.len(),
{
    if items.len() == 0 {
        Seq::empty()
    } else if items[0] is Line {
        seq![frame_of(items[0])->0] + log_events(items.drop_first())
    } else {
        log_events(items.drop_first())
    }
}

/// A log of lines is streamed as the events of its well-formed lines, in order, and
/// one closing frame, which comes last. Whatever would follow is not sent.
pub proof fn a_stream_is_its_lines_and_one_end(lines: Seq<LogItem>, rest: Seq<LogItem>)
    requires
        forall|i: int| 0 <= i < lines.len() ==> !((#[trigger] lines[i]) is End),
    ensures
        frames(lines + seq![LogItem::End] + rest) == log_events(lines).push("event: end\n\n"@),
        forall|i: int|
            0 <= i < log_events(lines).len() ==> #[trigger] log_events(lines)[i]
                != "event: end\n\n"@,
    decreases lines.len(),
{
    let all = lines + seq![LogItem::End] + rest;
    if lines.len() == 0 {
        assert(all[0] == LogItem::End);
        assert(frames(all) =~= log_events(lines).push("event: end\n\n"@));
    } else {
        let t = lines.drop_first();
        assert forall|i: int| 0 <= i < t.len() implies !((#[trigger] t[i]) is End) by {
            assert(t[i] == lines[i + 1]);
        }
        a_stream_is_its_lines_and_one_end(t, rest);
        assert(all[0] == lines[0]);
        assert(!(lines[0] is End));
        assert(all.drop_first() =~= t + seq![LogItem::End] + rest);
        assert(frames(all) =~= log_events(lines).push("event: end\n\n"@));
        if let LogItem::Line(line) = lines[0] {
            log_event_is_no_end(
                line.source@,
                time::wire_text(line.ts@.0, line.ts@.1)->0,
                line.text@,
            );
            assert forall|i: int| 0 <= i < log_events(lines).len() implies #[trigger] log_events(
                lines,
            )[i] != "event: end\n\n"@ by {
                if i > 0 {
                    assert(log_events(lines)[i] == log_events(t)[i - 1]);
                }
            }
        }
    }
}

/// The event of a line is not the closing frame.
proof fn log_event_is_no_end(source: Seq<char>, ts: Seq<char>, text: Seq<char>)
    ensures
        event_text(source, ts, text) != "event: end\n\n"@,
{
    reveal_strlit("event: log\ndata: ");
    reveal_strlit("event: end\n\n");
    assert(event_text(source, ts, text)[7] == 'l');
    assert("event: end\n\n"@[7] == 'e');
}

/// The pod whose log is streamed for a sandbox: one that captures its console and
/// has a pod.
pub open spec fn log_pod(sandbox: Sandbox, name: Seq<char>) -> Result<
    Seq<char>,
    GatewayErrorView,
> {
    if !sandbox.spec.logging.guest_console {
        Err(
            GatewayErrorView::NotReady(
                "sandbox "@ + name + " does not have spec.logging.guestConsole enabled"@,
            ),
        )
    } else {
        match sandbox.status {
            Some(s) => match s.pod_name {
                Some(p) => Ok(p@),
                None => Err(GatewayErrorView::NotReady(name)),
            },
            None => Err(GatewayErrorView::NotReady(name)),
        }
    }
}

/// The pod whose log is streamed for the sandbox that a lookup found.
pub fn logs_target(found: Option<&Sandbox>, name: &str) -> (r: Result<String, GatewayError>)
    ensures
        collections::res(r) == (match found {
            Some(sb) => log_pod(*sb, name@),
            None => Err(GatewayErrorView::NotFound(name@)),
        }),
{
    let sandbox = match found {
        Some(sb) => sb,
        None => {
            return Err(GatewayError::NotFound(name.to_owned()));
        },
    };
    if !sandbox.spec.logging.guest_console {
        return Err(
            GatewayError::NotReady(
                "sandbox ".to_owned().concat(name).concat(
                    " does not have spec.logging.guestConsole enabled",
                ),
            ),
        );
    }
    match &sandbox.status {
        Some(s) => match &s.pod_name {
            Some(p) => Ok(p.clone()),
            None => Err(GatewayError::NotReady(name.to_owned())),
        },
        None => Err(GatewayError::NotReady(name.to_owned())),
    }
}

} // verus!
