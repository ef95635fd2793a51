//! The console log: what the guest printed, one JSON object a line.

use vstd::prelude::*;

use crate::json;
use crate::text;
use crate::time;
use crate::time::WireTime;

verus! {

/// How long to wait before looking again for the guest's log: there is none before
/// the guest boots.
pub const LOG_DIR_POLL_MILLIS: u64 = 500;

/// Where a line of the guest's log came from.
#[derive(Clone, Copy, Debug, PartialEq, Eq, Structural)]
pub enum LogSource {
    Stdout,
    Stderr,
    Output,
    System,
}

/// An entry of the guest's log.
#[derive(Debug, PartialEq)]
pub struct LogEntry {
    pub timestamp: WireTime,
    pub source: LogSource,
    pub data: Vec<u8>,
}

/// The name of a source.
pub open spec fn source_name(s: LogSource) -> Seq<char> {
    match s {
        LogSource::Stdout => "stdout"@,
        LogSource::Stderr => "stderr"@,
        LogSource::Output => "output"@,
        LogSource::System => "system"@,
    }
}

/// The name of a source.
pub fn source_str(s: LogSource) -> (out: &'static str)
    ensures
        out@ == source_name(s),
{
    match s {
        LogSource::Stdout => "stdout",
        LogSource::Stderr => "stderr",
        LogSource::Output => "output",
        LogSource::System => "system",
    }
}

/// A line of the console log: where it came from, when, and what it says.
pub open spec fn line_text(source: Seq<char>, ts: Seq<char>, text: Seq<char>) -> Seq<char> {
    "{\"source\":"@ + json::quoted_text(source) + ",\"ts\":"@ + json::quoted_text(ts)
        + ",\"text\":"@ + json::quoted_text(text) + "}"@
}

/// Whatever the guest printed, a line of the console log has no line break inside.
pub proof fn a_log_line_is_one_line(source: Seq<char>, ts: Seq<char>, text: Seq<char>)
    ensures
        json::one_line(line_text(source, ts, text)),
{
    let (q_source, q_ts, q_text) = (
        json::quoted_text(source),
        json::quoted_text(ts),
        json::quoted_text(text),
    );
    json::quoted_is_one_line(source);
    json::quoted_is_one_line(ts);
    json::quoted_is_one_line(text);
    reveal_strlit("{\"source\":");
    reveal_strlit(",\"ts\":");
    reveal_strlit(",\"text\":");
    reveal_strlit("}");
    let a = "{\"source\":"@ + q_source;
    json::one_line_concat("{\"source\":"@, q_source);
    json::one_line_concat(a, ",\"ts\":"@);
    json::one_line_concat(a + ",\"ts\":"@, q_ts);
    let b = a + ",\"ts\":"@ + q_ts;
    json::one_line_concat(b, ",\"text\":"@);
    json::one_line_concat(b + ",\"text\":"@, q_text);
    json::one_line_concat(b + ",\"text\":"@ + q_text, "}"@);
}

/// Writes a line of the console log, without a line break at its end.
pub fn write_line(source: &str, ts: &WireTime, text: &str) -> (out: String)
    ensures
        out@ == line_text(source@, time::wire_text(ts@.0, ts@.1)->0, text@),
{
    "{\"source\":".to_owned().concat(json::quote(source).as_str()).concat(",\"ts\":").concat(
        json::quote(ts.text()).as_str(),
    ).concat(",\"text\":").concat(json::quote(text).as_str()).concat("}")
}

/// The line of an entry: its bytes as text, without the newlines at its end.
pub fn format_line(entry: &LogEntry) -> (out: String)
    ensures
        out@ == line_text(
            source_name(entry.source),
            time::wire_text(entry.timestamp@.0, entry.timestamp@.1)->0,
            text::trim_end_of(text::lossy_text(entry.data@), '\n'),
        ),
{
    let decoded = text::from_utf8_lossy(&entry.data);
    let line = text::trim_end_matches(decoded.as_str(), '\n');
    write_line(source_str(entry.source), &entry.timestamp, line.as_str())
}

/// The name of a source tells which one it is.
pub proof fn a_source_is_told_by_its_name(s: LogSource)
    ensures
        source_name(s) == "stdout"@ <==> s == LogSource::Stdout,
        source_name(s) == "stderr"@ <==> s == LogSource::Stderr,
        source_name(s) == "output"@ <==> s == LogSource::Output,
        source_name(s) == "system"@ <==> s == LogSource::System,
{
    reveal_strlit("stdout");
    reveal_strlit("stderr");
    reveal_strlit("output");
    reveal_strlit("system");
    assert("stdout"@.len() == 6 && "stderr"@.len() == 6);
    assert("output"@.len() == 6 && "system"@.len() == 6);
    assert("stdout"@[3] == 'o' && "stderr"@[3] == 'e' && "output"@[0] == 'o');
    assert("system"@[1] == 'y' && "stdout"@[1] == 't' && "stderr"@[1] == 't');
}

} // verus!
