//! The lines an instance broadcasts to its log and to attached clients.

use vstd::prelude::*;
use vstd::utf8::encode_utf8;
use crate::text::write_text;

verus! {

/// A log line: `<LEVEL> <target>: <message>`.
pub open spec fn log_line_text(level: Seq<char>, target: Seq<char>, message: Seq<char>) -> Seq<char> {
    level + " "@ + target + ": "@ + message
}

/// Formats the event of `target` at `level` carrying `message`.
pub fn log_line(level: &str, target: &str, message: &str) -> (l: String)
    ensures
        l@ == log_line_text(level@, target@, message@),
{
    let mut l = String::from_str(level);
    l.append(" ");
    l.append(target);
    l.append(": ");
    l.append(message);
    l
}

/// What the log file's writer receives from the broadcast: a line, word that
/// it fell behind and lines were dropped, or the end of the broadcast.
#[derive(Debug, Clone, PartialEq, Eq)]
pub enum LogEvent {
    Line(String),
    Lagged,
    Closed,
}

/// What the log file's writer does on an event: append these bytes, go on
/// waiting, or stop.
#[derive(Debug, Clone, PartialEq, Eq)]
pub enum LogAction {
    Append(Vec<u8>),
    Wait,
    Stop,
}

/// The log file's writer on one event: a line is appended with a newline, a
/// lag is passed over, and the end of the broadcast ends the writer.
pub fn log_writer_step(event: LogEvent) -> (a: LogAction)
    ensures
        match event {
            LogEvent::Line(line) => a matches LogAction::Append(b) && b@ == encode_utf8(line@ + "\n"@),
            LogEvent::Lagged => a is Wait,
            LogEvent::Closed => a is Stop,
        },
{
    match event {
        LogEvent::Line(line) => {
            let mut text = line;
            text.append("\n");
            let mut bytes: Vec<u8> = Vec::new();
            write_text(&mut bytes, text.as_str());
            assert(bytes@ =~= encode_utf8(text@));
            LogAction::Append(bytes)
        },
        LogEvent::Lagged => LogAction::Wait,
        LogEvent::Closed => LogAction::Stop,
    }
}

} // verus!
