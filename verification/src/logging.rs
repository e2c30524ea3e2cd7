//! Names and lines of the session's log files, and the bounded buffer of
//! recent entries.
use vstd::prelude::*;
use crate::dispatch::{capped_push, push_capped};
use crate::state::{join_path, LogEntry};
use crate::text::{concat3, own};
use crate::panels::join_dir;

verus! {

/// The most entries the in-memory log buffer keeps.
pub const LOG_BUFFER_CAP: usize = 1000;

/// The session log and the browser console log of a session, in the chosen folder.
pub fn session_log_paths(dir: &str, session_ts: &str) -> (r: (String, String))
    ensures
        r.0@ == join_path(dir@, "session_"@ + session_ts@ + ".log"@),
        r.1@ == join_path(dir@, "chrome_session_"@ + session_ts@ + ".log"@),
{
    let a = concat3("session_", session_ts, ".log");
    let b = concat3("chrome_session_", session_ts, ".log");
    (join_dir(dir, a.as_str()), join_dir(dir, b.as_str()))
}

/// A line of the session log: "[time] [level] message".
pub fn log_file_line(entry: &LogEntry) -> (r: String)
    ensures
        r@ == "["@ + entry.timestamp@ + "] ["@ + entry.level@ + "] "@ + entry.message@,
{
    let mut out = own("[");
    out.append(entry.timestamp.as_str());
    out.append("] [");
    out.append(entry.level.as_str());
    out.append("] ");
    out.append(entry.message.as_str());
    out
}

/// A line of the browser console log: "[time] line".
pub fn chrome_file_line(time: &str, line: &str) -> (r: String)
    ensures
        r@ == "["@ + time@ + "] "@ + line@,
{
    let mut out = own("[");
    out.append(time);
    out.append("] ");
    out.append(line);
    out
}

/// Keeps a new entry in the buffer of recent entries, dropping the oldest
/// past the cap.
pub fn buffer_entry(buffer: &mut Vec<LogEntry>, entry: LogEntry)
    ensures
        final(buffer)@ == capped_push(old(buffer)@, entry, LOG_BUFFER_CAP as nat),
{
    push_capped(buffer, entry, LOG_BUFFER_CAP);
}

} // verus!
