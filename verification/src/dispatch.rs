//! What the main window does with the events that reach it: bounded logs,
//! the debugger's starting step, the lines a check report leaves in the
//! telemetry, and the hints logged after a script error.
use vstd::prelude::*;
use crate::knowledge::{hints_for_error, hints_spec, views_of};
use crate::script_types::{DiagnosticSeverity, DiagnosticStage, ScriptDiagnostic, ScriptingCheckReport};
use crate::state::NotificationLevel;
use crate::text::{
    chars_of, concat, dec_seq, lower_chars, lower_seq, contains_chars, own, push_str, seq_contains,
    string_from_chars, strs_view, trim_chars, trim_seq, u64_to_string,
};

verus! {

broadcast use vstd::std_specs::vec::group_vec_axioms;

/// The most system log entries kept.
pub const MAX_LOGS: usize = 1500;

/// The most script output lines kept.
pub const MAX_SCRIPT_OUTPUT: usize = 200;

/// Appending to a bounded list: the oldest entry leaves once the list grows
/// past `cap`.
pub open spec fn capped_push<T>(v: Seq<T>, x: T, cap: nat) -> Seq<T> {
    if v.len() + 1 > cap {
        v.push(x).drop_first()
    } else {
        v.push(x)
    }
}

pub fn push_capped<T>(v: &mut Vec<T>, x: T, cap: usize)
    ensures
        final(v)@ == capped_push(old(v)@, x, cap as nat),
{
    v.push(x);
    if v.len() > cap {
        v.remove(0);
        assert(v@ =~= capped_push(old(v)@, x, cap as nat));
    }
}

/// A bounded list stays within its bound, and its last entry is the one pushed.
pub proof fn lemma_capped_push_bounded<T>(v: Seq<T>, x: T, cap: nat)
    requires
        v.len() <= cap,
        cap > 0,
    ensures
        capped_push(v, x, cap).len() <= cap,
        capped_push(v, x, cap).last() == x,
{
}

// ---------------------------------------------------------------------------
// Debugger
// ---------------------------------------------------------------------------

/// Where the debugger starts on a new plan: at the first step whose text
/// holds the (trimmed) break condition, ignoring ASCII case; else at the start.
pub open spec fn debug_start(plan: Seq<Seq<char>>, condition: Seq<char>, r: int) -> bool {
    let c = lower_seq(trim_seq(condition, None));
    if c.len() == 0 {
        r == 0
    } else {
        ||| 0 <= r < plan.len() && seq_contains(lower_seq(plan[r]), c) && forall|k: int|
            0 <= k < r ==> !seq_contains(lower_seq(#[trigger] plan[k]), c)
        ||| r == 0 && forall|k: int| 0 <= k < plan.len() ==> !seq_contains(lower_seq(#[trigger] plan[k]), c)
    }
}

pub fn debug_plan_start(plan: &Vec<String>, break_condition: &str) -> (r: usize)
    ensures
        debug_start(strs_view(plan@), break_condition@, r as int),
{
    let raw = chars_of(break_condition);
    let t = trim_chars(&raw, None);
    let c = lower_chars(&t);
    if c.len() == 0 {
        return 0;
    }
    let mut i: usize = 0;
    while i < plan.len()
        invariant
            i <= plan.len(),
            c@ == lower_seq(trim_seq(break_condition@, None)),
            c.len() > 0,
            forall|k: int| 0 <= k < i ==> !seq_contains(lower_seq(#[trigger] strs_view(plan@)[k]), c@),
        decreases plan.len() - i,
    {
        let line = chars_of(plan[i].as_str());
        let ll = lower_chars(&line);
        assert(strs_view(plan@)[i as int] == line@);
        if contains_chars(&ll, &c) {
            return i;
        }
        i += 1;
    }
    0
}

/// The break condition handed to a run: trimmed, and none where it is blank.
pub fn run_break_condition(condition: &str) -> (r: Option<String>)
    ensures
        match r {
            Some(c) => c@ == trim_seq(condition@, None) && c@.len() > 0,
            None => trim_seq(condition@, None).len() == 0,
        },
{
    let raw = chars_of(condition);
    let t = trim_chars(&raw, None);
    if t.len() == 0 {
        None
    } else {
        Some(string_from_chars(&t))
    }
}

// ---------------------------------------------------------------------------
// Check report telemetry
// ---------------------------------------------------------------------------

/// The telemetry level of a diagnostic.
pub open spec fn check_level(s: DiagnosticSeverity) -> Seq<char> {
    match s {
        DiagnosticSeverity::Error => "CHECK-ERR"@,
        DiagnosticSeverity::Warn => "CHECK-WARN"@,
        DiagnosticSeverity::Info => "CHECK"@,
    }
}

/// The name of a check stage.
pub open spec fn stage_name(s: DiagnosticStage) -> Seq<char> {
    match s {
        DiagnosticStage::Compile => "Compile"@,
        DiagnosticStage::Entry => "Entry"@,
        DiagnosticStage::ApiGuard => "ApiGuard"@,
        DiagnosticStage::Lint => "Lint"@,
        DiagnosticStage::Preflight => "Preflight"@,
    }
}

/// Where a diagnostic points: " @line:column", " @line" or nothing.
pub open spec fn location_text(line: Option<usize>, column: Option<usize>) -> Seq<char> {
    match (line, column) {
        (Some(l), Some(c)) => " @"@ + dec_seq(l as nat) + ":"@ + dec_seq(c as nat),
        (Some(l), None) => " @"@ + dec_seq(l as nat),
        _ => Seq::empty(),
    }
}

/// The telemetry message of a diagnostic: "[code::Stage] message location | hint: ...".
pub open spec fn check_message(d: ScriptDiagnostic) -> Seq<char> {
    "["@ + d.code@ + "::"@ + stage_name(d.stage) + "] "@ + d.message@ + location_text(d.line, d.column) + match d.hint {
        Some(h) => " | hint: "@ + h@,
        None => Seq::empty(),
    }
}

fn level_text(s: DiagnosticSeverity) -> (r: String)
    ensures
        r@ == check_level(s),
{
    match s {
        DiagnosticSeverity::Error => own("CHECK-ERR"),
        DiagnosticSeverity::Warn => own("CHECK-WARN"),
        DiagnosticSeverity::Info => own("CHECK"),
    }
}

fn stage_text(s: DiagnosticStage) -> (r: String)
    ensures
        r@ == stage_name(s),
{
    match s {
        DiagnosticStage::Compile => own("Compile"),
        DiagnosticStage::Entry => own("Entry"),
        DiagnosticStage::ApiGuard => own("ApiGuard"),
        DiagnosticStage::Lint => own("Lint"),
        DiagnosticStage::Preflight => own("Preflight"),
    }
}

fn location(line: Option<usize>, column: Option<usize>) -> (r: String)
    ensures
        r@ == location_text(line, column),
{
    match (line, column) {
        (Some(l), Some(c)) => {
            let mut out = own(" @");
            out.append(u64_to_string(l as u64).as_str());
            out.append(":");
            out.append(u64_to_string(c as u64).as_str());
            out
        },
        (Some(l), None) => {
            let mut out = own(" @");
            out.append(u64_to_string(l as u64).as_str());
            out
        },
        _ => {
            proof {
                reveal_strlit("");
            }
            own("")
        },
    }
}

/// The telemetry line of one diagnostic: its level and message.
pub fn check_line(d: &ScriptDiagnostic) -> (r: (String, String))
    ensures
        r.0@ == check_level(d.severity),
        r.1@ == check_message(*d),
{
    let mut m = own("[");
    m.append(d.code.as_str());
    m.append("::");
    m.append(stage_text(d.stage).as_str());
    m.append("] ");
    m.append(d.message.as_str());
    m.append(location(d.line, d.column).as_str());
    match &d.hint {
        Some(h) => {
            m.append(" | hint: ");
            m.append(h.as_str());
        },
        None => {},
    }
    (level_text(d.severity), m)
}

/// The telemetry lines of a whole check report, one per diagnostic, in order.
pub fn check_lines(report: &ScriptingCheckReport) -> (r: Vec<(String, String)>)
    ensures
        r.len() == report.diagnostics.len(),
        forall|k: int|
            0 <= k < r.len() ==> (#[trigger] r@[k]).0@ == check_level(report.diagnostics@[k].severity) && r@[k].1@
                == check_message(report.diagnostics@[k]),
{
    let mut out: Vec<(String, String)> = Vec::new();
    let mut i: usize = 0;
    while i < report.diagnostics.len()
        invariant
            i <= report.diagnostics.len(),
            out.len() == i,
            forall|k: int|
                0 <= k < i ==> (#[trigger] out@[k]).0@ == check_level(report.diagnostics@[k].severity)
                    && out@[k].1@ == check_message(report.diagnostics@[k]),
        decreases report.diagnostics.len() - i,
    {
        out.push(check_line(&report.diagnostics[i]));
        i += 1;
    }
    out
}

/// The notification after a check.
pub fn check_notice(ok: bool) -> (r: (NotificationLevel, String))
    ensures
        r.0 == (if ok { NotificationLevel::Success } else { NotificationLevel::Error }),
        r.1@ == (if ok { "Check completed successfully."@ } else { "Check failed. See System Telemetry."@ }),
{
    if ok {
        (NotificationLevel::Success, own("Check completed successfully."))
    } else {
        (NotificationLevel::Error, own("Check failed. See System Telemetry."))
    }
}

/// The hint lines logged after a script error: "[Hint] " before each hint
/// the knowledge base has for the message.
pub fn hint_lines(message: &str) -> (r: Vec<String>)
    ensures
        strs_view(r@) == hints_spec(lower_seq(message@)).map_values(|h: Seq<char>| "[Hint] "@ + h),
{
    let hints = hints_for_error(message);
    let mut out: Vec<String> = Vec::new();
    let mut i: usize = 0;
    while i < hints.len()
        invariant
            i <= hints.len(),
            views_of(hints@) == hints_spec(lower_seq(message@)),
            strs_view(out@) == views_of(hints@).take(i as int).map_values(|h: Seq<char>| "[Hint] "@ + h),
        decreases hints.len() - i,
    {
        push_str(&mut out, concat("[Hint] ", hints[i]));
        i += 1;
        assert(strs_view(out@) =~= views_of(hints@).take(i as int).map_values(|h: Seq<char>| "[Hint] "@ + h));
    }
    assert(views_of(hints@).take(hints.len() as int) =~= views_of(hints@));
    out
}


// ---------------------------------------------------------------------------
// Command guard
// ---------------------------------------------------------------------------

/// The commands that need a running browser, by event name.
pub open spec fn browser_commands() -> Seq<Seq<char>> {
    seq![
        "RequestCookies"@, "RequestPageReload"@, "RequestScriptExecution"@, "RequestAutomationRun"@,
        "RequestCapture"@, "RequestPageSelectors"@, "RequestBlobDemask"@, "RequestVideoDownload"@,
        "RequestScriptingRun"@, "RequestTabRefresh"@,
    ]
}

/// The message a command refused while the browser is down is answered with.
pub open spec fn denied_message() -> Seq<char> {
    "Action Denied: Browser instance is not active."@
}

/// Whether a command may run: any command while the browser runs, and while it
/// is down only those that need no browser.
pub fn command_allowed(cmd: &str, browser_running: bool) -> (r: bool)
    ensures
        r == (browser_running || !browser_commands().contains(cmd@)),
{
    let names: [&str; 10] = [
        "RequestCookies", "RequestPageReload", "RequestScriptExecution", "RequestAutomationRun",
        "RequestCapture", "RequestPageSelectors", "RequestBlobDemask", "RequestVideoDownload",
        "RequestScriptingRun", "RequestTabRefresh",
    ];
    proof {
        reveal_strlit("RequestCookies");
        reveal_strlit("RequestPageReload");
        reveal_strlit("RequestScriptExecution");
        reveal_strlit("RequestAutomationRun");
        reveal_strlit("RequestCapture");
        reveal_strlit("RequestPageSelectors");
        reveal_strlit("RequestBlobDemask");
        reveal_strlit("RequestVideoDownload");
        reveal_strlit("RequestScriptingRun");
        reveal_strlit("RequestTabRefresh");
    }
    if browser_running {
        return true;
    }
    let mut i: usize = 0;
    while i < 10
        invariant
            i <= 10,
            !browser_running,
            names@.map_values(|n: &str| n@) == browser_commands(),
            forall|k: int| 0 <= k < i ==> browser_commands()[k] != cmd@,
        decreases 10 - i,
    {
        if crate::text::str_eq(names[i], cmd) {
            assert(browser_commands()[i as int] == cmd@);
            assert(browser_commands().len() == 10);
            assert(browser_commands().contains(cmd@));
            return false;
        }
        i += 1;
    }
    true
}

} // verus!
