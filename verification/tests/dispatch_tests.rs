use sniper_studio::dispatch::{
    check_line, check_lines, check_notice, debug_plan_start, hint_lines, push_capped, run_break_condition,
    MAX_LOGS, MAX_SCRIPT_OUTPUT,
};
use sniper_studio::logging::{buffer_entry, chrome_file_line, log_file_line, session_log_paths, LOG_BUFFER_CAP};
use sniper_studio::script_types::{DiagnosticSeverity, DiagnosticStage, ScriptDiagnostic, ScriptingCheckReport};
use sniper_studio::state::{LogEntry, NotificationLevel};

#[test]
fn capped_lists_drop_the_oldest() {
    let mut v: Vec<u32> = Vec::new();
    for i in 0..5 {
        push_capped(&mut v, i, 3);
    }
    assert_eq!(v, vec![2, 3, 4]);
    assert_eq!(MAX_LOGS, 1500);
    assert_eq!(MAX_SCRIPT_OUTPUT, 200);
    let mut logs: Vec<String> = Vec::new();
    for i in 0..1600 {
        push_capped(&mut logs, i.to_string(), MAX_LOGS);
    }
    assert_eq!(logs.len(), 1500);
    assert_eq!(logs[0], "100");
    assert_eq!(logs.last().unwrap(), "1599");
}

#[test]
fn debugger_starts_at_break() {
    let plan = vec!["[001] Wait".to_string(), "[002] Click #a".to_string(), "[003] click #b".to_string()];
    assert_eq!(debug_plan_start(&plan, "  CLICK "), 1);
    assert_eq!(debug_plan_start(&plan, ""), 0);
    assert_eq!(debug_plan_start(&plan, "capture"), 0);
    assert_eq!(run_break_condition("  Capture "), Some("Capture".to_string()));
    assert_eq!(run_break_condition("   "), None);
}

#[test]
fn check_report_lines() {
    let d1 = ScriptDiagnostic {
        code: "SC-COMPILE-ERR".to_string(),
        stage: DiagnosticStage::Compile,
        severity: DiagnosticSeverity::Error,
        message: "boom".to_string(),
        line: Some(3),
        column: Some(7),
        hint: Some("fix".to_string()),
    };
    let d2 = ScriptDiagnostic {
        code: "SC-LINT-RAWSTR".to_string(),
        stage: DiagnosticStage::Lint,
        severity: DiagnosticSeverity::Warn,
        message: "raw".to_string(),
        line: Some(2),
        column: None,
        hint: None,
    };
    let (l, m) = check_line(&d1);
    assert_eq!(l, "CHECK-ERR");
    assert_eq!(m, "[SC-COMPILE-ERR::Compile] boom @3:7 | hint: fix");
    let (l, m) = check_line(&d2);
    assert_eq!(l, "CHECK-WARN");
    assert_eq!(m, "[SC-LINT-RAWSTR::Lint] raw @2");
    let report = ScriptingCheckReport { ok: false, diagnostics: vec![d1, d2] };
    assert_eq!(check_lines(&report).len(), 2);
    assert_eq!(check_notice(false), (NotificationLevel::Error, "Check failed. See System Telemetry.".to_string()));
    assert_eq!(check_notice(true).1, "Check completed successfully.");
}

#[test]
fn hints_become_log_lines() {
    let lines = hint_lines("Operation timed out");
    assert_eq!(lines, vec!["[Hint] Increase wait time or step timeout; dynamic pages may need WaitSelector/SmartScroll.".to_string()]);
    assert!(hint_lines("all good").is_empty());
}

#[test]
fn log_files() {
    let (a, b) = session_log_paths("/out", "20240101_101010");
    assert_eq!(a, "/out/session_20240101_101010.log");
    assert_eq!(b, "/out/chrome_session_20240101_101010.log");
    let e = LogEntry { timestamp: "10:00:00".to_string(), level: "INFO".to_string(), message: "hi".to_string() };
    assert_eq!(log_file_line(&e), "[10:00:00] [INFO] hi");
    assert_eq!(chrome_file_line("10:00:01", "[T] x"), "[10:00:01] [T] x");
    let mut buf: Vec<LogEntry> = Vec::new();
    for i in 0..(LOG_BUFFER_CAP + 2) {
        buffer_entry(&mut buf, LogEntry { timestamp: String::new(), level: String::new(), message: i.to_string() });
    }
    assert_eq!(buf.len(), 1000);
    assert_eq!(buf[0].message, "2");
}
