use sniper_studio::app_state::AppState;
use sniper_studio::events::{handle_event, AppEvent, Command};
use sniper_studio::engine::{after_attempt, timeout_error, ExecutionConfig, StepNext};
use sniper_studio::script_actions::ScriptAction;
use sniper_studio::script_run::{next_script_op, ScriptOp, ScriptRunState};
use sniper_studio::script_check::finish_check;
use sniper_studio::cdp::js_escape_str;
use sniper_studio::context::AutomationContext;
use sniper_studio::dataset::{load_rows, parse_csv};
use sniper_studio::dispatch::command_allowed;
use sniper_studio::dsl::{AutomationDsl, DslFunction, Step};
use sniper_studio::engine::{call_steps, enter_loop_iteration, find_function, plan_step, smart_scroll_continues, StepCommand};
use sniper_studio::panels::media_order;
use sniper_studio::script_check::check_static;
use sniper_studio::script_run::check_scope;
use sniper_studio::script_types::{DiagnosticSeverity, DiagnosticStage, ScriptPackage};
use sniper_studio::state::{AppConfig, AutomationStatus, ChromeTabInfo, MediaAsset, NotificationLevel};

fn package(code: &str) -> ScriptPackage {
    ScriptPackage {
        version: 1,
        name: "t".to_string(),
        description: String::new(),
        created_at: 0,
        updated_at: 0,
        entry: "main".to_string(),
        code: code.to_string(),
        tags: Vec::new(),
    }
}

#[test]
fn check_warns_on_var() {
    let report = check_static(&package("fn main() { var x = 1; }"));
    let lint: Vec<_> = report
        .diagnostics
        .iter()
        .filter(|d| d.stage == DiagnosticStage::Lint && d.code == "SC-LINT-VAR")
        .collect();
    assert_eq!(lint.len(), 1);
    assert_eq!(lint[0].severity, DiagnosticSeverity::Warn);
    assert!(lint[0].hint.as_ref().unwrap().contains("let"));
    let clean = check_static(&package("fn main() { let variance = 1; }"));
    assert!(clean.diagnostics.iter().all(|d| d.code != "SC-LINT-VAR"));
}

#[test]
fn check_ok_matches_errors() {
    for code in ["fn main() { let x = 1; }", "fn main( {", "fn other() {}"] {
        let report = check_static(&package(code));
        let has_error = report.diagnostics.iter().any(|d| d.severity == DiagnosticSeverity::Error);
        assert_eq!(report.ok, !has_error);
    }
}

#[test]
fn scope_refuses_parent_escape() {
    assert_eq!(
        check_scope("missing/../../etc/x.txt", "/out", "/out/missing/../../etc"),
        Err("Path escapes output_dir scope: missing/../../etc/x.txt".to_string())
    );
    assert_eq!(check_scope("a/../b/x.txt", "/out", "/out/a/../b"), Ok(()));
    assert_eq!(check_scope("x.txt", "/out", "/out/./"), Ok(()));
    assert_eq!(
        check_scope("/etc/x", "/out", "/etc"),
        Err("Absolute paths are not allowed for script fs helpers".to_string())
    );
}

#[test]
fn script_escaping_is_safe() {
    assert_eq!(js_escape_str("a\\"), "a\\\\");
    assert_eq!(js_escape_str("one\ntwo"), "one\\ntwo");
    assert_eq!(js_escape_str("r\rq\"s'"), "r\\rq\\\"s\\'");
    assert_eq!(js_escape_str("\u{2028}"), "\\u2028");
    assert_eq!(js_escape_str("plain"), "plain");
}

fn dsl_with_function() -> AutomationDsl {
    let mut dsl = AutomationDsl::default();
    dsl.functions.push(DslFunction {
        name: "login".to_string(),
        steps: vec![Step::Click { selector: "#go".to_string() }],
    });
    dsl
}

#[test]
fn functions_are_found_by_name() {
    let dsl = dsl_with_function();
    assert_eq!(find_function(&dsl, "login"), Ok(0));
    assert_eq!(find_function(&dsl, "nope"), Err("Function not found: nope".to_string()));
    let steps = call_steps(&dsl, "login").unwrap();
    assert_eq!(steps.len(), 1);
    assert!(matches!(&steps[0], Step::Click { selector } if selector == "#go"));
    assert_eq!(call_steps(&dsl, "nope").err(), Some("Function not found: nope".to_string()));
}

#[test]
fn call_import_and_scroll_are_planned() {
    let ctx = AutomationContext::new(9222, "T".to_string(), "/out".to_string());
    match plan_step(&ctx, &Step::CallFunction { name: "login".to_string() }) {
        StepCommand::Call { name } => assert_eq!(name, "login"),
        _ => panic!("expected a call"),
    }
    match plan_step(&ctx, &Step::ImportDataset { filename: "rows.csv".to_string() }) {
        StepCommand::ImportRows { filename } => assert_eq!(filename, "rows.csv"),
        _ => panic!("expected an import"),
    }
    match plan_step(&ctx, &Step::SmartScroll { until_selector: None, max_rounds: 3, settle_ms: 50 }) {
        StepCommand::SmartScroll { probe_js, max_rounds, settle_ms } => {
            assert!(probe_js.is_none());
            assert_eq!((max_rounds, settle_ms), (3, 50));
        }
        _ => panic!("expected a scroll"),
    }
    assert!(smart_scroll_continues(0, 3, false));
    assert!(!smart_scroll_continues(3, 3, false));
    assert!(!smart_scroll_continues(1, 3, true));
}

#[test]
fn datasets_load_per_row() {
    let rows = parse_csv("name,age\r\nann,3\nbob,4\n");
    assert_eq!(rows.len(), 2);
    assert_eq!(rows[0].get(&"name".to_string()), Some("ann".to_string()));
    assert_eq!(rows[1].get(&"age".to_string()), Some("4".to_string()));
    let json = load_rows("rows.json", "[{\"q\":\"x\"},{\"q\":\"y\"}]").unwrap();
    assert_eq!(json.len(), 2);
    assert_eq!(json[1].get(&"q".to_string()), Some("y".to_string()));
    assert!(load_rows("rows.json", "not json").is_err());
    assert_eq!(load_rows("rows.csv", "a\n1").unwrap().len(), 1);
}

#[test]
fn commands_need_a_browser() {
    assert!(!command_allowed("RequestCookies", false));
    assert!(!command_allowed("RequestTabRefresh", false));
    assert!(command_allowed("RequestCookies", true));
    assert!(command_allowed("RequestLogPathSet", false));
}

#[test]
fn losing_the_browser_clears_tabs() {
    let mut st = AppState::new(AppConfig::default(), "T".to_string());
    st.is_browser_running = true;
    st.available_tabs.push(ChromeTabInfo {
        id: "A".to_string(),
        title: "t".to_string(),
        url: "u".to_string(),
        tab_type: "page".to_string(),
    });
    st.selected_tab_id = Some("A".to_string());
    st.browser_lost();
    assert!(!st.is_browser_running);
    assert!(st.available_tabs.is_empty());
    assert!(st.selected_tab_id.is_none());
}

fn asset(name: &str, mime: &str, size: usize) -> MediaAsset {
    MediaAsset { name: name.to_string(), url: String::new(), mime_type: mime.to_string(), size_bytes: size, data: None }
}

#[test]
fn media_vault_sorts() {
    let v = vec![asset("b.png", "image/png", 30), asset("A.css", "text/css", 10), asset("c.js", "text/js", 20)];
    assert_eq!(media_order(&v, "name", true), vec![1, 0, 2]);
    assert_eq!(media_order(&v, "name", false), vec![2, 0, 1]);
    assert_eq!(media_order(&v, "size", true), vec![1, 2, 0]);
    assert_eq!(media_order(&v, "type", true), vec![0, 1, 2]);
    assert_eq!(media_order(&v, "other", true), vec![1, 0, 2]);
    let same = vec![asset("x", "a", 1), asset("y", "a", 1)];
    assert_eq!(media_order(&same, "size", false), vec![0, 1]);
}

#[test]
fn new_tab_url_is_form_encoded() {
    assert_eq!(
        sniper_studio::browser::new_tab_endpoint(9222, Some("a b&é*-._~")),
        "http://127.0.0.1:9222/json/new?a+b%26%C3%A9*-._%7E"
    );
}

#[test]
fn variables_are_global_and_loop_bindings_are_not() {
    let mut ctx = AutomationContext::new(9222, "T".to_string(), "/out".to_string());
    enter_loop_iteration(&mut ctx, 2, "li:nth-child(3)".to_string());
    assert_eq!(ctx.get_variable("index"), Some("2".to_string()));
    assert_eq!(ctx.get_variable("item"), Some("li:nth-child(3)".to_string()));
    ctx.set_variable("seen".to_string(), "yes".to_string());
    ctx.pop_scope();
    assert_eq!(ctx.get_variable("seen"), Some("yes".to_string()));
    assert_eq!(ctx.get_variable("index"), None);
    assert_eq!(ctx.get_variable("item"), None);
}

#[test]
fn json_elements_that_are_no_objects_bind_nothing() {
    let rows = load_rows("r.json", "[{\"q\":\"x\"}, 3]").unwrap();
    assert_eq!(rows.len(), 2);
    assert_eq!(rows[0].get(&"q".to_string()), Some("x".to_string()));
    assert!(rows[1].is_empty());
}

fn studio() -> AppState {
    AppState::new(AppConfig::default(), "T".to_string())
}

#[test]
fn browser_commands_are_denied_while_down() {
    let mut st = studio();
    let cmds = handle_event(&mut st, AppEvent::<()>::RequestCookies("A".to_string()), "10:00:00");
    assert!(cmds.is_empty());
    assert_eq!(st.notifications.len(), 1);
    assert_eq!(st.notifications[0].level, NotificationLevel::Warn);
    assert_eq!(st.notifications[0].message, "Action Denied: Browser instance is not active.");
    st.is_browser_running = true;
    let cmds = handle_event(&mut st, AppEvent::<()>::RequestCookies("A".to_string()), "10:00:01");
    assert!(matches!(&cmds[..], [Command::FetchCookies(t)] if t == "A"));
}

#[test]
fn script_errors_log_hints_and_cancel() {
    let mut st = studio();
    st.is_script_running = true;
    let cmds = handle_event(&mut st, AppEvent::<()>::ScriptingError("Reserved keyword 'var'".to_string()), "10:00:00");
    assert!(matches!(&cmds[..], [Command::CancelScript]));
    assert!(!st.is_script_running);
    assert_eq!(st.script_error, Some("Reserved keyword 'var'".to_string()));
    assert!(st.logs.iter().any(|l| l.level == "KB" && l.message.starts_with("[Hint] ")));
}

#[test]
fn dry_run_lines_reach_the_telemetry_prefixed() {
    let mut st = studio();
    handle_event(&mut st, AppEvent::<()>::ScriptingDryRunResult(vec!["[001] Click".to_string()]), "10:00:00");
    assert_eq!(st.logs.len(), 1);
    assert_eq!(st.logs[0].level, "DRYRUN");
    assert_eq!(st.logs[0].message, "[SCRIPT -> ENGINE] [001] Click");
}

#[test]
fn debug_plan_starts_at_the_break() {
    let mut st = studio();
    st.break_condition = " CLICK ".to_string();
    let plan = vec!["[001] Navigate".to_string(), "[002] Click".to_string()];
    handle_event(&mut st, AppEvent::<()>::ScriptingDebugPlanResult(plan), "10:00:00");
    assert_eq!(st.debug_index, 1);
    assert_eq!(st.debug_plan.len(), 2);
}

#[test]
fn automation_run_marks_the_tab_running() {
    let mut st = studio();
    st.is_browser_running = true;
    let cmds = handle_event(
        &mut st,
        AppEvent::<()>::RequestAutomationRun("A".to_string(), AutomationDsl::default(), ExecutionConfig::default()),
        "10:00:00",
    );
    assert!(matches!(&cmds[..], [Command::RunAutomation(t, _, _)] if t == "A"));
    assert!(matches!(st.workspaces[0].1.auto_status, AutomationStatus::Running(0)));
}

#[test]
fn executor_decides_in_order() {
    let run = ScriptRunState::new();
    let actions = vec![
        ScriptAction::Click { token: 1, selector: "#go".to_string() },
        ScriptAction::Capture { token: 1, mode: "html".to_string() },
        ScriptAction::Log("hi".to_string()),
    ];
    let none: Option<String> = None;
    assert!(matches!(next_script_op(&run, &actions, 0, false, &none, "Click"), ScriptOp::Cancelled(m) if m == "Script cancelled by user"));
    assert!(matches!(next_script_op(&run, &actions, 0, true, &none, "Click"), ScriptOp::Queue(1, _)));
    assert!(matches!(next_script_op(&run, &actions, 1, true, &none, "Capture"), ScriptOp::Perform(Some(1))));
    assert!(matches!(next_script_op(&run, &actions, 2, true, &none, "Log"), ScriptOp::Perform(None)));
    assert!(matches!(next_script_op(&run, &actions, 3, true, &none, ""), ScriptOp::FinalFlush(v) if v.is_empty()));
    let cond = Some("CLICK".to_string());
    match next_script_op(&run, &actions, 0, true, &cond, "Click { token: 1 }") {
        ScriptOp::Break(line) => assert_eq!(line, "[BREAK] Step 001 matched condition 'click': Click { token: 1 }"),
        _ => panic!("expected a break"),
    }
}

#[test]
fn check_stages_are_gated() {
    let mut report = check_static(&package("fn main( {"));
    assert!(!report.ok);
    let n = report.diagnostics.len();
    finish_check(&mut report, &Some(Ok(3)), true, true, &None);
    assert_eq!(report.diagnostics.len(), n);
    let mut report = check_static(&package("fn main() { let x = 1; }"));
    let n = report.diagnostics.len();
    finish_check(&mut report, &Some(Ok(2)), true, false, &None);
    assert_eq!(report.diagnostics.len(), n + 2);
    assert_eq!(report.diagnostics[n].code, "SC-APIGUARD-OK");
    assert_eq!(report.diagnostics[n + 1].code, "SC-PREFLIGHT-SKIP");
    assert!(report.ok);
    let mut report = check_static(&package("fn main() { let x = 1; }"));
    finish_check(&mut report, &Some(Err("bad".to_string())), true, true, &Some(Ok(vec![])));
    assert!(!report.ok);
    assert!(report.diagnostics.iter().all(|d| d.stage != DiagnosticStage::Preflight));
}

#[test]
fn step_attempts_retry_then_fail() {
    let mut cfg = ExecutionConfig::default();
    cfg.retry_attempts = 1;
    assert!(matches!(after_attempt(0, &cfg, Ok(())), (0, StepNext::Done)));
    assert!(matches!(after_attempt(0, &cfg, Err("x".to_string())), (1, StepNext::RetryAfterMs(500))));
    match after_attempt(1, &cfg, Err("boom".to_string())) {
        (2, StepNext::Fail(e, shot)) => {
            assert_eq!(e, "boom");
            assert!(shot);
        }
        _ => panic!("expected a failure"),
    }
    assert_eq!(timeout_error(30000), "Step timed out after 30000 ms");
}

#[test]
fn hints_ignore_letter_case() {
    let m = "Reserved keyword 'var' at line 2";
    assert_eq!(sniper_studio::knowledge::hints_for_error(m), sniper_studio::knowledge::hints_for_error(&m.to_ascii_uppercase()));
}
