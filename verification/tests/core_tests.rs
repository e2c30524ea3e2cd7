use sniper_studio::browser::{
    capture_parts, endpoint, filter_page_tabs, launch_args, new_tab_endpoint,
    pick_user_agent_with_seed, BrowserLaunchOptions,
};
use sniper_studio::cdp::{click_js, decode_js_result, decode_sandbox_result, js_escape_str};
use sniper_studio::context::AutomationContext;
use sniper_studio::dom::{AssetType, DomProcessor};
use sniper_studio::dsl::Step;
use sniper_studio::engine::{
    after_failed_attempt, failure_screenshot_name, interpolate, loop_count, AutomationEngine, ExecutionConfig,
    RetryDecision,
};
use sniper_studio::knowledge::hints_for_error;
use sniper_studio::panels::{classify_media, cookie_visible, filter_selectors, join_dir, launch_profile, short_tab_id};
use sniper_studio::pipeline::{map_dsl_to_steps, map_single_step, map_steps_to_dsl, map_ui_steps_to_dsl};
use sniper_studio::script_actions::{
    new_token, normalize_scripting_code, push_action, selectors_from_actions, ScriptAction, ScriptBuildState,
};
use sniper_studio::script_check::{check_static, extract_line_col};
use sniper_studio::script_run::{capture_mode, catch_target, ensure_not_cancelled, matches_break, CaptureMode};
use sniper_studio::script_types::{DiagnosticSeverity, ScriptPackage};
use sniper_studio::state::{AutomationStep, ChromeTabInfo, UiFunction};
use sniper_studio::video::{derive_video_name, is_hls_url, plan_hls_download, sanitize_name};

fn pkg(code: &str, entry: &str) -> ScriptPackage {
    ScriptPackage {
        version: 1,
        name: "p".to_string(),
        description: String::new(),
        created_at: 0,
        updated_at: 0,
        entry: entry.to_string(),
        code: code.to_string(),
        tags: Vec::new(),
    }
}

#[test]
fn video_names() {
    assert_eq!(sanitize_name("  My Video!! (1) "), "My_Video_1");
    assert_eq!(sanitize_name("___"), "");
    assert_eq!(derive_video_name("https://cdn/x/stream.m3u8?t=1", None), "stream");
    assert_eq!(derive_video_name("https://cdn/x/stream.m3u8", Some("  Best Clip.mp4 ")), "Best_Clip");
    assert_eq!(derive_video_name("https://cdn/x/", Some("...")), "video");
    assert!(is_hls_url("https://A/B.M3U8"));
    assert!(!is_hls_url("https://a/b.mp4"));
    assert!(plan_hls_download("https://a/b.mp4", None).is_err());
}

#[test]
fn tab_tokens_and_selectors() {
    let mut st = ScriptBuildState::new();
    assert_eq!(new_token(&mut st), 1);
    assert_eq!(new_token(&mut st), 2);
    push_action(&mut st, ScriptAction::Click { token: 1, selector: "#a".to_string() });
    push_action(&mut st, ScriptAction::Type { token: 1, selector: "#b".to_string(), value: "x".to_string() });
    push_action(&mut st, ScriptAction::Click { token: 2, selector: "#a".to_string() });
    push_action(&mut st, ScriptAction::Log("hi".to_string()));
    assert_eq!(selectors_from_actions(&st.actions), vec!["#a".to_string(), "#b".to_string()]);
    assert_eq!(normalize_scripting_code("let a = Tab.new(); let b = Tab.catch();"), "let a = TabNew(); let b = TabCatch();");
}

#[test]
fn static_check_findings() {
    let r = check_static(&pkg("fn main() { log(\"x\"); }", "main"));
    assert!(r.ok);
    assert_eq!(r.diagnostics.len(), 1);
    assert_eq!(r.diagnostics[0].code, "SC-COMPILE-OK");
    let r = check_static(&pkg("fn main() { TabCatch(); }", "start"));
    assert!(!r.ok);
    let codes: Vec<&str> = r.diagnostics.iter().map(|d| d.code.as_str()).collect();
    assert_eq!(codes, vec!["SC-COMPILE-OK", "SC-ENTRY-MISSING", "SC-LINT-DEPRECATED-TABCATCH"]);
    assert_eq!(r.diagnostics[1].message, "Entry function 'start' not found in script text");
    let r = check_static(&pkg("fn main( {", "  "));
    assert!(!r.ok);
    assert_eq!(r.diagnostics[0].code, "SC-COMPILE-ERR");
    assert_eq!(r.diagnostics[0].severity, DiagnosticSeverity::Error);
    assert!(r.diagnostics[0].message.starts_with("Rhai compile error: "));
    assert_eq!(r.diagnostics[1].code, "SC-ENTRY-EMPTY");
}

#[test]
fn line_and_column() {
    assert_eq!(extract_line_col("Syntax error (line 3, position 14)"), (Some(3), Some(14)));
    assert_eq!(extract_line_col("no position"), (None, None));
}

#[test]
fn runtime_guards() {
    assert!(ensure_not_cancelled(true).is_ok());
    assert_eq!(ensure_not_cancelled(false), Err("Script cancelled by user".to_string()));
    assert_eq!(catch_target(None), Err("TabCatch failed: no selected tab in UI".to_string()));
    assert_eq!(capture_mode(&"mirror".to_string()), Ok(CaptureMode::Mirror));
    assert_eq!(capture_mode(&"pdf".to_string()), Err("Unsupported capture mode: pdf".to_string()));
    assert!(matches_break("Click { token: 1, selector: \"#Go\" }", "CLICK"));
}

#[test]
fn scopes_and_interpolation() {
    let mut ctx = AutomationContext::new(9222, "T".to_string(), "/out".to_string());
    ctx.set_variable("name".to_string(), "Ada".to_string());
    ctx.push_scope();
    ctx.set_variable("name".to_string(), "Bob".to_string());
    assert_eq!(ctx.get_variable("name"), Some("Bob".to_string()));
    assert_eq!(interpolate(&ctx, "Hi {{ name }} and {{missing}}"), "Hi Bob and {{missing}}");
    ctx.pop_scope();
    assert_eq!(ctx.get_variable("name"), Some("Bob".to_string()));
    assert_eq!(ctx.scopes.len(), 1);
    assert_eq!(ctx.get_variable("nope"), None);
}

#[test]
fn engine_settings() {
    let e = AutomationEngine::new(9222, "T".to_string(), "/out".to_string());
    assert_eq!(e.config.retry_attempts, 0);
    let c = ExecutionConfig::default();
    assert!(c.screenshot_on_error);
    assert!(matches!(after_failed_attempt(1, 2), RetryDecision::RetryAfterMs(500)));
    assert!(matches!(after_failed_attempt(2, 2), RetryDecision::RetryAfterMs(1000)));
    assert!(matches!(after_failed_attempt(3, 2), RetryDecision::GiveUp));
    assert_eq!(failure_screenshot_name(0, "101010"), "FAIL_STEP_1_101010.png");
    assert_eq!(loop_count("3"), 3);
    assert_eq!(loop_count("x"), 0);
}

#[test]
fn js_snippets() {
    assert_eq!(js_escape_str("it's"), "it\\'s");
    assert!(click_js("a[href='x']").contains("a[href=\\'x\\']"));
    assert_eq!(decode_js_result("\"quoted\""), "quoted");
    assert_eq!(decode_js_result("plain"), "plain");
    assert_eq!(decode_sandbox_result("{\"success\":true,\"data\":\"ok\"}"), Ok("ok".to_string()));
    assert_eq!(decode_sandbox_result("{\"success\":false,\"error\":\"boom\"}"), Err("JS Error: boom".to_string()));
}

#[test]
fn knowledge_hints() {
    let h = hints_for_error("Rhai compile error: Reserved keyword 'var'");
    assert!(h.contains(&"In Rhai, use 'let' instead of 'var' to declare variables."));
    assert!(hints_for_error("").is_empty());
}

#[test]
fn pipeline_mapping_round_trip() {
    let steps = vec![
        AutomationStep::Navigate("https://a".to_string()),
        AutomationStep::Type { selector: "#q".to_string(), value: "v".to_string(), is_variable: true },
        AutomationStep::Wait(2),
        AutomationStep::CallFunction("f".to_string()),
    ];
    let dsl = map_ui_steps_to_dsl(&steps);
    assert_eq!(dsl.len(), 4);
    assert!(matches!(&dsl[0], Step::Navigate { url } if url == "https://a"));
    let funcs = vec![UiFunction { name: "f".to_string(), steps: vec![AutomationStep::NewRow] }];
    let doc = map_steps_to_dsl(&steps, &funcs);
    assert_eq!(doc.dsl_version, 1);
    assert_eq!(doc.functions.len(), 1);
    let back = map_dsl_to_steps(doc.steps);
    assert!(matches!(&back[1], AutomationStep::Type { selector, value, is_variable: true } if selector == "#q" && value == "v"));
    assert!(matches!(map_single_step(&AutomationStep::Hover("x".to_string())), Step::Hover { .. }));
    assert!(matches!(map_single_step(&AutomationStep::Export("f.csv".to_string())), Step::Export { filename } if filename == "f.csv"));
}

#[test]
fn every_block_survives_save_and_load() {
    let steps = vec![
        AutomationStep::RightClick("#m".to_string()),
        AutomationStep::Hover("#n".to_string()),
        AutomationStep::Export("out.json".to_string()),
        AutomationStep::Screenshot("s.png".to_string()),
        AutomationStep::SwitchFrame("iframe".to_string()),
        AutomationStep::WaitUntilIdle { timeout_ms: 500 },
        AutomationStep::WaitNetworkIdle { timeout_ms: 900, min_idle_ms: 300 },
        AutomationStep::If { selector: ".x".to_string(), then_steps: vec![AutomationStep::Click(".x".to_string())] },
        AutomationStep::ForEach { selector: "li".to_string(), body: vec![AutomationStep::NewRow] },
        AutomationStep::ImportDataset("rows.csv".to_string()),
    ];
    let doc = map_steps_to_dsl(&steps, &Vec::new());
    let back = map_dsl_to_steps(doc.steps);
    assert_eq!(back.len(), steps.len());
    assert!(matches!(&back[0], AutomationStep::RightClick(s) if s == "#m"));
    assert!(matches!(&back[1], AutomationStep::Hover(s) if s == "#n"));
    assert!(matches!(&back[2], AutomationStep::Export(f) if f == "out.json"));
    assert!(matches!(&back[3], AutomationStep::Screenshot(f) if f == "s.png"));
    assert!(matches!(&back[4], AutomationStep::SwitchFrame(s) if s == "iframe"));
    assert!(matches!(&back[5], AutomationStep::WaitUntilIdle { timeout_ms: 500 }));
    assert!(matches!(&back[6], AutomationStep::WaitNetworkIdle { timeout_ms: 900, min_idle_ms: 300 }));
    assert!(matches!(&back[7], AutomationStep::If { selector, then_steps } if selector == ".x" && matches!(&then_steps[0], AutomationStep::Click(c) if c == ".x")));
    assert!(matches!(&back[8], AutomationStep::ForEach { body, .. } if matches!(body[0], AutomationStep::NewRow)));
    assert!(matches!(&back[9], AutomationStep::ImportDataset(f) if f == "rows.csv"));
}

#[test]
fn assets_of_a_page() {
    let html = r#"<html><head><link rel="stylesheet" href="/s.css"><script src="app.js"></script></head>
        <body><img src="a.png"><img src="a.png"><img src="data:image/png;base64,xx"></body></html>"#;
    let assets = DomProcessor::discover_assets(html, "https://site.org/dir/page.html");
    assert_eq!(assets.len(), 3);
    assert!(assets.iter().any(|a| a.url == "https://site.org/dir/a.png" && a.asset_type == AssetType::Image));
    assert!(assets.iter().any(|a| a.url == "https://site.org/s.css" && a.asset_type == AssetType::Style));
    assert!(assets.iter().any(|a| a.url == "https://site.org/dir/app.js" && a.asset_type == AssetType::Script));
    assert_eq!(DomProcessor::make_absolute("x.png", "not a base"), None);
    assert_eq!(DomProcessor::make_absolute("https://b/x", "not a base"), Some("https://b/x".to_string()));
}

#[test]
fn browser_decisions() {
    let opts = BrowserLaunchOptions { proxy_server: None, user_agent: Some("  custom ".to_string()), randomize_user_agent: false, randomize_fingerprint: false };
    assert_eq!(pick_user_agent_with_seed(&opts, 3), Some("custom".to_string()));
    let opts2 = BrowserLaunchOptions { proxy_server: None, user_agent: None, randomize_user_agent: true, randomize_fingerprint: false };
    assert!(pick_user_agent_with_seed(&opts2, 5).unwrap().contains("X11; Linux"));
    assert_eq!(endpoint(9222, "/json/version"), "http://127.0.0.1:9222/json/version");
    assert_eq!(new_tab_endpoint(9222, None), "http://127.0.0.1:9222/json/new?about%3Ablank");
    assert_eq!(capture_parts(CaptureMode::Html, "20240101_101010"), vec!["html_captures", "capture_20240101_101010.html"]);
    assert_eq!(
        capture_parts(CaptureMode::Complete, "T"),
        vec!["complete_captures", "complete_T", "index.html"]
    );
    assert_eq!(capture_parts(CaptureMode::Mirror, "T"), vec!["mirrors", "snapshot_T.mhtml"]);
    let tabs = vec![
        ChromeTabInfo { id: "1".into(), title: "t".into(), url: "about:blank".into(), tab_type: "page".into() },
        ChromeTabInfo { id: "2".into(), title: "t".into(), url: "https://x".into(), tab_type: "worker".into() },
    ];
    assert_eq!(filter_page_tabs(&tabs, false).len(), 1);
    assert_eq!(filter_page_tabs(&tabs, true).len(), 0);
    let args = launch_args("https://x", "/prof", 9222, &opts, None, 0, false);
    assert!(args.contains(&"--remote-debugging-port=9222".to_string()));
    assert_eq!(args.last().unwrap(), "https://x");
}

#[test]
fn panel_decisions() {
    let c = classify_media("image/png", "https://a/b.png");
    assert!(c.sniffable && !c.is_video);
    assert!(cookie_visible("example.com", ".example.com"));
    assert!(cookie_visible("", "other.org"));
    assert!(!cookie_visible("a.com", "b.com"));
    assert_eq!(filter_selectors(&vec!["#A".to_string(), ".b".to_string()], "a"), vec!["#A".to_string()]);
    assert_eq!(launch_profile(true, "/out", "/sys"), "/out/profiles/isolated");
    assert_eq!(launch_profile(false, "/out", "/sys"), "/sys");
    assert_eq!(join_dir("", "a"), "a");
    assert_eq!(short_tab_id("ABCDEFGHIJ"), "ABCDEFGH");
    assert_eq!(short_tab_id("AB"), "AB");
}

#[test]
fn interpolation_without_values_keeps_text() {
    let ctx = AutomationContext::new(9222, "T".to_string(), "/out".to_string());
    let text = "Search {{query}} on {{ site }} page {{n}}";
    assert_eq!(interpolate(&ctx, text), text);
}
