use sniper_studio::editor::{
    browser_apis, find_matching_brace, find_next, get_api_doc, handle_autocomplete, replace_all,
    replace_at_cursor, CompletionKeys, CompletionState,
};
use sniper_studio::highlight::{error_marks, highlight_tokens, TokenKind};
use sniper_studio::script_types::{DiagnosticSeverity, DiagnosticStage, ScriptDiagnostic};
use sniper_studio::studio::{
    auto_indent, bound_tab, break_hit, clamp_debug_index, gutter_text, hover_info, line_count,
    step_label,
};

fn no_keys() -> CompletionKeys {
    CompletionKeys { command_space: false, accept: false, down: false, up: false, escape: false }
}

#[test]
fn brace_forward_and_backward() {
    let code = "fn main() { let a = (1 + (2)); }";
    // cursor just after '(' of "(1"
    let open = code.find("(1").unwrap();
    assert_eq!(find_matching_brace(code, open + 1), Some((open, code.find(");").unwrap())));
    // cursor just after the last '}'
    let last = code.len() - 1;
    assert_eq!(find_matching_brace(code, code.len()), Some((code.find('{').unwrap(), last)));
}

#[test]
fn brace_none_cases() {
    assert_eq!(find_matching_brace("abc", 0), None);
    assert_eq!(find_matching_brace("abc", 2), None);
    assert_eq!(find_matching_brace("(", 1), None);
    assert_eq!(find_matching_brace("())", 3), None);
    assert_eq!(find_matching_brace("ab", 5), None);
}

#[test]
fn api_docs() {
    assert_eq!(get_api_doc("click"), "Clicks an element identified by CSS selector. Usage: tab.click(\"#btn\");");
    assert_eq!(get_api_doc("Tab"), "Creates a new tab or attaches to one. Usage: let t = Tab(\"url\");");
    assert_eq!(get_api_doc("unknown_name"), "Sniper Browser API function.");
}

#[test]
fn completion_opens_on_dot_and_accepts() {
    let mut st = CompletionState { open: false, cursor: 0, index: 0, suggestions: Vec::new() };
    let code = "tab.";
    let r = handle_autocomplete(code, &mut st, 4, no_keys());
    assert!(r.is_none());
    assert!(st.open);
    assert_eq!(st.cursor, 4);
    assert_eq!(st.suggestions.len(), 21);
    assert_eq!(st.suggestions[0], "Tab");
    let mut keys = no_keys();
    keys.down = true;
    handle_autocomplete("tab.x", &mut st, 5, keys);
    assert_eq!(st.index, 1);
    keys = no_keys();
    keys.up = true;
    keys.up = true;
    handle_autocomplete("tab.x", &mut st, 5, keys);
    assert_eq!(st.index, 0);
    keys = no_keys();
    keys.up = true;
    handle_autocomplete("tab.x", &mut st, 5, keys);
    assert_eq!(st.index, 20);
    keys = no_keys();
    keys.accept = true;
    let r = handle_autocomplete("tab.x", &mut st, 5, keys);
    assert_eq!(r, Some("tab.xfs_append_text".to_string()));
    assert!(!st.open);
}

#[test]
fn completion_escape_and_cursor_zero() {
    let mut st = CompletionState { open: true, cursor: 3, index: 2, suggestions: browser_apis() };
    let mut keys = no_keys();
    keys.escape = true;
    assert!(handle_autocomplete("abc", &mut st, 0, keys).is_none());
    assert!(st.open);
    handle_autocomplete("abc", &mut st, 1, keys);
    assert!(!st.open);
}

#[test]
fn find_next_wraps_around() {
    let code = "click click";
    assert_eq!(find_next(code, 0, "click"), 5);
    assert_eq!(find_next(code, 5, "click"), 11);
    assert_eq!(find_next(code, 11, "click"), 5);
    assert_eq!(find_next(code, 3, "nothing"), 3);
    assert_eq!(find_next(code, 3, ""), 3);
}

#[test]
fn replace_at_cursor_only_when_selected() {
    assert_eq!(replace_at_cursor("a foo b", 5, "foo", "bar"), "a bar b");
    assert_eq!(replace_at_cursor("a foo b", 4, "foo", "bar"), "a foo b");
    assert_eq!(replace_at_cursor("foo", 2, "foo", "bar"), "foo");
    assert_eq!(replace_at_cursor("foo", 3, "", "bar"), "foo");
}

#[test]
fn replace_all_occurrences() {
    assert_eq!(replace_all("a.b.c", ".", "::"), "a::b::c");
    assert_eq!(replace_all("a.b.c", "", "x"), "a.b.c");
}

#[test]
fn tokens_cover_code() {
    let code = "let t = Tab(\"u\"); // hi\nt.click(12.5);";
    let toks = highlight_tokens(code);
    let chars: Vec<char> = code.chars().collect();
    let text = |i: usize| -> String { chars[toks[i].start..toks[i].end].iter().collect() };
    assert_eq!(toks[0].kind, TokenKind::Keyword);
    assert_eq!(text(0), "let");
    assert_eq!(toks[1].kind, TokenKind::Other);
    assert_eq!(toks[2].kind, TokenKind::Word);
    let tab = toks.iter().position(|t| t.kind == TokenKind::Api).unwrap();
    assert_eq!(text(tab), "Tab");
    let s = toks.iter().position(|t| t.kind == TokenKind::Str).unwrap();
    assert_eq!(text(s), "\"u\"");
    let c = toks.iter().position(|t| t.kind == TokenKind::Comment).unwrap();
    assert_eq!(text(c), "// hi");
    let n = toks.iter().position(|t| t.kind == TokenKind::Number).unwrap();
    assert_eq!(text(n), "12.5");
    assert_eq!(toks.last().unwrap().end, chars.len());
    for w in toks.windows(2) {
        assert_eq!(w[0].end, w[1].start);
    }
}

#[test]
fn error_marks_follow_lines() {
    let marks = error_marks("ab\ncd\nef", &vec![Some(2)]);
    assert_eq!(marks, vec![false, false, false, true, true, true, false, false]);
    let zero = error_marks("ab\ncd", &vec![Some(0), None]);
    assert_eq!(zero, vec![true, true, true, false, false]);
}

#[test]
fn gutter_and_lines() {
    assert_eq!(line_count(""), 0);
    assert_eq!(line_count("a\n"), 1);
    assert_eq!(line_count("a\nb"), 2);
    assert_eq!(gutter_text(""), "  1\n");
    assert_eq!(gutter_text("a\nb\nc"), "  1\n  2\n  3\n");
}

fn diag(line: Option<usize>, msg: &str) -> ScriptDiagnostic {
    ScriptDiagnostic {
        code: "X".to_string(),
        stage: DiagnosticStage::Compile,
        severity: DiagnosticSeverity::Error,
        message: msg.to_string(),
        line,
        column: None,
        hint: None,
    }
}

#[test]
fn hover_prefers_errors_then_docs() {
    let code = "tab.click(\"a\");\nlet x = 1;";
    let d = vec![diag(Some(2), "bad"), diag(Some(2), "worse")];
    assert_eq!(hover_info(code, 17, &d), Some("❌ Error: bad".to_string()));
    assert_eq!(hover_info(code, 6, &d), Some(format!("📖 API: click\n{}", get_api_doc("click"))));
    assert_eq!(hover_info(code, 1, &Vec::new()), None);
}

#[test]
fn enter_keeps_indentation() {
    let code = "    if x {\n";
    assert_eq!(auto_indent(code, code.chars().count()), Some(format!("{}        ", code)));
    let plain = "  a\n";
    assert_eq!(auto_indent(plain, 4), Some("  a\n  ".to_string()));
    assert_eq!(auto_indent("a\n", 2), None);
}

#[test]
fn debugger_helpers() {
    assert_eq!(clamp_debug_index(7, 3), 2);
    assert_eq!(clamp_debug_index(1, 3), 1);
    assert_eq!(clamp_debug_index(4, 0), 0);
    assert_eq!(step_label(0, 3), "Step 1/3");
    assert!(break_hit("[002] Click { selector: \"#Go\" }", "click"));
    assert!(!break_hit("[002] Click", "   "));
    assert!(!break_hit("[002] Wait", "click"));
}

#[test]
fn target_tab_binding() {
    assert_eq!(bound_tab(&Some("a".into()), &Some("b".into())), Some("a".to_string()));
    assert_eq!(bound_tab(&None, &Some("b".into())), Some("b".to_string()));
    assert_eq!(bound_tab(&None, &None), None);
}
