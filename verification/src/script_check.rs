//! The `Check` of a script package: compile, entry, lint, API guard and preflight findings.
use vstd::prelude::*;
use crate::script_types::{
    DiagnosticSeverity, DiagnosticStage, DiagnosticV, ScriptDiagnostic, ScriptPackage,
    ScriptingCheckReport, diags_view, opt_str_view,
};
use crate::script_actions::normalize_scripting_code;
use crate::script_actions::normalize_spec;
use crate::text::{
    ascii_alnum, chars_of, concat, concat3, dec_seq, first_captures, is_ascii_alnum, is_white, matches_at, occurs_at, white, group_at, group_text, own, regex_first_captures, parse_usize, parse_usize_spec, seq_contains, str_contains, trim_chars,
    trim_seq, string_from_chars, u64_to_string,
};

verus! {

// ---------------------------------------------------------------------------
// Outside calls
// ---------------------------------------------------------------------------

/// What compiling `code` with a default `rhai::Engine` reports: `None` when it compiles,
/// otherwise the parse error as `Display` renders it.
pub uninterp spec fn rhai_compile_outcome(code: Seq<char>) -> Option<Seq<char>>;

/// Compiles `code` with `rhai::Engine::new().compile(..)` and returns the rendered
/// parse error, if any. The contract only names the outcome: it is a function of the
/// code alone.
#[verifier::external_body]
pub(crate) fn rhai_compile_error(code: &str) -> (r: Option<String>)
    ensures
        opt_str_view(r) == rhai_compile_outcome(code@),
{
    match rhai::Engine::new().compile(code) {
        Ok(_) => None,
        Err(e) => Some(format!("{}", e)),
    }
}

// ---------------------------------------------------------------------------
// Line and column of an error message
// ---------------------------------------------------------------------------

/// The pattern of a `line N, position M` reference; groups 1 and 2 are the numbers.
pub open spec fn line_position_pattern() -> Seq<char> {
    "line\\s+(\\d+),\\s*position\\s+(\\d+)"@
}

/// The line and column that an error message names: the two groups of the
/// first `line N, position M` in it.
pub open spec fn line_col_spec(message: Seq<char>) -> (Option<usize>, Option<usize>) {
    match regex_first_captures(line_position_pattern(), message) {
        Some(m) => (parse_usize_spec(group_text(m, 1)), parse_usize_spec(group_text(m, 2))),
        None => (None, None),
    }
}

/// Reads `line N, position M` out of an error message.
pub fn extract_line_col(message: &str) -> (r: (Option<usize>, Option<usize>))
    ensures
        r == line_col_spec(message@),
{
    proof {
        reveal_strlit("line\\s+(\\d+),\\s*position\\s+(\\d+)");
    }
    match first_captures("line\\s+(\\d+),\\s*position\\s+(\\d+)", message) {
        Some(m) => {
            let a = match group_at(&m, 1) {
                Some(t) => t,
                None => String::new(),
            };
            let b = match group_at(&m, 2) {
                Some(t) => t,
                None => String::new(),
            };
            let ac = chars_of(a.as_str());
            let bc = chars_of(b.as_str());
            (parse_usize(&ac), parse_usize(&bc))
        },
        None => (None, None),
    }
}

// ---------------------------------------------------------------------------
// Diagnostics
// ---------------------------------------------------------------------------

pub open spec fn dv(
    code: Seq<char>,
    stage: DiagnosticStage,
    severity: DiagnosticSeverity,
    message: Seq<char>,
    line: Option<usize>,
    column: Option<usize>,
    hint: Option<Seq<char>>,
) -> DiagnosticV {
    DiagnosticV { code, stage, severity, message, line, column, hint }
}

/// Appends one diagnostic.
pub fn push_diag(
    diagnostics: &mut Vec<ScriptDiagnostic>,
    code: &str,
    stage: DiagnosticStage,
    severity: DiagnosticSeverity,
    message: String,
    line: Option<usize>,
    column: Option<usize>,
    hint: Option<String>,
)
    ensures
        diags_view(final(diagnostics)@) == diags_view(old(diagnostics)@).push(
            dv(code@, stage, severity, message@, line, column, opt_str_view(hint)),
        ),
{
    diagnostics.push(
        ScriptDiagnostic { code: own(code), stage, severity, message, line, column, hint },
    );
    assert(diags_view(diagnostics@) =~= diags_view(old(diagnostics)@).push(
        dv(code@, stage, severity, message@, line, column, opt_str_view(hint)),
    ));
}

pub open spec fn one_if(cond: bool, d: DiagnosticV) -> Seq<DiagnosticV> {
    if cond { seq![d] } else { Seq::empty() }
}

/// The compile finding for a compile outcome.
pub open spec fn compile_diag(outcome: Option<Seq<char>>) -> DiagnosticV {
    match outcome {
        None => dv("SC-COMPILE-OK"@, DiagnosticStage::Compile, DiagnosticSeverity::Info,
            "Rhai compile success"@, None, None, None),
        Some(e) => {
            let msg = "Rhai compile error: "@ + e;
            dv("SC-COMPILE-ERR"@, DiagnosticStage::Compile, DiagnosticSeverity::Error, msg,
                line_col_spec(msg).0, line_col_spec(msg).1,
                Some("Fix syntax and run Check again."@))
        },
    }
}

/// The entry finding, if any: a blank entry, or an entry with no `fn <entry>` in the code.
pub open spec fn entry_diags(code: Seq<char>, entry: Seq<char>) -> Seq<DiagnosticV> {
    let t = trim_seq(entry, None);
    if t.len() == 0 {
        seq![dv("SC-ENTRY-EMPTY"@, DiagnosticStage::Entry, DiagnosticSeverity::Error,
            "Entry function name is empty"@, None, None,
            Some("Set `entry` to a function name like `main`."@))]
    } else if !seq_contains(code, "fn "@ + t) {
        seq![dv("SC-ENTRY-MISSING"@, DiagnosticStage::Entry, DiagnosticSeverity::Error,
            "Entry function '"@ + entry + "' not found in script text"@, None, None,
            Some("Define the entry function or update `entry`."@))]
    } else {
        Seq::empty()
    }
}

/// A character that can continue a name.
pub open spec fn name_char(c: char) -> bool {
    is_ascii_alnum(c) || c == '_'
}

/// `var` followed by whitespace starts a word at `i`: a declaration in the
/// style Rhai does not accept.
pub open spec fn var_decl_at(code: Seq<char>, i: int) -> bool {
    &&& occurs_at(code, "var"@, i)
    &&& i + 3 < code.len() && is_white(code[i + 3])
    &&& (i == 0 || !name_char(code[i - 1]))
}

pub open spec fn has_var_decl(code: Seq<char>) -> bool {
    exists|i: int| #[trigger] var_decl_at(code, i)
}

fn find_var_decl(code: &Vec<char>) -> (r: bool)
    ensures
        r == has_var_decl(code@),
{
    proof {
        reveal_strlit("var");
    }
    let pat = chars_of("var");
    let mut i: usize = 0;
    while i < code.len()
        invariant
            i <= code.len(),
            pat@ == "var"@,
            forall|k: int| 0 <= k < i ==> !#[trigger] var_decl_at(code@, k),
        decreases code.len() - i,
    {
        if matches_at(code, &pat, i) && 3 < code.len() - i && white(code[i + 3])
            && (i == 0 || !(ascii_alnum(code[i - 1]) || code[i - 1] == '_')) {
            assert(var_decl_at(code@, i as int));
            return true;
        }
        i += 1;
    }
    proof {
        assert forall|k: int| !#[trigger] var_decl_at(code@, k) by {
            if k >= code.len() {
                assert(!occurs_at(code@, "var"@, k));
            }
        }
    }
    false
}

/// The lint warnings of a script text.
pub open spec fn lint_diags(code: Seq<char>) -> Seq<DiagnosticV> {
    one_if(seq_contains(code, "r#\""@), dv("SC-LINT-RAWSTR"@, DiagnosticStage::Lint,
        DiagnosticSeverity::Warn,
        "Rust raw-string syntax detected; Rhai expects backtick strings (`...`)"@, None, None,
        Some("Replace r#\"...\"# with `...`"@)))
    + one_if(seq_contains(code, "TabCatch("@), dv("SC-LINT-DEPRECATED-TABCATCH"@,
        DiagnosticStage::Lint, DiagnosticSeverity::Warn,
        "Deprecated API: prefer Tab.catch() alias style"@, None, None,
        Some("Use Tab.catch() for new scripts."@)))
    + one_if(seq_contains(code, "inject("@) && seq_contains(code, "`"@), dv(
        "SC-LINT-INJECT-QUOTE"@, DiagnosticStage::Lint, DiagnosticSeverity::Warn,
        "Potential quote mismatch around inject() arguments"@, None, None,
        Some("Use inject(\"...\") and escape nested quotes."@)))
    + one_if(has_var_decl(code), dv("SC-LINT-VAR"@, DiagnosticStage::Lint, DiagnosticSeverity::Warn,
        "`var` is reserved in Rhai; declare variables with `let`"@, None, None,
        Some("In Rhai, use 'let' instead of 'var' to declare variables."@)))
}

/// The static part of a check: compile, entry and lint findings, in that order, and
/// whether no error was found.
pub open spec fn static_check_diags(code: Seq<char>, entry: Seq<char>) -> Seq<DiagnosticV> {
    seq![compile_diag(rhai_compile_outcome(normalize_spec(code)))] + entry_diags(code, entry)
        + lint_diags(code)
}

pub open spec fn static_check_ok(code: Seq<char>, entry: Seq<char>) -> bool {
    rhai_compile_outcome(normalize_spec(code)) is None && entry_diags(code, entry).len() == 0
}

fn some_hint(h: &str) -> (r: Option<String>)
    ensures
        opt_str_view(r) == Some(h@),
{
    Some(own(h))
}

/// Compile, entry and lint checks of a package (the part of `Check` that needs
/// neither the host API nor a browser).
pub fn check_static(package: &ScriptPackage) -> (r: ScriptingCheckReport)
    ensures
        diags_view(r.diagnostics@) == static_check_diags(package.code@, package.entry@),
        r.ok == static_check_ok(package.code@, package.entry@),
{
    let mut diagnostics: Vec<ScriptDiagnostic> = Vec::new();
    let mut ok = true;
    let normalized = normalize_scripting_code(package.code.as_str());
    match rhai_compile_error(normalized.as_str()) {
        None => {
            push_diag(&mut diagnostics, "SC-COMPILE-OK", DiagnosticStage::Compile,
                DiagnosticSeverity::Info, own("Rhai compile success"), None, None, None);
        },
        Some(e) => {
            let msg = concat("Rhai compile error: ", e.as_str());
                        let (line, column) = extract_line_col(msg.as_str());
            push_diag(&mut diagnostics, "SC-COMPILE-ERR", DiagnosticStage::Compile,
                DiagnosticSeverity::Error, msg, line, column,
                some_hint("Fix syntax and run Check again."));
            ok = false;
        },
    }
    let ghost after_compile = diags_view(diagnostics@);
    assert(after_compile =~= seq![compile_diag(rhai_compile_outcome(normalize_spec(package.code@)))]);

    let ec = chars_of(package.entry.as_str());
    let et = trim_chars(&ec, None);
    if et.len() == 0 {
        push_diag(&mut diagnostics, "SC-ENTRY-EMPTY", DiagnosticStage::Entry,
            DiagnosticSeverity::Error, own("Entry function name is empty"), None, None,
            some_hint("Set `entry` to a function name like `main`."));
        ok = false;
    } else {
        let ets = string_from_chars(&et);
        let pattern = concat("fn ", ets.as_str());
                if !str_contains(package.code.as_str(), pattern.as_str()) {
            let msg = concat3("Entry function '", package.entry.as_str(), "' not found in script text");
            push_diag(&mut diagnostics, "SC-ENTRY-MISSING", DiagnosticStage::Entry,
                DiagnosticSeverity::Error, msg, None, None,
                some_hint("Define the entry function or update `entry`."));
            ok = false;
        }
    }
    let ghost after_entry = diags_view(diagnostics@);
    assert(after_entry =~= after_compile + entry_diags(package.code@, package.entry@));

    let c1 = str_contains(package.code.as_str(), "r#\"");
    if c1 {
        push_diag(&mut diagnostics, "SC-LINT-RAWSTR", DiagnosticStage::Lint,
            DiagnosticSeverity::Warn,
            own("Rust raw-string syntax detected; Rhai expects backtick strings (`...`)"), None,
            None, some_hint("Replace r#\"...\"# with `...`"));
    }
    let c2 = str_contains(package.code.as_str(), "TabCatch(");
    if c2 {
        push_diag(&mut diagnostics, "SC-LINT-DEPRECATED-TABCATCH", DiagnosticStage::Lint,
            DiagnosticSeverity::Warn, own("Deprecated API: prefer Tab.catch() alias style"),
            None, None, some_hint("Use Tab.catch() for new scripts."));
    }
    let c3 = str_contains(package.code.as_str(), "inject(") && str_contains(package.code.as_str(), "`");
    if c3 {
        push_diag(&mut diagnostics, "SC-LINT-INJECT-QUOTE", DiagnosticStage::Lint,
            DiagnosticSeverity::Warn, own("Potential quote mismatch around inject() arguments"),
            None, None, some_hint("Use inject(\"...\") and escape nested quotes."));
    }
    let code_chars = chars_of(package.code.as_str());
    if find_var_decl(&code_chars) {
        push_diag(&mut diagnostics, "SC-LINT-VAR", DiagnosticStage::Lint, DiagnosticSeverity::Warn,
            own("`var` is reserved in Rhai; declare variables with `let`"), None, None,
            some_hint("In Rhai, use 'let' instead of 'var' to declare variables."));
    }
    assert(diags_view(diagnostics@) =~= after_entry + lint_diags(package.code@));
    ScriptingCheckReport { ok, diagnostics }
}

// ---------------------------------------------------------------------------
// API guard and selector preflight
// ---------------------------------------------------------------------------

/// The finding of the API-guard stage: the number of planned actions, or the error
/// that building the plan raised.
pub open spec fn api_guard_diag(outcome: Result<nat, Seq<char>>) -> DiagnosticV {
    match outcome {
        Ok(n) => dv("SC-APIGUARD-OK"@, DiagnosticStage::ApiGuard, DiagnosticSeverity::Info,
            "API guard passed. Planned actions: "@ + dec_seq(n), None, None, None),
        Err(e) => dv("SC-APIGUARD-ERR"@, DiagnosticStage::ApiGuard, DiagnosticSeverity::Error,
            "API guard failed: "@ + e, line_col_spec(e).0, line_col_spec(e).1,
            Some("Check function names and argument counts/types."@)),
    }
}

/// Records the API-guard finding: `outcome` is the number of actions that building
/// the plan produced, or the rendered error it raised.
pub fn apply_api_guard(report: &mut ScriptingCheckReport, outcome: &Result<usize, String>)
    ensures
        diags_view(final(report).diagnostics@) == diags_view(old(report).diagnostics@).push(
            api_guard_diag(match outcome {
                Ok(n) => Ok(*n as nat),
                Err(e) => Err(e@),
            }),
        ),
        final(report).ok == (old(report).ok && outcome is Ok),
{
    match outcome {
        Ok(n) => {
            let count = u64_to_string(*n as u64);
            let msg = concat("API guard passed. Planned actions: ", count.as_str());
            push_diag(&mut report.diagnostics, "SC-APIGUARD-OK", DiagnosticStage::ApiGuard,
                DiagnosticSeverity::Info, msg, None, None, None);
        },
        Err(e) => {
            let (line, column) = extract_line_col(e.as_str());
            let msg = concat("API guard failed: ", e.as_str());
            push_diag(&mut report.diagnostics, "SC-APIGUARD-ERR", DiagnosticStage::ApiGuard,
                DiagnosticSeverity::Error, msg, line, column,
                some_hint("Check function names and argument counts/types."));
            report.ok = false;
        },
    }
}

/// One selector probe: its text, whether it parsed, and whether it matched an element.
pub struct SelectorProbe {
    pub selector: String,
    pub valid: bool,
    pub exists: bool,
}

/// What the preflight of one probe finds, if anything.
pub open spec fn probe_diags(selector: Seq<char>, valid: bool, exists: bool) -> Seq<DiagnosticV> {
    if !valid {
        seq![dv("SC-PREFLIGHT-SELECTOR-INVALID"@, DiagnosticStage::Preflight,
            DiagnosticSeverity::Error, "Invalid selector syntax: "@ + selector, None, None,
            Some("Fix CSS selector syntax."@))]
    } else if !exists {
        seq![dv("SC-PREFLIGHT-SELECTOR-NOTFOUND"@, DiagnosticStage::Preflight,
            DiagnosticSeverity::Warn, "Selector not found on selected tab: "@ + selector, None,
            None, Some("Page may not be ready; add wait or update selector."@))]
    } else {
        Seq::empty()
    }
}

pub open spec fn probes_diags(p: Seq<SelectorProbe>) -> Seq<DiagnosticV>
    decreases p.len(),
{
    if p.len() == 0 {
        Seq::empty()
    } else {
        probes_diags(p.drop_last()) + probe_diags(p.last().selector@, p.last().valid, p.last().exists)
    }
}

pub open spec fn probes_all_valid(p: Seq<SelectorProbe>) -> bool {
    forall|i: int| 0 <= i < p.len() ==> (#[trigger] p[i]).valid
}

/// Records the findings of a selector preflight whose probes ran: an error per
/// invalid selector (which fails the check), a warning per selector that matched nothing.
pub fn apply_preflight_results(report: &mut ScriptingCheckReport, probes: &Vec<SelectorProbe>)
    ensures
        diags_view(final(report).diagnostics@) == diags_view(old(report).diagnostics@)
            + probes_diags(probes@),
        final(report).ok == (old(report).ok && probes_all_valid(probes@)),
{
    let mut i: usize = 0;
    assert(probes@.take(0) =~= Seq::<SelectorProbe>::empty());
    assert(diags_view(report.diagnostics@) =~= diags_view(old(report).diagnostics@)
        + probes_diags(probes@.take(0)));
    while i < probes.len()
        invariant
            i <= probes.len(),
            diags_view(report.diagnostics@) == diags_view(old(report).diagnostics@)
                + probes_diags(probes@.take(i as int)),
            report.ok == (old(report).ok && probes_all_valid(probes@.take(i as int))),
        decreases probes.len() - i,
    {
        let p = &probes[i];
        let ghost before = diags_view(report.diagnostics@);
        assert(probes@.take(i + 1).drop_last() =~= probes@.take(i as int));
        if !p.valid {
            let msg = concat("Invalid selector syntax: ", p.selector.as_str());
            push_diag(&mut report.diagnostics, "SC-PREFLIGHT-SELECTOR-INVALID",
                DiagnosticStage::Preflight, DiagnosticSeverity::Error, msg, None, None,
                some_hint("Fix CSS selector syntax."));
            report.ok = false;
        } else if !p.exists {
            let msg = concat("Selector not found on selected tab: ", p.selector.as_str());
            push_diag(&mut report.diagnostics, "SC-PREFLIGHT-SELECTOR-NOTFOUND",
                DiagnosticStage::Preflight, DiagnosticSeverity::Warn, msg, None, None,
                some_hint("Page may not be ready; add wait or update selector."));
        }
        assert(diags_view(report.diagnostics@) =~= diags_view(old(report).diagnostics@)
            + probes_diags(probes@.take(i + 1)));
        assert(probes_all_valid(probes@.take(i + 1)) == (probes_all_valid(probes@.take(i as int))
            && probes@[i as int].valid)) by {
            if probes_all_valid(probes@.take(i + 1)) {
                assert(probes@.take(i + 1)[i as int] == probes@[i as int]);
            }
        }
        i += 1;
    }
    assert(probes@.take(probes.len() as int) =~= probes@);
}

/// Records a preflight that could not run its probes (a warning, the check still passes).
pub fn apply_preflight_failure(report: &mut ScriptingCheckReport, error: &str)
    ensures
        diags_view(final(report).diagnostics@) == diags_view(old(report).diagnostics@).push(
            dv("SC-PREFLIGHT-ERR"@, DiagnosticStage::Preflight, DiagnosticSeverity::Warn,
                "Preflight failed: "@ + error@, None, None,
                Some("Ensure selected tab is still open and browser is online."@)),
        ),
        final(report).ok == old(report).ok,
{
    let msg = concat("Preflight failed: ", error);
    push_diag(&mut report.diagnostics, "SC-PREFLIGHT-ERR", DiagnosticStage::Preflight,
        DiagnosticSeverity::Warn, msg, None, None,
        some_hint("Ensure selected tab is still open and browser is online."));
}

/// Records that preflight was skipped for want of a selected tab.
pub fn apply_preflight_skip(report: &mut ScriptingCheckReport)
    ensures
        diags_view(final(report).diagnostics@) == diags_view(old(report).diagnostics@).push(
            dv("SC-PREFLIGHT-SKIP"@, DiagnosticStage::Preflight, DiagnosticSeverity::Info,
                "Preflight skipped: no selected tab context"@, None, None,
                Some("Select an execution target tab to enable selector preflight."@)),
        ),
        final(report).ok == old(report).ok,
{
    push_diag(&mut report.diagnostics, "SC-PREFLIGHT-SKIP", DiagnosticStage::Preflight,
        DiagnosticSeverity::Info, own("Preflight skipped: no selected tab context"), None, None,
        some_hint("Select an execution target tab to enable selector preflight."));
}


// ---------------------------------------------------------------------------
// The check passes exactly when no finding is an error
// ---------------------------------------------------------------------------

/// No finding is an error.
pub open spec fn no_errors(ds: Seq<DiagnosticV>) -> bool {
    forall|i: int| 0 <= i < ds.len() ==> (#[trigger] ds[i]).severity != DiagnosticSeverity::Error
}

proof fn lemma_no_errors_concat(a: Seq<DiagnosticV>, b: Seq<DiagnosticV>)
    ensures
        no_errors(a + b) == (no_errors(a) && no_errors(b)),
{
    if no_errors(a) && no_errors(b) {
        assert forall|i: int| 0 <= i < (a + b).len() implies (#[trigger] (a + b)[i]).severity
            != DiagnosticSeverity::Error by {
            if i >= a.len() {
                assert((a + b)[i] == b[i - a.len()]);
            } else {
                assert((a + b)[i] == a[i]);
            }
        }
    }
    if no_errors(a + b) {
        assert forall|i: int| 0 <= i < a.len() implies (#[trigger] a[i]).severity != DiagnosticSeverity::Error by {
            assert((a + b)[i] == a[i]);
        }
        assert forall|i: int| 0 <= i < b.len() implies (#[trigger] b[i]).severity != DiagnosticSeverity::Error by {
            assert((a + b)[i + a.len()] == b[i]);
        }
    }
}

proof fn lemma_probes_no_errors(p: Seq<SelectorProbe>)
    ensures
        no_errors(probes_diags(p)) == probes_all_valid(p),
    decreases p.len(),
{
    if p.len() > 0 {
        lemma_probes_no_errors(p.drop_last());
        lemma_no_errors_concat(
            probes_diags(p.drop_last()),
            probe_diags(p.last().selector@, p.last().valid, p.last().exists),
        );
        let pd = probe_diags(p.last().selector@, p.last().valid, p.last().exists);
        if !p.last().valid {
            assert(pd[0].severity == DiagnosticSeverity::Error);
        } else {
            assert(no_errors(pd));
        }
        if probes_all_valid(p.drop_last()) && p.last().valid {
            assert forall|i: int| 0 <= i < p.len() implies (#[trigger] p[i]).valid by {
                if i < p.len() - 1 {
                    assert(p[i] == p.drop_last()[i]);
                }
            }
        }
        if probes_all_valid(p) {
            assert forall|i: int| 0 <= i < p.drop_last().len() implies (#[trigger] p.drop_last()[i]).valid by {
                assert(p.drop_last()[i] == p[i]);
            }
            assert(p[p.len() - 1].valid);
        }
    }
}

/// Across the whole check, the report passes exactly when none of its findings
/// is an error: after the static part, and after each of the API guard, the
/// selector preflight, a failed preflight and a skipped preflight.
pub proof fn lemma_ok_iff_no_errors(
    code: Seq<char>,
    entry: Seq<char>,
    before: Seq<DiagnosticV>,
    ok: bool,
    outcome: Result<nat, Seq<char>>,
    probes: Seq<SelectorProbe>,
    error: Seq<char>,
)
    ensures
        static_check_ok(code, entry) == no_errors(static_check_diags(code, entry)),
        ok == no_errors(before) ==> (ok && outcome is Ok) == no_errors(before.push(api_guard_diag(outcome))),
        ok == no_errors(before) ==> (ok && probes_all_valid(probes)) == no_errors(before + probes_diags(probes)),
        ok == no_errors(before) ==> ok == no_errors(before.push(dv("SC-PREFLIGHT-ERR"@, DiagnosticStage::Preflight,
            DiagnosticSeverity::Warn, "Preflight failed: "@ + error, None, None,
            Some("Ensure selected tab is still open and browser is online."@)))),
        ok == no_errors(before) ==> ok == no_errors(before.push(dv("SC-PREFLIGHT-SKIP"@, DiagnosticStage::Preflight,
            DiagnosticSeverity::Info, "Preflight skipped: no selected tab context"@, None, None,
            Some("Select an execution target tab to enable selector preflight."@)))),
{
    let c = seq![compile_diag(rhai_compile_outcome(normalize_spec(code)))];
    let e = entry_diags(code, entry);
    let l = lint_diags(code);
    lemma_no_errors_concat(c + e, l);
    lemma_no_errors_concat(c, e);
    assert(no_errors(l));
    if !no_errors(c) {
        assert(c[0].severity == DiagnosticSeverity::Error);
    }
    if e.len() > 0 {
        assert(e[0].severity == DiagnosticSeverity::Error);
    }
    assert(no_errors(c) == (rhai_compile_outcome(normalize_spec(code)) is None));
    assert(no_errors(e) == (e.len() == 0));
    let g = seq![api_guard_diag(outcome)];
    assert(before.push(api_guard_diag(outcome)) == before + g);
    lemma_no_errors_concat(before, g);
    if !no_errors(g) {
        assert(g[0].severity == DiagnosticSeverity::Error);
    }
    lemma_probes_no_errors(probes);
    lemma_no_errors_concat(before, probes_diags(probes));
    let f = dv("SC-PREFLIGHT-ERR"@, DiagnosticStage::Preflight, DiagnosticSeverity::Warn, "Preflight failed: "@
        + error, None, None, Some("Ensure selected tab is still open and browser is online."@));
    assert(before.push(f) == before + seq![f]);
    lemma_no_errors_concat(before, seq![f]);
    let k = dv("SC-PREFLIGHT-SKIP"@, DiagnosticStage::Preflight, DiagnosticSeverity::Info,
        "Preflight skipped: no selected tab context"@, None, None,
        Some("Select an execution target tab to enable selector preflight."@));
    assert(before.push(k) == before + seq![k]);
    lemma_no_errors_concat(before, seq![k]);
}


// ---------------------------------------------------------------------------
// The stages of a check, in order
// ---------------------------------------------------------------------------

pub open spec fn guard_view(g: Option<Result<usize, String>>) -> Option<Result<nat, Seq<char>>> {
    match g {
        Some(Ok(n)) => Some(Ok(n as nat)),
        Some(Err(e)) => Some(Err(e@)),
        None => None,
    }
}

pub open spec fn preflight_view(p: Option<Result<Vec<SelectorProbe>, String>>) -> Option<Result<Seq<SelectorProbe>, Seq<char>>> {
    match p {
        Some(Ok(v)) => Some(Ok(v@)),
        Some(Err(e)) => Some(Err(e@)),
        None => None,
    }
}

/// What the API-guard stage adds: its finding, only where the static check
/// passed and the guard ran.
pub open spec fn guard_stage(ok: bool, guard: Option<Result<nat, Seq<char>>>) -> Seq<DiagnosticV> {
    match guard {
        Some(o) => if ok { seq![api_guard_diag(o)] } else { Seq::empty() },
        None => Seq::empty(),
    }
}

pub open spec fn preflight_failed_diag(e: Seq<char>) -> DiagnosticV {
    dv("SC-PREFLIGHT-ERR"@, DiagnosticStage::Preflight, DiagnosticSeverity::Warn,
        "Preflight failed: "@ + e, None, None,
        Some("Ensure selected tab is still open and browser is online."@))
}

pub open spec fn preflight_skipped_diag() -> DiagnosticV {
    dv("SC-PREFLIGHT-SKIP"@, DiagnosticStage::Preflight, DiagnosticSeverity::Info,
        "Preflight skipped: no selected tab context"@, None, None,
        Some("Select an execution target tab to enable selector preflight."@))
}

/// What the preflight stage adds: nothing unless preflight was asked for and
/// no error came before; then a skip notice without a target tab, else the
/// probes' findings or the failure to probe.
pub open spec fn preflight_stage(
    ok: bool,
    run_preflight: bool,
    has_target: bool,
    probes: Option<Result<Seq<SelectorProbe>, Seq<char>>>,
) -> Seq<DiagnosticV> {
    if !(run_preflight && ok) {
        Seq::empty()
    } else if !has_target {
        seq![preflight_skipped_diag()]
    } else {
        match probes {
            Some(Ok(p)) => probes_diags(p),
            Some(Err(e)) => seq![preflight_failed_diag(e)],
            None => Seq::empty(),
        }
    }
}

pub open spec fn preflight_ok(ok: bool, run_preflight: bool, has_target: bool, probes: Option<Result<Seq<SelectorProbe>, Seq<char>>>) -> bool {
    if run_preflight && ok && has_target {
        match probes {
            Some(Ok(p)) => probes_all_valid(p),
            _ => true,
        }
    } else {
        true
    }
}

/// Finishes a check after its static part: the API guard's outcome (where it
/// ran) is recorded only when the static part passed, and the preflight's
/// (where the probes ran) only when preflight was asked for and nothing failed
/// before it. The report passes exactly when none of its findings is an error.
pub fn finish_check(
    report: &mut ScriptingCheckReport,
    guard: &Option<Result<usize, String>>,
    run_preflight: bool,
    has_target: bool,
    probes: &Option<Result<Vec<SelectorProbe>, String>>,
)
    ensures
        ({
            let ok0 = old(report).ok;
            let g = guard_view(*guard);
            let ok1 = ok0 && (match g {
                Some(o) => o is Ok,
                None => true,
            });
            &&& diags_view(final(report).diagnostics@) == diags_view(old(report).diagnostics@)
                + guard_stage(ok0, g) + preflight_stage(ok1, run_preflight, has_target, preflight_view(*probes))
            &&& final(report).ok == (ok1 && preflight_ok(ok1, run_preflight, has_target, preflight_view(*probes)))
        }),
        old(report).ok == no_errors(diags_view(old(report).diagnostics@)) ==> final(report).ok == no_errors(
            diags_view(final(report).diagnostics@),
        ),
{
    let ghost d0 = diags_view(report.diagnostics@);
    let ghost ok0 = report.ok;
    if report.ok {
        if let Some(outcome) = guard {
            apply_api_guard(report, outcome);
        }
    }
    let ghost d1 = diags_view(report.diagnostics@);
    let ghost ok1 = report.ok;
    proof {
        assert(d1 == d0 + guard_stage(ok0, guard_view(*guard)));
        let gs = guard_stage(ok0, guard_view(*guard));
        lemma_no_errors_concat(d0, gs);
        if gs.len() > 0 && (gs[0].severity == DiagnosticSeverity::Error) {
            assert(!no_errors(gs));
        }
        if ok0 && guard is Some && guard->Some_0 is Ok {
            assert(no_errors(gs));
        }
        if guard is None || !ok0 {
            assert(gs =~= Seq::<DiagnosticV>::empty());
            assert(d1 =~= d0);
        }
    }
    if run_preflight && report.ok {
        if !has_target {
            apply_preflight_skip(report);
        } else {
            match probes {
                Some(Ok(p)) => apply_preflight_results(report, p),
                Some(Err(e)) => apply_preflight_failure(report, e.as_str()),
                None => {},
            }
        }
    }
    proof {
        let ps = preflight_stage(ok1, run_preflight, has_target, preflight_view(*probes));
        assert(diags_view(report.diagnostics@) =~= d1 + ps);
        lemma_no_errors_concat(d1, ps);
        if run_preflight && ok1 {
            if !has_target {
                assert(no_errors(ps));
            } else {
                if probes is Some && probes->Some_0 is Ok {
                    lemma_probes_no_errors(probes->Some_0->Ok_0@);
                } else if probes is None {
                    assert(ps =~= Seq::<DiagnosticV>::empty());
                }
            }
        } else {
            assert(ps =~= Seq::<DiagnosticV>::empty());
        }
    }
}

} // verus!
