//! The automation engine's decisions: variable interpolation, the page command each
//! step becomes, loop scoping, extraction results and the retry policy.
use vstd::prelude::*;
use crate::context::{
    AutomationContext, VarMap, lookup_var, pop_scope_spec, push_scope_spec, set_global,
};
use crate::cdp::{js_escape, js_escape_str};
use crate::dsl::{Step, StepV};
use crate::strmap::StrMap;
use crate::text::{
    all_captures, chars_of, concat, group_at, group_text, groups_view, regex_all_captures, concat3, dec_seq, own, parse_usize, parse_usize_spec, replace_chars,
    replace_seq, string_from_chars, trim_chars, trim_seq, u64_to_string,
};

verus! {

// ---------------------------------------------------------------------------
// Configuration and construction
// ---------------------------------------------------------------------------

/// Retry and timeout rules for one run.
pub struct ExecutionConfig {
    pub step_timeout_ms: u64,
    pub retry_attempts: u32,
    pub screenshot_on_error: bool,
}

impl ExecutionConfig {
    /// A 30 s step timeout, no retries, a screenshot on error.
    pub fn default() -> (r: Self)
        ensures
            r.step_timeout_ms == 30000,
            r.retry_attempts == 0,
            r.screenshot_on_error,
    {
        ExecutionConfig { step_timeout_ms: 30000, retry_attempts: 0, screenshot_on_error: true }
    }
}

/// An engine bound to one tab: its run context and its execution rules.
pub struct AutomationEngine {
    pub context: AutomationContext,
    pub config: ExecutionConfig,
}

impl AutomationEngine {
    /// A fresh engine for a tab, with a fresh context and the default rules.
    pub fn new(port: u16, tab_id: String, output_dir: String) -> (r: Self)
        ensures
            r.context.wf(),
            r.context.port == port,
            r.context.tab_id@ == tab_id@,
            r.context.output_dir@ == output_dir@,
            r.context.current_step == 0,
            r.context.scopes_view() == seq![Map::<Seq<char>, Seq<char>>::empty()],
            r.context.rows_view() == Seq::<VarMap>::empty(),
            r.config.step_timeout_ms == 30000,
            r.config.retry_attempts == 0,
            r.config.screenshot_on_error,
    {
        AutomationEngine {
            context: AutomationContext::new(port, tab_id, output_dir),
            config: ExecutionConfig::default(),
        }
    }
}

// ---------------------------------------------------------------------------
// Interpolation of `{{name}}` placeholders
// ---------------------------------------------------------------------------

/// The pattern of a `{{name}}` placeholder; group 1 is the name.
pub open spec fn placeholder_pattern() -> Seq<char> {
    "\\{\\{([^}]+)\\}\\}"@
}

/// The placeholders of a text, left to right, as (whole match, name).
pub open spec fn template_placeholders(text: Seq<char>) -> Seq<(Seq<char>, Seq<char>)> {
    regex_all_captures(placeholder_pattern(), text).map_values(
        |m: Seq<Option<Seq<char>>>| (group_text(m, 0), group_text(m, 1)),
    )
}

/// Lists the `{{name}}` placeholders of `text` as (match, name).
fn placeholder_matches(text: &str) -> (r: Vec<(String, String)>)
    ensures
        r@.map_values(|p: (String, String)| (p.0@, p.1@)) == template_placeholders(text@),
{
    let caps = all_captures("\\{\\{([^}]+)\\}\\}", text);
    proof {
        reveal_strlit("\\{\\{([^}]+)\\}\\}");
    }
    let ghost cv = caps@.map_values(|m: Vec<Option<String>>| groups_view(m@));
    let mut out: Vec<(String, String)> = Vec::new();
    let mut i: usize = 0;
    while i < caps.len()
        invariant
            i <= caps.len(),
            cv == caps@.map_values(|m: Vec<Option<String>>| groups_view(m@)),
            cv == regex_all_captures(placeholder_pattern(), text@),
            out@.map_values(|p: (String, String)| (p.0@, p.1@)) == cv.take(i as int).map_values(
                |m: Seq<Option<Seq<char>>>| (group_text(m, 0), group_text(m, 1)),
            ),
        decreases caps.len() - i,
    {
        let g0 = match group_at(&caps[i], 0) {
            Some(t) => t,
            None => String::new(),
        };
        let g1 = match group_at(&caps[i], 1) {
            Some(t) => t,
            None => String::new(),
        };
        let ghost before = out@.map_values(|p: (String, String)| (p.0@, p.1@));
        proof {
            assert(cv[i as int] == groups_view(caps@[i as int]@));
            assert(g0@ == group_text(cv[i as int], 0));
            assert(g1@ == group_text(cv[i as int], 1));
        }
        out.push((g0, g1));
        proof {
            assert(out@.map_values(|p: (String, String)| (p.0@, p.1@)) =~= before.push((g0@, g1@)));
            assert(cv.take(i + 1) =~= cv.take(i as int).push(cv[i as int]));
            assert(out@.map_values(|p: (String, String)| (p.0@, p.1@)) =~= cv.take(i + 1).map_values(
                |m: Seq<Option<Seq<char>>>| (group_text(m, 0), group_text(m, 1)),
            ));
        }
        i += 1;
    }
    assert(cv.take(caps.len() as int) =~= cv);
    out
}

/// Substitutes the first `k` placeholders in turn: each placeholder whose (trimmed) name
/// has a value replaces every occurrence of its match in the text so far.
pub open spec fn interpolate_upto(
    scopes: Seq<VarMap>,
    text: Seq<char>,
    ph: Seq<(Seq<char>, Seq<char>)>,
    k: nat,
) -> Seq<char>
    decreases k,
{
    if k == 0 || k > ph.len() {
        text
    } else {
        let prev = interpolate_upto(scopes, text, ph, (k - 1) as nat);
        let (full, name) = ph[k - 1];
        match lookup_var(scopes, trim_seq(name, None)) {
            Some(v) => if full.len() > 0 { replace_seq(prev, full, v) } else { prev },
            None => prev,
        }
    }
}

pub open spec fn interpolate_spec(scopes: Seq<VarMap>, text: Seq<char>) -> Seq<char> {
    interpolate_upto(scopes, text, template_placeholders(text), template_placeholders(text).len())
}

/// A placeholder whose name no scope binds is left as it is: where no
/// placeholder of the text names a set variable, the text comes back unchanged.
pub proof fn lemma_interpolate_unbound(scopes: Seq<VarMap>, text: Seq<char>)
    requires
        forall|k: int|
            0 <= k < template_placeholders(text).len() ==> lookup_var(
                scopes,
                trim_seq(#[trigger] template_placeholders(text)[k].1, None),
            ) is None,
    ensures
        interpolate_spec(scopes, text) == text,
{
    let ph = template_placeholders(text);
    assert forall|n: nat| n <= ph.len() implies #[trigger] interpolate_upto(scopes, text, ph, n) == text by {
        lemma_interpolate_upto_unbound(scopes, text, ph, n);
    }
}

proof fn lemma_interpolate_upto_unbound(
    scopes: Seq<VarMap>,
    text: Seq<char>,
    ph: Seq<(Seq<char>, Seq<char>)>,
    n: nat,
)
    requires
        n <= ph.len(),
        forall|k: int| 0 <= k < ph.len() ==> lookup_var(scopes, trim_seq(#[trigger] ph[k].1, None)) is None,
    ensures
        interpolate_upto(scopes, text, ph, n) == text,
    decreases n,
{
    if n > 0 {
        lemma_interpolate_upto_unbound(scopes, text, ph, (n - 1) as nat);
        let _ = ph[n - 1].1;
    }
}

/// Replaces `{{name}}` placeholders with the values of the named variables.
pub fn interpolate(ctx: &AutomationContext, text: &str) -> (r: String)
    requires
        ctx.wf(),
    ensures
        r@ == interpolate_spec(ctx.scopes_view(), text@),
{
    let ph = placeholder_matches(text);
    let ghost phv = ph@.map_values(|p: (String, String)| (p.0@, p.1@));
    let mut result = chars_of(text);
    let mut i: usize = 0;
    while i < ph.len()
        invariant
            i <= ph.len(),
            ctx.wf(),
            phv == ph@.map_values(|p: (String, String)| (p.0@, p.1@)),
            phv == template_placeholders(text@),
            result@ == interpolate_upto(ctx.scopes_view(), text@, phv, i as nat),
        decreases ph.len() - i,
    {
        let full = &ph[i].0;
        let nc = chars_of(ph[i].1.as_str());
        let nt = trim_chars(&nc, None);
        let name = string_from_chars(&nt);
        assert(phv[i as int] == (full@, ph@[i as int].1@));
        match ctx.get_variable(name.as_str()) {
            Some(v) => {
                let fc = chars_of(full.as_str());
                if fc.len() > 0 {
                    let vc = chars_of(v.as_str());
                    result = replace_chars(&result, &fc, &vc);
                }
            },
            None => {},
        }
        i += 1;
    }
    string_from_chars(&result)
}

/// Interpolation followed by escaping for a single-quoted JavaScript string.
pub open spec fn sel_spec(scopes: Seq<VarMap>, s: Seq<char>) -> Seq<char> {
    js_escape(interpolate_spec(scopes, s))
}

fn escaped_selector(ctx: &AutomationContext, s: &str) -> (r: String)
    requires
        ctx.wf(),
    ensures
        r@ == sel_spec(ctx.scopes_view(), s@),
{
    let t = interpolate(ctx, s);
    js_escape_str(t.as_str())
}

// ---------------------------------------------------------------------------
// Page scripts of the individual steps
// ---------------------------------------------------------------------------

pub open spec fn right_click_js_spec(esc: Seq<char>) -> Seq<char> {
    "const el = document.querySelector('"@ + esc + "'); if (!el) throw new Error('Element not found'); const ev = new MouseEvent('contextmenu', { bubbles: true, cancelable: true, view: window, button: 2 }); el.dispatchEvent(ev); return true;"@
}

pub open spec fn wait_selector_js_spec(esc: Seq<char>, timeout_ms: u64) -> Seq<char> {
    "return new Promise((resolve, reject) => { const check = () => { const el = document.querySelector('"@ + esc + "'); if (el) { el.style.outline = '2px dashed #00ff00'; resolve(true); return true; } return false; }; if (check()) return; const start = Date.now(); const timer = setInterval(() => { if (check()) { clearInterval(timer); } if (Date.now() - start > "@ + dec_seq(timeout_ms as nat) + ") { clearInterval(timer); reject('Timeout waiting for element'); } }, 200); })"@
}

pub open spec fn extract_js_spec(esc: Seq<char>) -> Seq<char> {
    "const el = document.querySelector('"@ + esc + "'); if (!el) return 'NOT_FOUND'; el.style.backgroundColor = 'rgba(0, 255, 0, 0.2)'; return el.innerText || el.value || '';"@
}

pub open spec fn exists_js_spec(esc: Seq<char>) -> Seq<char> {
    "!!document.querySelector('"@ + esc + "')"@
}

pub open spec fn count_js_spec(esc: Seq<char>) -> Seq<char> {
    "document.querySelectorAll('"@ + esc + "').length"@
}

pub open spec fn focus_frame_js_spec(esc: Seq<char>) -> Seq<char> {
    "document.querySelector('"@ + esc + "').contentWindow.focus()"@
}

pub open spec fn scroll_bottom_js() -> Seq<char> {
    "window.scrollTo(0, document.body.scrollHeight)"@
}

/// What the engine does with the page for one step.
pub enum StepCommand {
    Navigate { url: String },
    Click { selector: String },
    Hover { selector: String },
    TypeText { selector: String, value: String },
    /// Evaluate a page script and ignore its value.
    Eval { js: String },
    SleepSeconds { seconds: u64 },
    SleepMs { ms: u64 },
    /// Wait for the navigation to commit, then sleep.
    SettleMs { ms: u64 },
    /// Evaluate `js`; `NOT_FOUND` fails the step, anything else is stored under `key`.
    Extract { js: String, key: String, add_to_row: bool, selector: String },
    NewRow,
    Export { filename: String },
    Screenshot { filename: String },
    SetVariable { key: String, value: String },
    /// Evaluate `js`; when it gives `true`, run the nested steps.
    Branch { js: String },
    /// Evaluate `js` for an element count, then run the body once per element.
    Repeat { js: String, selector: String },
    /// Run the steps of the named function of the document, in order.
    Call { name: String },
    /// Read the dataset file and run the steps after this one once per row,
    /// with the row's columns bound as variables.
    ImportRows { filename: String },
    /// Scroll to the bottom up to `max_rounds` times, waiting `settle_ms` after
    /// each round, and stop early once `probe_js` (where there is one) gives `true`.
    SmartScroll { probe_js: Option<String>, max_rounds: u32, settle_ms: u64 },
    Nothing,
}

pub ghost enum CommandV {
    Navigate { url: Seq<char> },
    Click { selector: Seq<char> },
    Hover { selector: Seq<char> },
    TypeText { selector: Seq<char>, value: Seq<char> },
    Eval { js: Seq<char> },
    SleepSeconds { seconds: u64 },
    SleepMs { ms: u64 },
    SettleMs { ms: u64 },
    Extract { js: Seq<char>, key: Seq<char>, add_to_row: bool, selector: Seq<char> },
    NewRow,
    Export { filename: Seq<char> },
    Screenshot { filename: Seq<char> },
    SetVariable { key: Seq<char>, value: Seq<char> },
    Branch { js: Seq<char> },
    Repeat { js: Seq<char>, selector: Seq<char> },
    Call { name: Seq<char> },
    ImportRows { filename: Seq<char> },
    SmartScroll { probe_js: Option<Seq<char>>, max_rounds: u32, settle_ms: u64 },
    Nothing,
}

impl View for StepCommand {
    type V = CommandV;

    open spec fn view(&self) -> CommandV {
        match *self {
            StepCommand::Navigate { url } => CommandV::Navigate { url: url@ },
            StepCommand::Click { selector } => CommandV::Click { selector: selector@ },
            StepCommand::Hover { selector } => CommandV::Hover { selector: selector@ },
            StepCommand::TypeText { selector, value } => CommandV::TypeText {
                selector: selector@,
                value: value@,
            },
            StepCommand::Eval { js } => CommandV::Eval { js: js@ },
            StepCommand::SleepSeconds { seconds } => CommandV::SleepSeconds { seconds },
            StepCommand::SleepMs { ms } => CommandV::SleepMs { ms },
            StepCommand::SettleMs { ms } => CommandV::SettleMs { ms },
            StepCommand::Extract { js, key, add_to_row, selector } => CommandV::Extract {
                js: js@,
                key: key@,
                add_to_row,
                selector: selector@,
            },
            StepCommand::NewRow => CommandV::NewRow,
            StepCommand::Export { filename } => CommandV::Export { filename: filename@ },
            StepCommand::Screenshot { filename } => CommandV::Screenshot { filename: filename@ },
            StepCommand::SetVariable { key, value } => CommandV::SetVariable {
                key: key@,
                value: value@,
            },
            StepCommand::Branch { js } => CommandV::Branch { js: js@ },
            StepCommand::Repeat { js, selector } => CommandV::Repeat { js: js@, selector: selector@ },
            StepCommand::Call { name } => CommandV::Call { name: name@ },
            StepCommand::ImportRows { filename } => CommandV::ImportRows { filename: filename@ },
            StepCommand::SmartScroll { probe_js, max_rounds, settle_ms } => CommandV::SmartScroll {
                probe_js: match probe_js {
                    Some(j) => Some(j@),
                    None => None,
                },
                max_rounds,
                settle_ms,
            },
            StepCommand::Nothing => CommandV::Nothing,
        }
    }
}

/// The command of a step, with its texts interpolated (and selectors escaped where they
/// go into a page script). A frame switch to an empty selector gives `Nothing`.
pub open spec fn command_spec(scopes: Seq<VarMap>, step: StepV) -> CommandV {
    match step {
        StepV::Navigate { url } => CommandV::Navigate { url: interpolate_spec(scopes, url) },
        StepV::Click { selector } => CommandV::Click { selector: interpolate_spec(scopes, selector) },
        StepV::RightClick { selector } => CommandV::Eval {
            js: right_click_js_spec(sel_spec(scopes, selector)),
        },
        StepV::Hover { selector } => CommandV::Hover { selector: interpolate_spec(scopes, selector) },
        StepV::Type { selector, value, .. } => CommandV::TypeText {
            selector: interpolate_spec(scopes, selector),
            value: interpolate_spec(scopes, value),
        },
        StepV::Wait { seconds } => CommandV::SleepSeconds { seconds },
        StepV::WaitSelector { selector, timeout_ms } => CommandV::Eval {
            js: wait_selector_js_spec(sel_spec(scopes, selector), timeout_ms),
        },
        StepV::Extract { selector, as_key, add_to_row } => CommandV::Extract {
            js: extract_js_spec(sel_spec(scopes, selector)),
            key: as_key,
            add_to_row,
            selector: sel_spec(scopes, selector),
        },
        StepV::NewRow => CommandV::NewRow,
        StepV::Export { filename } => CommandV::Export { filename: interpolate_spec(scopes, filename) },
        StepV::Screenshot { filename } => CommandV::Screenshot {
            filename: interpolate_spec(scopes, filename),
        },
        StepV::WaitUntilIdle { timeout_ms } => CommandV::SettleMs { ms: timeout_ms },
        StepV::WaitNetworkIdle { timeout_ms, .. } => CommandV::SleepMs { ms: timeout_ms },
        StepV::SetVariable { key, value } => CommandV::SetVariable {
            key,
            value: interpolate_spec(scopes, value),
        },
        StepV::ScrollBottom => CommandV::Eval { js: scroll_bottom_js() },
        StepV::SwitchFrame { selector } => if interpolate_spec(scopes, selector).len() == 0 {
            CommandV::Nothing
        } else {
            CommandV::Eval { js: focus_frame_js_spec(sel_spec(scopes, selector)) }
        },
        StepV::If { selector, .. } => CommandV::Branch { js: exists_js_spec(sel_spec(scopes, selector)) },
        StepV::ForEach { selector, .. } => CommandV::Repeat {
            js: count_js_spec(sel_spec(scopes, selector)),
            selector: sel_spec(scopes, selector),
        },
        StepV::CallFunction { name } => CommandV::Call { name: interpolate_spec(scopes, name) },
        StepV::ImportDataset { filename } => CommandV::ImportRows { filename: interpolate_spec(scopes, filename) },
        StepV::SmartScroll { until_selector, max_rounds, settle_ms } => CommandV::SmartScroll {
            probe_js: match until_selector {
                Some(sel) => Some(exists_js_spec(sel_spec(scopes, sel))),
                None => None,
            },
            max_rounds,
            settle_ms,
        },
    }
}

/// A text that is exactly one placeholder naming a bound variable reads as
/// that variable's value.
pub proof fn lemma_placeholder_replaced(scopes: Seq<VarMap>, text: Seq<char>, name: Seq<char>, v: Seq<char>)
    requires
        text.len() > 0,
        template_placeholders(text) == seq![(text, name)],
        lookup_var(scopes, trim_seq(name, None)) == Some(v),
    ensures
        interpolate_spec(scopes, text) == v,
{
    let ph = template_placeholders(text);
    assert(interpolate_upto(scopes, text, ph, 0) == text);
    assert(text.take(text.len() as int) =~= text);
    assert(text.skip(text.len() as int) =~= Seq::<char>::empty());
    assert(replace_seq(Seq::<char>::empty(), text, v) == Seq::<char>::empty());
    assert(replace_seq(text, text, v) =~= v);
}

/// What a step types, clicks, opens or stores is its text with the run's
/// variables substituted: a `Type` step types its value after interpolation
/// (so a placeholder of a bound variable types that variable's value), and
/// the same holds for the target of `Navigate`, `Click` and `Hover` and the
/// value a `SetVariable` stores.
pub proof fn lemma_step_texts_interpolated(
    scopes: Seq<VarMap>,
    selector: Seq<char>,
    value: Seq<char>,
    is_variable: bool,
    key: Seq<char>,
)
    ensures
        command_spec(scopes, StepV::Type { selector, value, is_variable }) == (CommandV::TypeText {
            selector: interpolate_spec(scopes, selector),
            value: interpolate_spec(scopes, value),
        }),
        command_spec(scopes, StepV::Navigate { url: value }) == (CommandV::Navigate {
            url: interpolate_spec(scopes, value),
        }),
        command_spec(scopes, StepV::Click { selector }) == (CommandV::Click {
            selector: interpolate_spec(scopes, selector),
        }),
        command_spec(scopes, StepV::Hover { selector }) == (CommandV::Hover {
            selector: interpolate_spec(scopes, selector),
        }),
        command_spec(scopes, StepV::SetVariable { key, value }) == (CommandV::SetVariable {
            key,
            value: interpolate_spec(scopes, value),
        }),
{
}

/// Typing a value that is one placeholder of a bound variable types the
/// variable's value, not the placeholder.
pub proof fn lemma_typed_placeholder_is_value(
    scopes: Seq<VarMap>,
    selector: Seq<char>,
    value: Seq<char>,
    is_variable: bool,
    name: Seq<char>,
    v: Seq<char>,
)
    requires
        value.len() > 0,
        template_placeholders(value) == seq![(value, name)],
        lookup_var(scopes, trim_seq(name, None)) == Some(v),
    ensures
        command_spec(scopes, StepV::Type { selector, value, is_variable }) matches CommandV::TypeText {
            value: typed,
            ..
        } && typed == v,
{
    lemma_placeholder_replaced(scopes, value, name, v);
    lemma_step_texts_interpolated(scopes, selector, value, is_variable, Seq::empty());
}

/// Decides what the engine does with the page for one step.
pub fn plan_step(ctx: &AutomationContext, step: &Step) -> (r: StepCommand)
    requires
        ctx.wf(),
    ensures
        r@ == command_spec(ctx.scopes_view(), step@),
{
    match step {
        Step::Navigate { url } => StepCommand::Navigate { url: interpolate(ctx, url.as_str()) },
        Step::Click { selector } => StepCommand::Click { selector: interpolate(ctx, selector.as_str()) },
        Step::RightClick { selector } => {
            let esc = escaped_selector(ctx, selector.as_str());
            StepCommand::Eval { js: concat3("const el = document.querySelector('", esc.as_str(), "'); if (!el) throw new Error('Element not found'); const ev = new MouseEvent('contextmenu', { bubbles: true, cancelable: true, view: window, button: 2 }); el.dispatchEvent(ev); return true;") }
        },
        Step::Hover { selector } => StepCommand::Hover { selector: interpolate(ctx, selector.as_str()) },
        Step::Type { selector, value, .. } => StepCommand::TypeText {
            selector: interpolate(ctx, selector.as_str()),
            value: interpolate(ctx, value.as_str()),
        },
        Step::Wait { seconds } => StepCommand::SleepSeconds { seconds: *seconds },
        Step::WaitSelector { selector, timeout_ms } => {
            let esc = escaped_selector(ctx, selector.as_str());
            let t = u64_to_string(*timeout_ms);
            let a = concat3("return new Promise((resolve, reject) => { const check = () => { const el = document.querySelector('", esc.as_str(), "'); if (el) { el.style.outline = '2px dashed #00ff00'; resolve(true); return true; } return false; }; if (check()) return; const start = Date.now(); const timer = setInterval(() => { if (check()) { clearInterval(timer); } if (Date.now() - start > ");
            StepCommand::Eval { js: concat3(a.as_str(), t.as_str(), ") { clearInterval(timer); reject('Timeout waiting for element'); } }, 200); })") }
        },
        Step::Extract { selector, as_key, add_to_row } => {
            let esc = escaped_selector(ctx, selector.as_str());
            let js = concat3("const el = document.querySelector('", esc.as_str(), "'); if (!el) return 'NOT_FOUND'; el.style.backgroundColor = 'rgba(0, 255, 0, 0.2)'; return el.innerText || el.value || '';");
            StepCommand::Extract { js, key: as_key.clone(), add_to_row: *add_to_row, selector: esc }
        },
        Step::NewRow => StepCommand::NewRow,
        Step::Export { filename } => StepCommand::Export { filename: interpolate(ctx, filename.as_str()) },
        Step::Screenshot { filename } => StepCommand::Screenshot {
            filename: interpolate(ctx, filename.as_str()),
        },
        Step::WaitUntilIdle { timeout_ms } => StepCommand::SettleMs { ms: *timeout_ms },
        Step::WaitNetworkIdle { timeout_ms, .. } => StepCommand::SleepMs { ms: *timeout_ms },
        Step::SetVariable { key, value } => StepCommand::SetVariable {
            key: key.clone(),
            value: interpolate(ctx, value.as_str()),
        },
        Step::ScrollBottom => StepCommand::Eval { js: own("window.scrollTo(0, document.body.scrollHeight)") },
        Step::SwitchFrame { selector } => {
            let t = interpolate(ctx, selector.as_str());
            let tc = chars_of(t.as_str());
            if tc.len() == 0 {
                StepCommand::Nothing
            } else {
                let esc = js_escape_str(t.as_str());
                StepCommand::Eval { js: concat3("document.querySelector('", esc.as_str(), "').contentWindow.focus()") }
            }
        },
        Step::If { selector, .. } => {
            let esc = escaped_selector(ctx, selector.as_str());
            StepCommand::Branch { js: concat3("!!document.querySelector('", esc.as_str(), "')") }
        },
        Step::ForEach { selector, .. } => {
            let esc = escaped_selector(ctx, selector.as_str());
            let js = concat3("document.querySelectorAll('", esc.as_str(), "').length");
            StepCommand::Repeat { js, selector: esc }
        },
        Step::CallFunction { name } => StepCommand::Call { name: interpolate(ctx, name.as_str()) },
        Step::ImportDataset { filename } => StepCommand::ImportRows { filename: interpolate(ctx, filename.as_str()) },
        Step::SmartScroll { until_selector, max_rounds, settle_ms } => {
            let probe_js = match until_selector {
                Some(sel) => {
                    let esc = escaped_selector(ctx, sel.as_str());
                    Some(concat3("!!document.querySelector('", esc.as_str(), "')"))
                },
                None => None,
            };
            StepCommand::SmartScroll { probe_js, max_rounds: *max_rounds, settle_ms: *settle_ms }
        },
    }
}

/// The position of the first function of a document with the given name.
pub open spec fn function_found(fs: Seq<crate::dsl::DslFunction>, name: Seq<char>, i: int) -> bool {
    0 <= i < fs.len() && fs[i].name@ == name && forall|k: int| 0 <= k < i ==> #[trigger] fs[k].name@ != name
}

/// Finds the function a `CallFunction` step names: the first one with that
/// name, or an error where the document defines none.
pub fn find_function(dsl: &crate::dsl::AutomationDsl, name: &str) -> (r: Result<usize, String>)
    ensures
        match r {
            Ok(i) => function_found(dsl.functions@, name@, i as int),
            Err(e) => e@ == "Function not found: "@ + name@ && forall|k: int|
                0 <= k < dsl.functions.len() ==> #[trigger] dsl.functions@[k].name@ != name@,
        },
{
    let want = own(name);
    let mut i: usize = 0;
    while i < dsl.functions.len()
        invariant
            i <= dsl.functions.len(),
            want@ == name@,
            forall|k: int| 0 <= k < i ==> #[trigger] dsl.functions@[k].name@ != name@,
        decreases dsl.functions.len() - i,
    {
        if dsl.functions[i].name == want {
            return Ok(i);
        }
        i += 1;
    }
    Err(concat("Function not found: ", name))
}

/// The steps a `CallFunction` step runs, in order: those of the first function
/// of the document with that name.
pub fn call_steps<'a>(dsl: &'a crate::dsl::AutomationDsl, name: &str) -> (r: Result<&'a Vec<Step>, String>)
    ensures
        match r {
            Ok(steps) => exists|i: int| function_found(dsl.functions@, name@, i) && steps@ == dsl.functions@[i].steps@,
            Err(e) => e@ == "Function not found: "@ + name@ && forall|k: int|
                0 <= k < dsl.functions.len() ==> #[trigger] dsl.functions@[k].name@ != name@,
        },
{
    match find_function(dsl, name) {
        Ok(i) => Ok(&dsl.functions[i].steps),
        Err(e) => Err(e),
    }
}

/// Whether another round of a smart scroll runs: rounds remain and the
/// awaited element has not shown up.
pub fn smart_scroll_continues(round: u32, max_rounds: u32, found: bool) -> (r: bool)
    ensures
        r == (round < max_rounds && !found),
{
    round < max_rounds && !found
}

// ---------------------------------------------------------------------------
// Results of page scripts
// ---------------------------------------------------------------------------

/// An `If` runs its nested steps when the probe gives exactly `true`.
pub fn branch_taken(result: &String) -> (r: bool)
    ensures
        r == (result@ == "true"@),
{
    *result == own("true")
}

/// A `ForEach` count: the decimal text the page gave, or zero when it is not a count.
pub open spec fn loop_count_spec(result: Seq<char>) -> usize {
    match parse_usize_spec(result) {
        Some(n) => n,
        None => 0,
    }
}

pub fn loop_count(result: &str) -> (r: usize)
    ensures
        r == loop_count_spec(result@),
{
    let c = chars_of(result);
    match parse_usize(&c) {
        Some(n) => n,
        None => 0,
    }
}

/// The selector of the `i`-th element (0-based) of a `ForEach`.
pub open spec fn item_selector_spec(esc: Seq<char>, i: nat) -> Seq<char> {
    esc + ":nth-child("@ + dec_seq(i + 1) + ")"@
}

pub fn item_selector(esc: &str, i: usize) -> (r: String)
    requires
        i < usize::MAX,
    ensures
        r@ == item_selector_spec(esc@, i as nat),
{
    let n = u64_to_string((i + 1) as u64);
    let a = concat(esc, ":nth-child(");
    concat3(a.as_str(), n.as_str(), ")")
}

/// What one `ForEach` iteration binds: `index` and `item`.
pub open spec fn loop_bindings(i: nat, item: Seq<char>) -> VarMap {
    Map::empty().insert("index"@, dec_seq(i)).insert("item"@, item)
}

/// The scopes while the body of a `ForEach` runs for element `i`: a new scope
/// that binds `index` and `item`.
pub open spec fn loop_scopes(scopes: Seq<VarMap>, i: nat, item: Seq<char>) -> Seq<VarMap> {
    push_scope_spec(scopes, loop_bindings(i, item))
}

/// Enters the scope of one `ForEach` iteration.
pub fn enter_loop_iteration(ctx: &mut AutomationContext, i: usize, item: String)
    requires
        old(ctx).wf(),
    ensures
        final(ctx).wf(),
        final(ctx).scopes_view() == loop_scopes(old(ctx).scopes_view(), i as nat, item@),
        final(ctx).rows_view() == old(ctx).rows_view(),
        final(ctx).current_row@ == old(ctx).current_row@,
        final(ctx).same_target(old(ctx)),
{
    let mut bound = StrMap::new();
    bound.insert(own("index"), u64_to_string(i as u64));
    bound.insert(own("item"), item);
    ctx.push_row_scope(&bound);
}

/// Leaving an iteration restores the scopes that were there before it.
pub proof fn lemma_loop_iteration_restores(scopes: Seq<VarMap>, i: nat, item: Seq<char>)
    requires
        scopes.len() > 0,
    ensures
        pop_scope_spec(loop_scopes(scopes, i, item)) == scopes,
{
    assert(scopes.push(loop_bindings(i, item)).drop_last() =~= scopes);
}

/// Stores an extracted text: `NOT_FOUND` fails the step; otherwise the text becomes the
/// variable `key` and, when asked, a cell of the current row.
pub fn record_extract(
    ctx: &mut AutomationContext,
    key: &String,
    text: &String,
    add_to_row: bool,
    selector: &String,
) -> (r: Result<(), String>)
    requires
        old(ctx).wf(),
    ensures
        final(ctx).wf(),
        text@ == "NOT_FOUND"@ ==> {
            &&& r matches Err(e) && e@ == "Element not found: "@ + selector@
            &&& final(ctx).scopes_view() == old(ctx).scopes_view()
            &&& final(ctx).current_row@ == old(ctx).current_row@
        },
        text@ != "NOT_FOUND"@ ==> {
            &&& r is Ok
            &&& final(ctx).scopes_view() == set_global(old(ctx).scopes_view(), key@, text@)
            &&& final(ctx).current_row@ == if add_to_row {
                old(ctx).current_row@.insert(key@, text@)
            } else {
                old(ctx).current_row@
            }
        },
        final(ctx).rows_view() == old(ctx).rows_view(),
        final(ctx).same_target(old(ctx)),
{
    if *text == own("NOT_FOUND") {
        return Err(concat("Element not found: ", selector.as_str()));
    }
    ctx.set_variable(key.clone(), text.clone());
    if add_to_row {
        ctx.put_in_row(key.clone(), text.clone());
    }
    Ok(())
}

// ---------------------------------------------------------------------------
// Retry policy and failure artifacts
// ---------------------------------------------------------------------------

/// After the `attempts`-th failed attempt of a step: another try after a growing pause
/// (500 ms per failed attempt), or giving up once `retry_attempts + 1` attempts failed.
pub enum RetryDecision {
    RetryAfterMs(u64),
    GiveUp,
}

pub fn after_failed_attempt(attempts: u32, retry_attempts: u32) -> (r: RetryDecision)
    requires
        attempts >= 1,
    ensures
        (attempts as int) < retry_attempts as int + 1 ==> (r matches RetryDecision::RetryAfterMs(ms)
            && ms == 500 * attempts as int),
        (attempts as int) >= retry_attempts as int + 1 ==> r is GiveUp,
{
    if (attempts as u64) < (retry_attempts as u64) + 1 {
        RetryDecision::RetryAfterMs(500 * (attempts as u64))
    } else {
        RetryDecision::GiveUp
    }
}

/// What follows one attempt at a step.
pub enum StepNext {
    /// The step is done; go on with the next.
    Done,
    /// Wait this many milliseconds, then try the step again.
    RetryAfterMs(u64),
    /// The run fails with this error, after a screenshot when asked for.
    Fail(String, bool),
}

/// The error of a step that ran past its time limit.
pub fn timeout_error(ms: u64) -> (r: String)
    ensures
        r@ == "Step timed out after "@ + dec_seq(ms as nat) + " ms"@,
{
    let n = u64_to_string(ms);
    concat3("Step timed out after ", n.as_str(), " ms")
}

/// The decision after an attempt at a step, given the failed attempts so
/// far: success ends the step; a failure is retried while retries remain,
/// waiting 500 ms per failed attempt, and otherwise fails the run.
pub fn after_attempt(failed_before: u32, config: &ExecutionConfig, outcome: Result<(), String>) -> (r: (u32, StepNext))
    requires
        failed_before < u32::MAX,
    ensures
        outcome is Ok ==> r.0 == failed_before && r.1 is Done,
        outcome is Err ==> {
            let n = failed_before + 1;
            &&& r.0 == n
            &&& n < config.retry_attempts + 1 ==> (r.1 matches StepNext::RetryAfterMs(ms) && ms == 500 * n)
            &&& n >= config.retry_attempts + 1 ==> (r.1 matches StepNext::Fail(e, shot) && e == outcome->Err_0
                && shot == config.screenshot_on_error)
        },
{
    match outcome {
        Ok(()) => (failed_before, StepNext::Done),
        Err(e) => {
            let n = failed_before + 1;
            match after_failed_attempt(n, config.retry_attempts) {
                RetryDecision::RetryAfterMs(ms) => (n, StepNext::RetryAfterMs(ms)),
                RetryDecision::GiveUp => (n, StepNext::Fail(e, config.screenshot_on_error)),
            }
        },
    }
}

/// The file name of the screenshot taken when step `index` (0-based) fails at time `ts`.
pub open spec fn failure_shot_spec(index: nat, ts: Seq<char>) -> Seq<char> {
    "FAIL_STEP_"@ + dec_seq(index + 1) + "_"@ + ts + ".png"@
}

pub fn failure_screenshot_name(index: usize, ts: &str) -> (r: String)
    requires
        index < usize::MAX,
    ensures
        r@ == failure_shot_spec(index as nat, ts@),
{
    let n = u64_to_string((index + 1) as u64);
    let a = concat3("FAIL_STEP_", n.as_str(), "_");
    concat3(a.as_str(), ts, ".png")
}

/// `Export`: closes the current row and hands out the dataset, when there is any.
pub fn export_rows(ctx: &mut AutomationContext) -> (r: Option<Vec<StrMap>>)
    requires
        old(ctx).wf(),
    ensures
        final(ctx).wf(),
        final(ctx).scopes_view() == old(ctx).scopes_view(),
        old(ctx).current_row@ != Map::<Seq<char>, Seq<char>>::empty() ==> final(ctx).rows_view()
            == old(ctx).rows_view().push(old(ctx).current_row@),
        old(ctx).current_row@ == Map::<Seq<char>, Seq<char>>::empty() ==> final(ctx).rows_view()
            == old(ctx).rows_view(),
        match r {
            Some(rows) => rows@.len() > 0 && crate::context::maps_view(rows@) == final(ctx).rows_view(),
            None => final(ctx).rows_view().len() == 0,
        },
{
    ctx.push_current_row();
    if ctx.extracted_data.len() == 0 {
        return None;
    }
    let mut out: Vec<StrMap> = Vec::new();
    let mut i: usize = 0;
    while i < ctx.extracted_data.len()
        invariant
            i <= ctx.extracted_data.len(),
            out.len() == i,
            forall|j: int| 0 <= j < i ==> (#[trigger] out@[j]).entries@ == ctx.extracted_data@[j].entries@,
        decreases ctx.extracted_data.len() - i,
    {
        out.push(ctx.extracted_data[i].clone_map());
        i += 1;
    }
    assert(crate::context::maps_view(out@) =~= crate::context::maps_view(ctx.extracted_data@));
    Some(out)
}

} // verus!
