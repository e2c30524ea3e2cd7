//! The action plan that a script builds: tab tokens, element queries and browser actions.
use vstd::prelude::*;
use std::collections::HashMap;
use crate::text::{chars_of, replace_chars, replace_seq, string_from_chars, trim_chars, trim_seq};

verus! {

broadcast use vstd::std_specs::hash::group_hash_axioms;

/// One browser or file action that a script asks for, in script order.
#[derive(Clone, Debug)]
pub enum ScriptAction {
    NewTab { token: i64, url: Option<String> },
    CatchTab { token: i64 },
    Navigate { token: i64, url: String },
    Click { token: i64, selector: String },
    Type { token: i64, selector: String, value: String },
    WaitMs { token: i64, ms: u64 },
    Screenshot { token: i64, filename: String },
    Capture { token: i64, mode: String },
    ConsoleInject { token: i64, js: String },
    NetworkToggle { token: i64, active: bool },
    CookieSet { token: i64, name: String, value: String, overwrite: bool },
    CookieDelete { token: i64, name: String, domain: String },
    RunDsl { token: i64, json: String },
    FsWriteText { rel_path: String, content: String },
    FsAppendText { rel_path: String, content: String },
    FsMkdirAll { rel_dir: String },
    Log(String),
}

/// The mathematical value of an action.
pub ghost enum ActionV {
    NewTab { token: i64, url: Option<Seq<char>> },
    CatchTab { token: i64 },
    Navigate { token: i64, url: Seq<char> },
    Click { token: i64, selector: Seq<char> },
    Type { token: i64, selector: Seq<char>, value: Seq<char> },
    WaitMs { token: i64, ms: u64 },
    Screenshot { token: i64, filename: Seq<char> },
    Capture { token: i64, mode: Seq<char> },
    ConsoleInject { token: i64, js: Seq<char> },
    NetworkToggle { token: i64, active: bool },
    CookieSet { token: i64, name: Seq<char>, value: Seq<char>, overwrite: bool },
    CookieDelete { token: i64, name: Seq<char>, domain: Seq<char> },
    RunDsl { token: i64, json: Seq<char> },
    FsWriteText { rel_path: Seq<char>, content: Seq<char> },
    FsAppendText { rel_path: Seq<char>, content: Seq<char> },
    FsMkdirAll { rel_dir: Seq<char> },
    Log(Seq<char>),
}

impl View for ScriptAction {
    type V = ActionV;

    open spec fn view(&self) -> ActionV {
        match *self {
            ScriptAction::NewTab { token, url } => ActionV::NewTab {
                token,
                url: match url {
                    Some(u) => Some(u@),
                    None => None,
                },
            },
            ScriptAction::CatchTab { token } => ActionV::CatchTab { token },
            ScriptAction::Navigate { token, url } => ActionV::Navigate { token, url: url@ },
            ScriptAction::Click { token, selector } => ActionV::Click { token, selector: selector@ },
            ScriptAction::Type { token, selector, value } => ActionV::Type {
                token,
                selector: selector@,
                value: value@,
            },
            ScriptAction::WaitMs { token, ms } => ActionV::WaitMs { token, ms },
            ScriptAction::Screenshot { token, filename } => ActionV::Screenshot {
                token,
                filename: filename@,
            },
            ScriptAction::Capture { token, mode } => ActionV::Capture { token, mode: mode@ },
            ScriptAction::ConsoleInject { token, js } => ActionV::ConsoleInject { token, js: js@ },
            ScriptAction::NetworkToggle { token, active } => ActionV::NetworkToggle { token, active },
            ScriptAction::CookieSet { token, name, value, overwrite } => ActionV::CookieSet {
                token,
                name: name@,
                value: value@,
                overwrite,
            },
            ScriptAction::CookieDelete { token, name, domain } => ActionV::CookieDelete {
                token,
                name: name@,
                domain: domain@,
            },
            ScriptAction::RunDsl { token, json } => ActionV::RunDsl { token, json: json@ },
            ScriptAction::FsWriteText { rel_path, content } => ActionV::FsWriteText {
                rel_path: rel_path@,
                content: content@,
            },
            ScriptAction::FsAppendText { rel_path, content } => ActionV::FsAppendText {
                rel_path: rel_path@,
                content: content@,
            },
            ScriptAction::FsMkdirAll { rel_dir } => ActionV::FsMkdirAll { rel_dir: rel_dir@ },
            ScriptAction::Log(m) => ActionV::Log(m@),
        }
    }
}

pub open spec fn actions_view(v: Seq<ScriptAction>) -> Seq<ActionV> {
    v.map_values(|a: ScriptAction| a@)
}

/// How a tab token was obtained: a freshly opened tab, or the tab selected in the UI.
#[derive(Clone, Copy, PartialEq, Eq, Debug, Structural)]
pub enum TokenBinding {
    New,
    Current,
}

/// A tab handle as a script sees it.
#[derive(Clone, Debug)]
pub struct TabRef {
    pub token: i64,
}

/// A single element handle.
#[derive(Clone, Debug)]
pub struct ElementRef {
    pub token: i64,
    pub selector: String,
}

/// An element query that filters can refine.
#[derive(Clone, Debug)]
pub struct ElementQuery {
    pub token: i64,
    pub selector: String,
}

/// `tab.capture`.
#[derive(Clone, Debug)]
pub struct CaptureApi {
    pub token: i64,
}

/// `tab.console`.
#[derive(Clone, Debug)]
pub struct ConsoleApi {
    pub token: i64,
}

/// `tab.network`.
#[derive(Clone, Debug)]
pub struct NetworkApi {
    pub token: i64,
}

/// `tab.cookies`.
#[derive(Clone, Debug)]
pub struct CookiesApi {
    pub token: i64,
}

/// What a script has built so far: the last token handed out, the actions, and how
/// each token was bound.
pub struct ScriptBuildState {
    pub next_token: i64,
    pub actions: Vec<ScriptAction>,
    pub token_bindings: HashMap<i64, TokenBinding>,
}

impl ScriptBuildState {
    /// No tokens, no actions.
    pub fn new() -> (r: Self)
        ensures
            r.next_token == 0,
            r.actions@.len() == 0,
            r.token_bindings@ == Map::<i64, TokenBinding>::empty(),
    {
        ScriptBuildState { next_token: 0, actions: Vec::new(), token_bindings: HashMap::new() }
    }
}

/// Hands out the next tab token (1, 2, 3, ...).
pub fn new_token(state: &mut ScriptBuildState) -> (r: i64)
    requires
        old(state).next_token < i64::MAX,
    ensures
        r == old(state).next_token + 1,
        final(state).next_token == r,
        final(state).actions@ == old(state).actions@,
        final(state).token_bindings@ == old(state).token_bindings@,
{
    state.next_token = state.next_token + 1;
    state.next_token
}

/// Appends an action to the plan.
pub fn push_action(state: &mut ScriptBuildState, action: ScriptAction)
    ensures
        final(state).actions@ == old(state).actions@.push(action),
        final(state).next_token == old(state).next_token,
        final(state).token_bindings@ == old(state).token_bindings@,
{
    state.actions.push(action);
}

impl ScriptBuildState {
    /// `Tab(url)`, `Tab()`, `TabNew()`, `tab_new()`: a new tab, bound as new.
    pub fn open_tab(&mut self, url: Option<String>) -> (r: TabRef)
        requires
            old(self).next_token < i64::MAX,
        ensures
            r.token == old(self).next_token + 1,
            final(self).next_token == r.token,
            final(self).actions@ == old(self).actions@.push(ScriptAction::NewTab { token: r.token, url }),
            final(self).token_bindings@ == old(self).token_bindings@.insert(r.token, TokenBinding::New),
    {
        let token = new_token(self);
        push_action(self, ScriptAction::NewTab { token, url });
        self.token_bindings.insert(token, TokenBinding::New);
        TabRef { token }
    }

    /// `TabCatch()`, `TabCurrent()`, `tab_catch()`: the tab selected in the UI.
    pub fn catch_tab(&mut self) -> (r: TabRef)
        requires
            old(self).next_token < i64::MAX,
        ensures
            r.token == old(self).next_token + 1,
            final(self).next_token == r.token,
            final(self).actions@ == old(self).actions@.push(ScriptAction::CatchTab { token: r.token }),
            final(self).token_bindings@ == old(self).token_bindings@.insert(r.token, TokenBinding::Current),
    {
        let token = new_token(self);
        push_action(self, ScriptAction::CatchTab { token });
        self.token_bindings.insert(token, TokenBinding::Current);
        TabRef { token }
    }

    /// Whether `token` was bound to the tab selected in the UI.
    pub fn is_current(&self, token: i64) -> (r: bool)
        ensures
            r == (self.token_bindings@.contains_key(token) && self.token_bindings@[token]
                == TokenBinding::Current),
    {
        match self.token_bindings.get(&token) {
            Some(b) => *b == TokenBinding::Current,
            None => false,
        }
    }
}

/// `wait_for_ms(ms)`: negative waits count as zero.
pub open spec fn wait_ms_of(ms: i64) -> u64 {
    if ms < 0 { 0 } else { ms as u64 }
}

pub fn wait_action(token: i64, ms: i64) -> (r: ScriptAction)
    ensures
        r@ == (ActionV::WaitMs { token, ms: wait_ms_of(ms) }),
{
    let m: u64 = if ms < 0 { 0 } else { ms as u64 };
    ScriptAction::WaitMs { token, ms: m }
}

/// `screenshot()` and `screenshot(name)`.
pub open spec fn screenshot_name(name: Option<Seq<char>>) -> Seq<char> {
    match name {
        Some(n) => n,
        None => "script_capture.png"@,
    }
}

pub fn screenshot_action(token: i64, name: Option<String>) -> (r: ScriptAction)
    ensures
        r@ == (ActionV::Screenshot {
            token,
            filename: screenshot_name(match name { Some(n) => Some(n@), None => None }),
        }),
{
    match name {
        Some(n) => ScriptAction::Screenshot { token, filename: n },
        None => ScriptAction::Screenshot { token, filename: String::from_str("script_capture.png") },
    }
}

// ---------------------------------------------------------------------------
// Element query filters
// ---------------------------------------------------------------------------

/// `filter_id(id)`: appends `#id` (trimmed) unless the id is blank.
pub open spec fn filter_id_spec(sel: Seq<char>, id: Seq<char>) -> Seq<char> {
    let t = trim_seq(id, None);
    if t.len() == 0 { sel } else { sel + "#"@ + t }
}

/// `filter_class(name)`: appends `.name` (trimmed) unless the name is blank.
pub open spec fn filter_class_spec(sel: Seq<char>, name: Seq<char>) -> Seq<char> {
    let t = trim_seq(name, None);
    if t.len() == 0 { sel } else { sel + "."@ + t }
}

/// `filter_attr(key, value)`: appends `[key='value']` with single quotes in the value
/// escaped, unless the key is blank.
pub open spec fn filter_attr_spec(sel: Seq<char>, key: Seq<char>, value: Seq<char>) -> Seq<char> {
    let k = trim_seq(key, None);
    if k.len() == 0 {
        sel
    } else {
        sel + "["@ + k + "='"@ + replace_seq(value, "'"@, "\\'"@) + "']"@
    }
}

fn concat_str(a: &String, b: &str) -> (r: String)
    ensures
        r@ == a@ + b@,
{
    let mut s = a.clone();
    s.append(b);
    s
}

pub fn filter_id(query: &ElementQuery, id: &str) -> (r: ElementQuery)
    ensures
        r.token == query.token,
        r.selector@ == filter_id_spec(query.selector@, id@),
{
    let cs = chars_of(id);
    let t = trim_chars(&cs, None);
    if t.len() == 0 {
        return ElementQuery { token: query.token, selector: query.selector.clone() };
    }
    let ts = string_from_chars(&t);
    let s1 = concat_str(&query.selector, "#");
    let s2 = concat_str(&s1, ts.as_str());
    ElementQuery { token: query.token, selector: s2 }
}

pub fn filter_class(query: &ElementQuery, class_name: &str) -> (r: ElementQuery)
    ensures
        r.token == query.token,
        r.selector@ == filter_class_spec(query.selector@, class_name@),
{
    let cs = chars_of(class_name);
    let t = trim_chars(&cs, None);
    if t.len() == 0 {
        return ElementQuery { token: query.token, selector: query.selector.clone() };
    }
    let ts = string_from_chars(&t);
    let s1 = concat_str(&query.selector, ".");
    let s2 = concat_str(&s1, ts.as_str());
    ElementQuery { token: query.token, selector: s2 }
}

pub fn filter_attr(query: &ElementQuery, key: &str, value: &str) -> (r: ElementQuery)
    ensures
        r.token == query.token,
        r.selector@ == filter_attr_spec(query.selector@, key@, value@),
{
    let kc = chars_of(key);
    let kt = trim_chars(&kc, None);
    if kt.len() == 0 {
        return ElementQuery { token: query.token, selector: query.selector.clone() };
    }
    let ks = string_from_chars(&kt);
    let vc = chars_of(value);
    let q = chars_of("'");
    let esc = chars_of("\\'");
    proof {
        reveal_strlit("'");
    }
    let ve = replace_chars(&vc, &q, &esc);
    let vs = string_from_chars(&ve);
    let s1 = concat_str(&query.selector, "[");
    let s2 = concat_str(&s1, ks.as_str());
    let s3 = concat_str(&s2, "='");
    let s4 = concat_str(&s3, vs.as_str());
    let s5 = concat_str(&s4, "']");
    assert(s5@ =~= filter_attr_spec(query.selector@, key@, value@));
    ElementQuery { token: query.token, selector: s5 }
}

/// `first_or_none()`: one handle for the query's selector.
pub fn first_or_none(query: &ElementQuery) -> (r: ElementRef)
    ensures
        r.token == query.token,
        r.selector@ == query.selector@,
{
    ElementRef { token: query.token, selector: query.selector.clone() }
}

/// `all()`: the handles for the query (one selector-mapped handle).
pub fn all_elements(query: &ElementQuery) -> (r: Vec<ElementRef>)
    ensures
        r.len() == 1,
        r@[0].token == query.token,
        r@[0].selector@ == query.selector@,
{
    let mut v: Vec<ElementRef> = Vec::new();
    v.push(first_or_none(query));
    v
}

// ---------------------------------------------------------------------------
// Code normalization and selector collection
// ---------------------------------------------------------------------------

/// Dot-style constructors rewritten to their alias functions.
pub open spec fn normalize_spec(raw: Seq<char>) -> Seq<char> {
    replace_seq(replace_seq(raw, "Tab.new("@, "TabNew("@), "Tab.catch("@, "TabCatch("@)
}

/// Rewrites `Tab.new(` to `TabNew(` and then `Tab.catch(` to `TabCatch(`.
pub fn normalize_scripting_code(raw: &str) -> (r: String)
    ensures
        r@ == normalize_spec(raw@),
{
    proof {
        reveal_strlit("Tab.new(");
        reveal_strlit("Tab.catch(");
    }
    let a = chars_of(raw);
    let f1 = chars_of("Tab.new(");
    let t1 = chars_of("TabNew(");
    let b = replace_chars(&a, &f1, &t1);
    let f2 = chars_of("Tab.catch(");
    let t2 = chars_of("TabCatch(");
    let c = replace_chars(&b, &f2, &t2);
    string_from_chars(&c)
}

/// The selector of a click or type action.
pub open spec fn action_selector(a: ActionV) -> Option<Seq<char>> {
    match a {
        ActionV::Click { selector, .. } => Some(selector),
        ActionV::Type { selector, .. } => Some(selector),
        _ => None,
    }
}

/// The distinct click/type selectors of an action plan, in order of first use.
pub open spec fn selectors_spec(actions: Seq<ActionV>) -> Seq<Seq<char>>
    decreases actions.len(),
{
    if actions.len() == 0 {
        Seq::empty()
    } else {
        let prev = selectors_spec(actions.drop_last());
        match action_selector(actions.last()) {
            Some(s) => if prev.contains(s) { prev } else { prev.push(s) },
            None => prev,
        }
    }
}

/// Collects the selectors that the plan clicks or types into, each once, in order of
/// first use.
pub fn selectors_from_actions(actions: &Vec<ScriptAction>) -> (r: Vec<String>)
    ensures
        r@.map_values(|s: String| s@) == selectors_spec(actions_view(actions@)),
{
    let mut out: Vec<String> = Vec::new();
    let mut i: usize = 0;
    while i < actions.len()
        invariant
            i <= actions.len(),
            out@.map_values(|s: String| s@) == selectors_spec(actions_view(actions@.take(i as int))),
        decreases actions.len() - i,
    {
        let ghost prev = out@.map_values(|s: String| s@);
        assert(actions_view(actions@.take(i + 1)).drop_last() =~= actions_view(actions@.take(i as int)));
        assert(actions_view(actions@.take(i + 1)).last() == actions@[i as int]@);
        match &actions[i] {
            ScriptAction::Click { selector, .. } | ScriptAction::Type { selector, .. } => {
                let mut found = false;
                let mut j: usize = 0;
                while j < out.len()
                    invariant
                        j <= out.len(),
                        prev == out@.map_values(|s: String| s@),
                        found == (exists|k: int| 0 <= k < j && out@[k]@ == selector@),
                    decreases out.len() - j,
                {
                    if out[j] == *selector {
                        found = true;
                    }
                    j += 1;
                }
                assert(found == prev.contains(selector@)) by {
                    if found {
                        let k = choose|k: int| 0 <= k < out.len() && out@[k]@ == selector@;
                        assert(prev[k] == selector@);
                    }
                    if prev.contains(selector@) {
                        let k = choose|k: int| 0 <= k < prev.len() && prev[k] == selector@;
                        assert(out@[k]@ == selector@);
                    }
                }
                if !found {
                    out.push(selector.clone());
                    assert(out@.map_values(|s: String| s@) =~= prev.push(selector@));
                }
            },
            _ => {},
        }
        i += 1;
    }
    assert(actions@.take(actions.len() as int) =~= actions@);
    out
}

/// Every collected selector is used by some click or type action.
pub proof fn lemma_selectors_come_from_actions(actions: Seq<ActionV>, i: int)
    requires
        0 <= i < selectors_spec(actions).len(),
    ensures
        exists|k: int| 0 <= k < actions.len() && action_selector(actions[k]) == Some(
            selectors_spec(actions)[i],
        ),
    decreases actions.len(),
{
    let prev = selectors_spec(actions.drop_last());
    if i < prev.len() {
        lemma_selectors_come_from_actions(actions.drop_last(), i);
        let k = choose|k: int| 0 <= k < actions.drop_last().len() && action_selector(
            actions.drop_last()[k],
        ) == Some(prev[i]);
        assert(actions[k] == actions.drop_last()[k]);
    } else {
        assert(action_selector(actions[actions.len() - 1]) == Some(selectors_spec(actions)[i]));
    }
}

/// The collected selectors are pairwise distinct.
pub proof fn lemma_selectors_distinct(actions: Seq<ActionV>)
    ensures
        selectors_spec(actions).no_duplicates(),
    decreases actions.len(),
{
    if actions.len() > 0 {
        lemma_selectors_distinct(actions.drop_last());
    }
}

} // verus!
