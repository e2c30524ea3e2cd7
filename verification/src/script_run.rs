//! Decisions of script execution: step batching per tab token, flushing, bindings and
//! the checks made before each action.
use vstd::prelude::*;
use std::collections::HashMap;
use crate::dsl::{Step, StepV, steps_view};
use crate::dom::{host_of, url_host};
use crate::script_actions::{ActionV, ScriptAction};
use crate::text::{
    chars_of, concat, concat3, contains_chars, dec_seq, int_dec_seq, i64_to_string, lower_chars,
    lower_seq, own, seq_contains, string_from_chars, to_ascii_lowercase, u64_to_string,
};

verus! {

broadcast use vstd::std_specs::hash::group_hash_axioms;

/// Stops the run once the cooperative cancel flag is down (`keep_running == false`).
pub fn ensure_not_cancelled(keep_running: bool) -> (r: Result<(), String>)
    ensures
        r is Ok <==> keep_running,
        r matches Err(e) ==> e@ == "Script cancelled by user"@,
{
    if !keep_running {
        return Err(own("Script cancelled by user"));
    }
    Ok(())
}

/// A script wait in whole seconds: the milliseconds rounded up, and at least one second.
pub open spec fn wait_seconds_spec(ms: u64) -> u64 {
    let s = (ms as int + 999) / 1000;
    if s < 1 { 1 } else { s as u64 }
}

pub fn wait_seconds(ms: u64) -> (r: u64)
    ensures
        r == wait_seconds_spec(ms),
{
    let q = ms / 1000;
    let s = if ms % 1000 == 0 { q } else { q + 1 };
    if s < 1 { 1 } else { s }
}

/// The wait is never shorter than asked for, and at most one second longer (and one
/// second at least).
pub proof fn lemma_wait_rounds_up(ms: u64)
    ensures
        wait_seconds_spec(ms) >= 1,
        wait_seconds_spec(ms) * 1000 >= ms,
        ms > 0 ==> (wait_seconds_spec(ms) - 1) * 1000 < ms,
{
}

/// The DSL step that a batched script action becomes, with the token it belongs to.
pub open spec fn batched_step_spec(a: ActionV) -> Option<(i64, StepV)> {
    match a {
        ActionV::Navigate { token, url } => Some((token, StepV::Navigate { url })),
        ActionV::Click { token, selector } => Some((token, StepV::Click { selector })),
        ActionV::Type { token, selector, value } => Some(
            (token, StepV::Type { selector, value, is_variable: false }),
        ),
        ActionV::WaitMs { token, ms } => Some((token, StepV::Wait { seconds: wait_seconds_spec(ms) })),
        ActionV::Screenshot { token, filename } => Some((token, StepV::Screenshot { filename })),
        _ => None,
    }
}

/// Navigation, clicks, typing, waits and screenshots are batched into DSL steps.
pub fn batched_step(a: &ScriptAction) -> (r: Option<(i64, Step)>)
    ensures
        match r {
            Some((t, s)) => batched_step_spec(a@) == Some((t, s@)),
            None => batched_step_spec(a@) is None,
        },
{
    match a {
        ScriptAction::Navigate { token, url } => Some((*token, Step::Navigate { url: url.clone() })),
        ScriptAction::Click { token, selector } => Some(
            (*token, Step::Click { selector: selector.clone() }),
        ),
        ScriptAction::Type { token, selector, value } => Some(
            (*token, Step::Type { selector: selector.clone(), value: value.clone(), is_variable: false }),
        ),
        ScriptAction::WaitMs { token, ms } => Some((*token, Step::Wait { seconds: wait_seconds(*ms) })),
        ScriptAction::Screenshot { token, filename } => Some(
            (*token, Step::Screenshot { filename: filename.clone() }),
        ),
        _ => None,
    }
}

/// The batch of a token (empty when nothing is queued).
pub open spec fn batch_of(b: Map<i64, Seq<StepV>>, t: i64) -> Seq<StepV> {
    if b.contains_key(t) { b[t] } else { Seq::empty() }
}

/// Queuing a step appends it to its token's batch.
pub open spec fn queue_spec(b: Map<i64, Seq<StepV>>, t: i64, s: StepV) -> Map<i64, Seq<StepV>> {
    b.insert(t, batch_of(b, t).push(s))
}

/// Queued steps come out of a batch in the order they went in, and queuing for one
/// token leaves every other token's batch alone.
pub proof fn lemma_queue_batch(b: Map<i64, Seq<StepV>>, t: i64, s: StepV, u: i64)
    ensures
        batch_of(queue_spec(b, t, s), t) == batch_of(b, t).push(s),
        u != t ==> batch_of(queue_spec(b, t, s), u) == batch_of(b, u),
{
}

pub open spec fn batches_view(m: Map<i64, Vec<Step>>) -> Map<i64, Seq<StepV>> {
    Map::new(|k: i64| m.contains_key(k), |k: i64| steps_view(m[k]@))
}

pub open spec fn tabs_view(m: Map<i64, String>) -> Map<i64, Seq<char>> {
    Map::new(|k: i64| m.contains_key(k), |k: i64| m[k]@)
}

/// Per-token tab bindings and pending step batches of one script run.
pub struct ScriptRunState {
    pub token_to_tab: HashMap<i64, String>,
    pub step_batches: HashMap<i64, Vec<Step>>,
    /// The bound tokens in binding order.
    pub order: Vec<i64>,
}

/// The error of a flush on a token that names no tab.
pub open spec fn unbound_token_msg(t: i64) -> Seq<char> {
    "Script tab token "@ + int_dec_seq(t as int) + " is not bound"@
}

/// The error of an action on a token that names no tab.
pub open spec fn action_unbound_msg(what: Seq<char>, t: i64) -> Seq<char> {
    what + " failed: token "@ + int_dec_seq(t as int) + " not bound"@
}

impl ScriptRunState {
    pub open spec fn wf(&self) -> bool {
        &&& self.order@.no_duplicates()
        &&& self.order@.to_set() == self.token_to_tab@.dom()
    }

    pub open spec fn tabs(&self) -> Map<i64, Seq<char>> {
        tabs_view(self.token_to_tab@)
    }

    pub open spec fn batches(&self) -> Map<i64, Seq<StepV>> {
        batches_view(self.step_batches@)
    }

    /// No bindings, no batches.
    pub fn new() -> (r: Self)
        ensures
            r.wf(),
            r.tabs() == Map::<i64, Seq<char>>::empty(),
            r.batches() == Map::<i64, Seq<StepV>>::empty(),
    {
        let r = ScriptRunState {
            token_to_tab: HashMap::new(),
            step_batches: HashMap::new(),
            order: Vec::new(),
        };
        assert(r.order@.to_set() =~= r.token_to_tab@.dom());
        assert(r.tabs() =~= Map::<i64, Seq<char>>::empty());
        assert(r.batches() =~= Map::<i64, Seq<StepV>>::empty());
        r
    }

    /// Binds a token to a browser tab.
    pub fn bind(&mut self, token: i64, tab_id: String)
        requires
            old(self).wf(),
        ensures
            final(self).wf(),
            final(self).tabs() == old(self).tabs().insert(token, tab_id@),
            final(self).batches() == old(self).batches(),
    {
        let ghost t = tab_id@;
        if !self.token_to_tab.contains_key(&token) {
            let ghost before = self.order@;
            self.order.push(token);
            proof {
                assert(!before.contains(token)) by {
                    if before.contains(token) {
                        assert(before.to_set().contains(token));
                    }
                }
                crate::text::lemma_push_to_set(before, token);
                assert(self.order@.no_duplicates()) by {
                    assert forall|i: int, j: int| 0 <= i < self.order@.len() && 0 <= j
                        < self.order@.len() && i != j implies self.order@[i] != self.order@[j] by {
                        if i < before.len() && j < before.len() {
                        } else if i < before.len() {
                            assert(before.contains(before[i]));
                        } else {
                            assert(before.contains(before[j]));
                        }
                    }
                }
            }
        }
        self.token_to_tab.insert(token, tab_id);
        assert(self.token_to_tab@.dom() =~= old(self).token_to_tab@.dom().insert(token));
        assert(self.order@.to_set() =~= self.token_to_tab@.dom());
        assert(self.tabs() =~= old(self).tabs().insert(token, t));
        assert(self.batches() =~= old(self).batches());
    }

    /// Appends a step to a token's batch.
    pub fn queue(&mut self, token: i64, step: Step)
        requires
            old(self).wf(),
        ensures
            final(self).wf(),
            final(self).tabs() == old(self).tabs(),
            final(self).batches() == queue_spec(old(self).batches(), token, step@),
    {
        let ghost sv = step@;
        let mut v = match self.step_batches.remove(&token) {
            Some(v) => v,
            None => Vec::new(),
        };
        assert(steps_view(v@) == batch_of(old(self).batches(), token));
        let ghost before = v@;
        v.push(step);
        proof {
            crate::dsl::lemma_steps_view(v@);
            crate::dsl::lemma_steps_view(before);
            assert(steps_view(v@) =~= steps_view(before).push(sv));
        }
        self.step_batches.insert(token, v);
        assert(self.batches() =~= queue_spec(old(self).batches(), token, sv));
    }

    /// The tab a token names, or the error of `what` on an unbound token.
    pub fn tab_of(&self, token: i64, what: &str) -> (r: Result<String, String>)
        ensures
            match r {
                Ok(t) => self.tabs().contains_key(token) && t@ == self.tabs()[token],
                Err(e) => !self.tabs().contains_key(token) && e@ == action_unbound_msg(what@, token),
            },
    {
        match self.token_to_tab.get(&token) {
            Some(t) => Ok(t.clone()),
            None => {
                let ts = i64_to_string(token);
                let a = concat(what, " failed: token ");
                let b = concat3(a.as_str(), ts.as_str(), " not bound");
                Err(b)
            },
        }
    }

    /// Takes a token's pending batch for execution (empty when nothing is pending).
    /// A token that names no tab is an error and changes nothing.
    pub fn take_batch(&mut self, token: i64) -> (r: Result<Vec<Step>, String>)
        requires
            old(self).wf(),
        ensures
            final(self).wf(),
            final(self).tabs() == old(self).tabs(),
            match r {
                Ok(steps) => {
                    &&& old(self).tabs().contains_key(token)
                    &&& steps_view(steps@) == batch_of(old(self).batches(), token)
                    &&& final(self).batches() == old(self).batches().remove(token)
                },
                Err(e) => {
                    &&& !old(self).tabs().contains_key(token)
                    &&& e@ == unbound_token_msg(token)
                    &&& final(self).batches() == old(self).batches()
                },
            },
    {
        if !self.token_to_tab.contains_key(&token) {
            let ts = i64_to_string(token);
            return Err(concat3("Script tab token ", ts.as_str(), " is not bound"));
        }
        let v = match self.step_batches.remove(&token) {
            Some(v) => v,
            None => Vec::new(),
        };
        assert(self.batches() =~= old(self).batches().remove(token));
        Ok(v)
    }

    /// The bound tokens, each once, in the order they were first bound.
    pub fn bound_tokens(&self) -> (r: Vec<i64>)
        requires
            self.wf(),
        ensures
            r@.to_set() == self.tabs().dom(),
            r@.no_duplicates(),
    {
        self.order.clone()
    }
}

/// `TabCatch()` binds the tab selected in the UI; without one it fails.
pub fn catch_target(selected_tab_id: Option<String>) -> (r: Result<String, String>)
    ensures
        match r {
            Ok(t) => selected_tab_id matches Some(s) && t@ == s@,
            Err(e) => selected_tab_id is None && e@ == "TabCatch failed: no selected tab in UI"@,
        },
{
    match selected_tab_id {
        Some(s) => Ok(s),
        None => Err(own("TabCatch failed: no selected tab in UI")),
    }
}

/// The page a new script tab opens: the given URL, or a blank page.
pub fn new_tab_target(url: &Option<String>) -> (r: String)
    ensures
        match url {
            Some(u) => r@ == u@,
            None => r@ == "about:blank"@,
        },
{
    match url {
        Some(u) => u.clone(),
        None => own("about:blank"),
    }
}

/// The capture modes a script may ask for.
#[derive(Clone, Copy, PartialEq, Eq, Debug, Structural)]
pub enum CaptureMode {
    Html,
    Mirror,
    Complete,
}

pub open spec fn capture_mode_spec(mode: Seq<char>) -> Result<CaptureMode, Seq<char>> {
    if mode == "html"@ {
        Ok(CaptureMode::Html)
    } else if mode == "mirror"@ {
        Ok(CaptureMode::Mirror)
    } else if mode == "complete"@ {
        Ok(CaptureMode::Complete)
    } else {
        Err("Unsupported capture mode: "@ + mode)
    }
}

/// Reads a capture mode; anything but `html`, `mirror` or `complete` is an error.
pub fn capture_mode(mode: &String) -> (r: Result<CaptureMode, String>)
    ensures
        match r {
            Ok(m) => capture_mode_spec(mode@) == Ok::<CaptureMode, Seq<char>>(m),
            Err(e) => capture_mode_spec(mode@) == Err::<CaptureMode, Seq<char>>(e@),
        },
{
    if *mode == own("html") {
        Ok(CaptureMode::Html)
    } else if *mode == own("mirror") {
        Ok(CaptureMode::Mirror)
    } else if *mode == own("complete") {
        Ok(CaptureMode::Complete)
    } else {
        Err(concat("Unsupported capture mode: ", mode.as_str()))
    }
}

/// The domain a script cookie is set on: the tab's host, or `localhost` without one.
pub fn cookie_domain(host: Option<String>) -> (r: String)
    ensures
        match host {
            Some(h) => r@ == h@,
            None => r@ == "localhost"@,
        },
{
    match host {
        Some(h) => h,
        None => own("localhost"),
    }
}

/// The domain a script cookie is set on for a tab at `url`: the URL's host,
/// or `localhost` where there is no URL or no host.
pub fn tab_cookie_domain(url: Option<String>) -> (r: String)
    ensures
        r@ == match url {
            Some(u) => match url_host(u@) {
                Some(h) => h,
                None => "localhost"@,
            },
            None => "localhost"@,
        },
{
    match url {
        Some(u) => cookie_domain(host_of(u.as_str())),
        None => cookie_domain(None),
    }
}

/// A debugger break condition matches an action when the action's text contains it,
/// ignoring ASCII case.
pub fn matches_break(action_text: &str, condition: &str) -> (r: bool)
    ensures
        r == seq_contains(lower_seq(action_text@), lower_seq(condition@)),
{
    let a = chars_of(action_text);
    let al = lower_chars(&a);
    let c = chars_of(condition);
    let cl = lower_chars(&c);
    contains_chars(&al, &cl)
}


/// The number of a plan line, zero-padded to three digits (`{:03}`).
pub open spec fn pad3_zero(n: nat) -> Seq<char> {
    let d = dec_seq(n);
    if d.len() >= 3 {
        d
    } else {
        Seq::new((3 - d.len()) as nat, |i: int| '0') + d
    }
}

/// A number zero-padded to three digits.
pub fn pad3(n: usize) -> (r: String)
    ensures
        r@ == pad3_zero(n as nat),
{
    let d = u64_to_string(n as u64);
    let dc = chars_of(d.as_str());
    let mut k = dc.len();
    let mut zeros: Vec<char> = Vec::new();
    while k < 3
        invariant
            dc.len() <= k <= 3 || (k == dc.len() && k >= 3),
            zeros@ == Seq::new((k - dc.len()) as nat, |i: int| '0'),
        decreases 3 - k,
    {
        zeros.push('0');
        k += 1;
        assert(zeros@ =~= Seq::new((k - dc.len()) as nat, |i: int| '0'));
    }
    let mut out = string_from_chars(&zeros);
    out.append(d.as_str());
    proof {
        if dc@.len() >= 3 {
            assert(zeros@ =~= Seq::<char>::empty());
        }
        assert(out@ =~= pad3_zero(n as nat));
    }
    out
}

/// A line of the dry-run plan: "[NNN] action", numbered from 1.
pub fn plan_line(index: usize, action_text: &str) -> (r: String)
    requires
        index < usize::MAX,
    ensures
        r@ == "["@ + pad3_zero((index + 1) as nat) + "] "@ + action_text@,
{
    let p = pad3(index + 1);
    let mut out = concat3("[", p.as_str(), "] ");
    out.append(action_text);
    out
}

/// The output line before a batch of automation steps runs.
pub fn batch_message(step_count: usize) -> (r: String)
    ensures
        r@ == "[SCRIPT -> ENGINE] Executing "@ + dec_seq(step_count as nat) + " batched automation step(s)..."@,
{
    concat3("[SCRIPT -> ENGINE] Executing ", u64_to_string(step_count as u64).as_str(), " batched automation step(s)...")
}

// ---------------------------------------------------------------------------
// File helpers' scope
// ---------------------------------------------------------------------------

/// The `/`-separated segments of a path, empty ones included.
pub open spec fn segments(p: Seq<char>) -> Seq<Seq<char>> {
    crate::text::split_on(p, '/')
}

/// A segment that names something: neither empty nor `.`.
pub open spec fn named_segment(s: Seq<char>) -> bool {
    s.len() > 0 && s != "."@
}

/// The parts left after walking `segs` in turn: empty and `.` segments are
/// skipped, `..` leaves the folder entered last (and is kept where there is
/// none to leave), any other segment enters a folder.
pub open spec fn walk_parts(segs: Seq<Seq<char>>) -> Seq<Seq<char>>
    decreases segs.len(),
{
    if segs.len() == 0 {
        Seq::empty()
    } else {
        let prev = walk_parts(segs.drop_last());
        let s = segs.last();
        if !named_segment(s) {
            prev
        } else if s == ".."@ {
            if prev.len() > 0 && prev.last() != ".."@ {
                prev.drop_last()
            } else {
                prev.push(s)
            }
        } else {
            prev.push(s)
        }
    }
}

/// The parts of a path with `.` and `..` resolved lexically.
pub open spec fn path_parts(p: Seq<char>) -> Seq<Seq<char>> {
    walk_parts(segments(p))
}

fn path_segments(p: &Vec<char>) -> (r: Vec<Vec<char>>)
    ensures
        r@.map_values(|v: Vec<char>| v@) == segments(p@),
{
    crate::text::split_chars(p, '/')
}

fn is_named(s: &Vec<char>) -> (r: bool)
    ensures
        r == named_segment(s@),
{
    proof {
        reveal_strlit(".");
    }
    if s.len() == 0 {
        return false;
    }
    if s.len() == 1 && s[0] == '.' {
        assert(s@ =~= "."@);
        return false;
    }
    assert(s@ != "."@) by {
        if s@ == "."@ {
            assert(s@.len() == 1 && s@[0] == '.');
        }
    }
    true
}

fn is_dotdot(s: &Vec<char>) -> (r: bool)
    ensures
        r == (s@ == ".."@),
{
    proof {
        reveal_strlit("..");
    }
    if s.len() == 2 && s[0] == '.' && s[1] == '.' {
        assert(s@ =~= ".."@);
        true
    } else {
        assert(s@ != ".."@) by {
            if s@ == ".."@ {
                assert(s@.len() == 2 && s@[0] == '.' && s@[1] == '.');
            }
        }
        false
    }
}

fn copy_chars(v: &Vec<char>) -> (r: Vec<char>)
    ensures
        r@ == v@,
{
    let mut out: Vec<char> = Vec::new();
    let mut k: usize = 0;
    while k < v.len()
        invariant
            k <= v.len(),
            out@ == v@.take(k as int),
        decreases v.len() - k,
    {
        out.push(v[k]);
        k += 1;
        assert(out@ =~= v@.take(k as int));
    }
    assert(v@.take(v.len() as int) =~= v@);
    out
}

fn named_parts(p: &Vec<char>) -> (r: Vec<Vec<char>>)
    ensures
        r@.map_values(|v: Vec<char>| v@) == path_parts(p@),
{
    let segs = path_segments(p);
    let ghost sv = segs@.map_values(|v: Vec<char>| v@);
    let mut out: Vec<Vec<char>> = Vec::new();
    let mut i: usize = 0;
    while i < segs.len()
        invariant
            i <= segs.len(),
            sv == segs@.map_values(|v: Vec<char>| v@),
            sv == segments(p@),
            out@.map_values(|v: Vec<char>| v@) == walk_parts(sv.take(i as int)),
        decreases segs.len() - i,
    {
        let ghost before = out@.map_values(|v: Vec<char>| v@);
        proof {
            assert(sv.take(i + 1).drop_last() =~= sv.take(i as int));
            assert(sv.take(i + 1).last() == segs@[i as int]@);
        }
        if is_named(&segs[i]) {
            if is_dotdot(&segs[i]) {
                let mut leave = false;
                if out.len() > 0 {
                    let last_idx = out.len() - 1;
                    assert(before[last_idx as int] == out@[last_idx as int]@);
                    leave = !is_dotdot(&out[last_idx]);
                }
                if leave {
                    out.pop();
                    proof {
                        assert(out@.map_values(|v: Vec<char>| v@) =~= before.drop_last());
                    }
                } else {
                    let c = copy_chars(&segs[i]);
                    out.push(c);
                    proof {
                        assert(out@.map_values(|v: Vec<char>| v@) =~= before.push(segs@[i as int]@));
                    }
                }
            } else {
                let c = copy_chars(&segs[i]);
                out.push(c);
                proof {
                    assert(out@.map_values(|v: Vec<char>| v@) =~= before.push(segs@[i as int]@));
                }
            }
        }
        i += 1;
    }
    assert(sv.take(segs.len() as int) =~= sv);
    out
}

fn parts_prefix(p: &Vec<Vec<char>>, root: &Vec<Vec<char>>) -> (r: bool)
    ensures
        r == (root@.len() <= p@.len() && p@.map_values(|v: Vec<char>| v@).take(root@.len() as int)
            == root@.map_values(|v: Vec<char>| v@)),
{
    if root.len() > p.len() {
        return false;
    }
    let mut i: usize = 0;
    while i < root.len()
        invariant
            i <= root.len() <= p.len(),
            forall|k: int| 0 <= k < i ==> #[trigger] p@[k]@ == root@[k]@,
        decreases root.len() - i,
    {
        let a = &p[i];
        let b = &root[i];
        if a.len() != b.len() {
            assert(p@.map_values(|v: Vec<char>| v@).take(root@.len() as int)[i as int] != root@.map_values(|v: Vec<char>| v@)[i as int]);
            return false;
        }
        let mut k: usize = 0;
        while k < a.len()
            invariant
                k <= a.len(),
                a.len() == b.len(),
                i < root.len() <= p.len(),
                *a == p@[i as int],
                *b == root@[i as int],
                forall|m: int| 0 <= m < k ==> a@[m] == b@[m],
            decreases a.len() - k,
        {
            if a[k] != b[k] {
                assert(a@ != b@);
                assert(p@.map_values(|v: Vec<char>| v@).take(root@.len() as int)[i as int] != root@.map_values(|v: Vec<char>| v@)[i as int]);
                return false;
            }
            k += 1;
        }
        assert(a@ =~= b@);
        i += 1;
    }
    assert(p@.map_values(|v: Vec<char>| v@).take(root@.len() as int) =~= root@.map_values(|v: Vec<char>| v@));
    true
}

/// Where a script's file helpers may write: a relative path, whose parent
/// (as the file system resolves it) lies inside the resolved output folder.
pub fn check_scope(rel: &str, root_resolved: &str, parent_resolved: &str) -> (r: Result<(), String>)
    ensures
        rel@.len() > 0 && rel@[0] == '/' ==> (r matches Err(m) && m@
            == "Absolute paths are not allowed for script fs helpers"@),
        !(rel@.len() > 0 && rel@[0] == '/') ==> match r {
            Ok(_) => path_within(parent_resolved@, root_resolved@),
            Err(m) => !path_within(parent_resolved@, root_resolved@) && m@ == "Path escapes output_dir scope: "@
                + rel@,
        },
{
    let rc = chars_of(rel);
    if rc.len() > 0 && rc[0] == '/' {
        return Err(own("Absolute paths are not allowed for script fs helpers"));
    }
    let pc = chars_of(parent_resolved);
    let oc = chars_of(root_resolved);
    let abs_p = pc.len() > 0 && pc[0] == '/';
    let abs_r = oc.len() > 0 && oc[0] == '/';
    let pp = named_parts(&pc);
    let op = named_parts(&oc);
    if abs_p == abs_r && parts_prefix(&pp, &op) {
        Ok(())
    } else {
        Err(concat("Path escapes output_dir scope: ", rel))
    }
}

/// `p` lies in `root`: both are absolute or both relative, and the parts of
/// `root` begin the parts of `p` (`Path::starts_with` on normalized paths).
pub open spec fn path_within(p: Seq<char>, root: Seq<char>) -> bool {
    let abs_p = p.len() > 0 && p[0] == '/';
    let abs_r = root.len() > 0 && root[0] == '/';
    abs_p == abs_r && path_parts(root).len() <= path_parts(p).len() && path_parts(p).take(
        path_parts(root).len() as int,
    ) == path_parts(root)
}


// ---------------------------------------------------------------------------
// The executor's next move
// ---------------------------------------------------------------------------

/// The tab token whose queued steps must run before an action that is
/// performed at once; none for actions that touch no script tab.
pub open spec fn flush_token_spec(a: ActionV) -> Option<i64> {
    match a {
        ActionV::Capture { token, .. } => Some(token),
        ActionV::ConsoleInject { token, .. } => Some(token),
        ActionV::NetworkToggle { token, .. } => Some(token),
        ActionV::CookieSet { token, .. } => Some(token),
        ActionV::CookieDelete { token, .. } => Some(token),
        ActionV::RunDsl { token, .. } => Some(token),
        _ => None,
    }
}

pub fn flush_token(a: &ScriptAction) -> (r: Option<i64>)
    ensures
        r == flush_token_spec(a@),
{
    match a {
        ScriptAction::Capture { token, .. } => Some(*token),
        ScriptAction::ConsoleInject { token, .. } => Some(*token),
        ScriptAction::NetworkToggle { token, .. } => Some(*token),
        ScriptAction::CookieSet { token, .. } => Some(*token),
        ScriptAction::CookieDelete { token, .. } => Some(*token),
        ScriptAction::RunDsl { token, .. } => Some(*token),
        _ => None,
    }
}

/// What the executor does next with a planned script.
pub enum ScriptOp {
    /// Stop: the user asked to.
    Cancelled(String),
    /// The action matched the break condition: print the line and stop
    /// planning; the queued steps are still flushed.
    Break(String),
    /// Add the step to the token's batch.
    Queue(i64, Step),
    /// Perform the action now, after running the queued steps of the token,
    /// where there is one.
    Perform(Option<i64>),
    /// Every action was handled: run what is queued, token by token in the
    /// order the tokens were bound.
    FinalFlush(Vec<i64>),
}

/// The line printed when an action matches the break condition.
pub open spec fn break_line(idx: nat, condition: Seq<char>, text: Seq<char>) -> Seq<char> {
    "[BREAK] Step "@ + pad3_zero(idx + 1) + " matched condition '"@ + lower_seq(condition) + "': "@ + text
}

/// The executor's decision for action `idx` of the plan (or for the end of
/// the plan): first a requested stop, then the break condition against the
/// action's text, then queueing a batchable step or performing the action.
pub fn next_script_op(
    run: &ScriptRunState,
    actions: &Vec<ScriptAction>,
    idx: usize,
    keep_running: bool,
    break_condition: &Option<String>,
    action_text: &str,
) -> (r: ScriptOp)
    requires
        run.wf(),
        idx <= actions.len(),
    ensures
        idx == actions.len() ==> (r matches ScriptOp::FinalFlush(order) && order@ == run.order@),
        idx < actions.len() ==> {
            let a = actions@[idx as int]@;
            let brk = match break_condition {
                Some(c) => seq_contains(lower_seq(action_text@), lower_seq(c@)),
                None => false,
            };
            &&& !keep_running ==> (r matches ScriptOp::Cancelled(m) && m@ == "Script cancelled by user"@)
            &&& keep_running && brk ==> (r matches ScriptOp::Break(line) && line@ == break_line(
                idx as nat,
                break_condition->Some_0@,
                action_text@,
            ))
            &&& keep_running && !brk && batched_step_spec(a) is Some ==> (r matches ScriptOp::Queue(t, st)
                && batched_step_spec(a) == Some((t, st@)))
            &&& keep_running && !brk && batched_step_spec(a) is None ==> r == ScriptOp::Perform(
                flush_token_spec(a),
            )
        },
{
    if idx == actions.len() {
        return ScriptOp::FinalFlush(run.order.clone());
    }
    if let Err(e) = ensure_not_cancelled(keep_running) {
        return ScriptOp::Cancelled(e);
    }
    if let Some(cond) = break_condition {
        if matches_break(action_text, cond.as_str()) {
            let lc = to_ascii_lowercase(cond.as_str());
            let p = pad3(idx + 1);
            let a = concat3("[BREAK] Step ", p.as_str(), " matched condition '");
            let b = concat3(a.as_str(), lc.as_str(), "': ");
            let line = concat(b.as_str(), action_text);
            return ScriptOp::Break(line);
        }
    }
    match batched_step(&actions[idx]) {
        Some((t, st)) => ScriptOp::Queue(t, st),
        None => ScriptOp::Perform(flush_token(&actions[idx])),
    }
}

} // verus!
