//! Decisions of the scripting studio: which tab a run targets, the line
//! gutter, hover help, automatic indentation, the debugger's step view and
//! the template picker. Positions are character indices.
use vstd::prelude::*;
use crate::editor::{api_doc, browser_api_names, browser_apis, get_api_doc, insert_at, slice_chars};
use crate::highlight::{diagnostic_line, newlines_before, run_ends, word_char};
use crate::script_types::{ScriptDiagnostic, ScriptTemplate};
use crate::text::{
    chars_of, concat, contains_str, dec_seq, is_alphanumeric, is_white, own, seq_contains, lower_seq,
    string_from_chars, strs_view, trim_end_chars, trim_end_seq, trim_seq, trim_chars,
    u64_to_string, white,
};
use crate::script_run::matches_break;

verus! {

// ---------------------------------------------------------------------------
// Target tab
// ---------------------------------------------------------------------------

/// The tab a run, check or dry-run targets: the studio's own binding, else
/// the tab selected in the browser panel.
pub fn bound_tab(binding: &Option<String>, selected: &Option<String>) -> (r: Option<String>)
    ensures
        match binding {
            Some(b) => r matches Some(x) && x@ == b@,
            None => match selected {
                Some(s) => r matches Some(x) && x@ == s@,
                None => r is None,
            },
        },
{
    match binding {
        Some(b) => Some(own(b.as_str())),
        None => match selected {
            Some(s) => Some(own(s.as_str())),
            None => None,
        },
    }
}

// ---------------------------------------------------------------------------
// Line gutter
// ---------------------------------------------------------------------------

/// How many lines `str::lines` yields: a final line break opens no new line.
pub open spec fn lines_count(s: Seq<char>) -> int {
    if s.len() == 0 {
        0
    } else {
        newlines_before(s, s.len() as int) + (if s[s.len() - 1] == '\n' { 0int } else { 1int })
    }
}

proof fn lemma_newlines_bound(s: Seq<char>, i: int)
    requires
        0 <= i,
    ensures
        0 <= newlines_before(s, i) <= i,
    decreases i,
{
    if i > 0 {
        lemma_newlines_bound(s, i - 1);
    }
}

pub fn line_count(code: &str) -> (r: usize)
    ensures
        r == lines_count(code@),
{
    let s = chars_of(code);
    let mut n: usize = 0;
    let mut i: usize = 0;
    while i < s.len()
        invariant
            i <= s.len(),
            s@ == code@,
            n as int == newlines_before(code@, i as int),
            n <= i,
        decreases s.len() - i,
    {
        if s[i] == '\n' {
            n += 1;
        }
        i += 1;
    }
    if s.len() == 0 {
        0
    } else if s[s.len() - 1] == '\n' {
        n
    } else {
        proof {
            lemma_newlines_bound(code@, s.len() - 1);
        }
        n + 1
    }
}

/// A number right-aligned in three columns (`{:>3}`).
pub open spec fn pad3(n: nat) -> Seq<char> {
    let d = dec_seq(n);
    if d.len() >= 3 {
        d
    } else {
        Seq::new((3 - d.len()) as nat, |i: int| ' ') + d
    }
}

/// The gutter for `count` lines: "  1\n  2\n...".
pub open spec fn gutter_seq(count: nat) -> Seq<char>
    decreases count,
{
    if count == 0 {
        Seq::empty()
    } else {
        gutter_seq((count - 1) as nat) + pad3(count) + seq!['\n']
    }
}

fn padded(n: u64) -> (r: String)
    ensures
        r@ == pad3(n as nat),
{
    let d = u64_to_string(n);
    let dc = chars_of(d.as_str());
    if dc.len() >= 3 {
        d
    } else {
        let mut out: Vec<char> = Vec::new();
        let pad = 3 - dc.len();
        let mut k: usize = 0;
        while k < pad
            invariant
                k <= pad,
                out@ == Seq::new(k as nat, |i: int| ' '),
            decreases pad - k,
        {
            out.push(' ');
            k += 1;
            assert(out@ =~= Seq::new(k as nat, |i: int| ' '));
        }
        let mut j: usize = 0;
        while j < dc.len()
            invariant
                j <= dc.len(),
                out@ == Seq::new(pad as nat, |i: int| ' ') + dc@.take(j as int),
            decreases dc.len() - j,
        {
            out.push(dc[j]);
            j += 1;
            assert(out@ =~= Seq::new(pad as nat, |i: int| ' ') + dc@.take(j as int));
        }
        assert(dc@.take(dc.len() as int) =~= dc@);
        string_from_chars(&out)
    }
}

/// The line numbers shown beside the editor: one per line of the code, and
/// at least one.
pub fn gutter_text(code: &str) -> (r: String)
    ensures
        r@ == gutter_seq((if lines_count(code@) > 1 { lines_count(code@) } else { 1 }) as nat),
{
    let lc = line_count(code);
    let count = if lc > 1 { lc } else { 1 };
    let mut out = own("");
    proof {
        reveal_strlit("");
    }
    let mut i: usize = 0;
    while i < count
        invariant
            i <= count,
            out@ == gutter_seq(i as nat),
        decreases count - i,
    {
        i += 1;
        let p = padded(i as u64);
        out.append(p.as_str());
        out.append("\n");
        proof {
            reveal_strlit("\n");
            assert(out@ =~= gutter_seq(i as nat));
        }
    }
    out
}

// ---------------------------------------------------------------------------
// Hover help
// ---------------------------------------------------------------------------

/// A diagnostic names the line of the character at `idx`.
pub open spec fn diagnostic_hits(s: Seq<char>, idx: int, d: ScriptDiagnostic) -> bool {
    idx < s.len() && (d.line matches Some(l) && newlines_before(s, idx) == diagnostic_line(l))
}

/// `st..e` is the word (letters, digits, `_`) around position `idx`.
pub open spec fn word_bounds(s: Seq<char>, idx: int, st: int, e: int) -> bool {
    &&& 0 <= st <= idx
    &&& forall|m: int| st <= m < idx ==> word_char(#[trigger] s[m])
    &&& (st == 0 || !word_char(s[st - 1]))
    &&& run_ends(s, idx, e, |c: char| word_char(c))
}

/// What hovering over a word of the browser API shows.
pub open spec fn api_hover(s: Seq<char>, idx: int, r: Option<String>) -> bool {
    forall|st: int, e: int|
        #[trigger] word_bounds(s, idx, st, e) ==> match r {
            Some(t) => st < e && browser_api_names().contains(s.subrange(st, e)) && t@ == "📖 API: "@
                + s.subrange(st, e) + "\n"@ + api_doc(s.subrange(st, e)),
            None => !(st < e && browser_api_names().contains(s.subrange(st, e))),
        }
}

fn word_start_before(s: &Vec<char>, idx: usize) -> (st: usize)
    requires
        idx <= s.len(),
    ensures
        0 <= st <= idx,
        forall|m: int| st <= m < idx ==> word_char(#[trigger] s@[m]),
        st == 0 || !word_char(s@[st - 1]),
{
    let mut st = idx;
    while st > 0 && (is_alphanumeric(s[st - 1]) || s[st - 1] == '_')
        invariant
            st <= idx <= s.len(),
            forall|m: int| st <= m < idx ==> word_char(#[trigger] s@[m]),
        decreases st,
    {
        st -= 1;
    }
    st
}

fn word_end_from(s: &Vec<char>, idx: usize) -> (e: usize)
    requires
        idx <= s.len(),
    ensures
        run_ends(s@, idx as int, e as int, |c: char| word_char(c)),
{
    let mut e = idx;
    while e < s.len() && (is_alphanumeric(s[e]) || s[e] == '_')
        invariant
            idx <= e <= s.len(),
            forall|m: int| idx <= m < e ==> word_char(#[trigger] s@[m]),
        decreases s.len() - e,
    {
        e += 1;
    }
    e
}

/// The line of the character at `idx`, counting line breaks before it.
fn line_at(s: &Vec<char>, idx: usize) -> (r: usize)
    requires
        idx <= s.len(),
    ensures
        r == newlines_before(s@, idx as int),
{
    let mut n: usize = 0;
    let mut i: usize = 0;
    while i < idx
        invariant
            i <= idx <= s.len(),
            n as int == newlines_before(s@, i as int),
            n <= i,
        decreases idx - i,
    {
        if s[i] == '\n' {
            n += 1;
        }
        i += 1;
    }
    n
}

/// The tooltip over the editor at character `idx`: the message of the first
/// diagnostic on that line, else the help of the API name under the pointer.
pub fn hover_info(code: &str, idx: usize, diagnostics: &Vec<ScriptDiagnostic>) -> (r: Option<String>)
    requires
        idx <= code@.len(),
    ensures
        forall|k: int|
            #![trigger diagnostics@[k]]
            0 <= k < diagnostics.len() && diagnostic_hits(code@, idx as int, diagnostics@[k]) && (forall|j: int|
                0 <= j < k ==> !diagnostic_hits(code@, idx as int, #[trigger] diagnostics@[j])) ==> (r matches Some(
                t) && t@ == "❌ Error: "@ + diagnostics@[k].message@),
        (forall|k: int| 0 <= k < diagnostics.len() ==> !diagnostic_hits(code@, idx as int, #[trigger] diagnostics@[k]))
            ==> api_hover(code@, idx as int, r),
{
    let s = chars_of(code);
    if idx < s.len() {
        let line = line_at(&s, idx);
        let mut k: usize = 0;
        while k < diagnostics.len()
            invariant
                k <= diagnostics.len(),
                idx < s.len(),
                s@ == code@,
                line == newlines_before(code@, idx as int),
                forall|j: int| 0 <= j < k ==> !diagnostic_hits(code@, idx as int, #[trigger] diagnostics@[j]),
            decreases diagnostics.len() - k,
        {
            match diagnostics[k].line {
                Some(l) => {
                    let d = if l >= 1 { l - 1 } else { 0 };
                    if d == line {
                        let msg = concat("❌ Error: ", diagnostics[k].message.as_str());
                        return Some(msg);
                    }
                },
                None => {},
            }
            k += 1;
        }
    }
    let st = word_start_before(&s, idx);
    let e = word_end_from(&s, idx);
    proof {
        assert forall|a: int, b: int| word_bounds(code@, idx as int, a, b) implies a == st && b == e by {
            if a < st {
                assert(word_char(code@[st - 1]));
            }
            if st < a {
                assert(word_char(code@[a - 1]));
            }
            if b < e {
                assert(word_char(code@[b]));
            }
            if e < b {
                assert(word_char(code@[e as int]));
            }
        }
    }
    if st < e {
        let w = slice_chars(&s, st, e);
        let ws = string_from_chars(&w);
        let apis = browser_apis();
        if contains_str(&apis, &ws) {
            let doc = get_api_doc(ws.as_str());
            let mut t = own("📖 API: ");
            t.append(ws.as_str());
            t.append("\n");
            t.append(doc);
            return Some(t);
        }
    }
    None
}

// ---------------------------------------------------------------------------
// Automatic indentation
// ---------------------------------------------------------------------------

/// Start of the line that holds position `p`.
pub open spec fn line_start_of(s: Seq<char>, p: int, ls: int) -> bool {
    &&& 0 <= ls <= p
    &&& forall|m: int| ls <= m < p ==> #[trigger] s[m] != '\n'
    &&& (ls == 0 || s[ls - 1] == '\n')
}

/// The position just before the cursor (the cursor itself at the start).
pub open spec fn before_cursor(cp: usize) -> int {
    if cp >= 1 {
        cp - 1
    } else {
        0
    }
}

/// `ls` starts the line that ends at `end`, and `lead` characters of whitespace open it.
pub open spec fn indent_bounds(s: Seq<char>, end: int, ls: int, lead: int) -> bool {
    line_start_of(s, end, ls) && run_ends(s.subrange(ls, end), 0, lead, |c: char| is_white(c))
}

/// What Enter inserts at the cursor: the leading whitespace of the line it
/// ended, and four more spaces where that line ends in `{`.
pub open spec fn indent_insert(prev: Seq<char>, lead: int) -> Seq<char> {
    let t = trim_end_seq(prev, None);
    prev.take(lead) + (if t.len() > 0 && t.last() == '{' { "    "@ } else { Seq::empty() })
}

/// After Enter with the cursor at `cp`: the code with the new line's
/// indentation inserted, or `None` where there is nothing to insert.
pub fn auto_indent(code: &str, cp: usize) -> (r: Option<String>)
    requires
        cp <= code@.len(),
    ensures
        forall|ls: int, lead: int|
            #[trigger] indent_bounds(code@, before_cursor(cp), ls, lead) ==> match r {
                Some(c) => indent_insert(code@.subrange(ls, before_cursor(cp)), lead).len() > 0
                    && c@ == insert_at(
                    code@,
                    cp as int,
                    indent_insert(code@.subrange(ls, before_cursor(cp)), lead),
                ),
                None => indent_insert(code@.subrange(ls, before_cursor(cp)), lead).len() == 0,
            },
        exists|ls: int, lead: int| #[trigger] indent_bounds(code@, before_cursor(cp), ls, lead),
{
    proof {
        reveal_strlit("    ");
    }
    let s = chars_of(code);
    let end = if cp >= 1 { cp - 1 } else { 0 };
    let mut ls = end;
    while ls > 0 && s[ls - 1] != '\n'
        invariant
            ls <= end <= s.len(),
            forall|m: int| ls <= m < end ==> #[trigger] s@[m] != '\n',
        decreases ls,
    {
        ls -= 1;
    }
    let prev = slice_chars(&s, ls, end);
    let mut lead: usize = 0;
    while lead < prev.len() && white(prev[lead])
        invariant
            lead <= prev.len(),
            forall|m: int| 0 <= m < lead ==> is_white(#[trigger] prev@[m]),
        decreases prev.len() - lead,
    {
        lead += 1;
    }
    let t = trim_end_chars(&prev);
    let brace = t.len() > 0 && t[t.len() - 1] == '{';
    let mut ins = slice_chars(&prev, 0, lead);
    if brace {
        ins.push(' ');
        ins.push(' ');
        ins.push(' ');
        ins.push(' ');
    }
    proof {
        assert(ins@ =~= indent_insert(prev@, lead as int));
        assert(prev@ =~= code@.subrange(ls as int, end as int));
        assert(run_ends(prev@, 0, lead as int, |c: char| is_white(c)));
        assert(end as int == before_cursor(cp));
        assert(indent_bounds(code@, before_cursor(cp), ls as int, lead as int));
        assert forall|a: int, b: int| indent_bounds(code@, end as int, a, b) implies a == ls && b == lead by {
            if a < ls {
                assert(code@[ls - 1] == '\n');
            }
            if ls < a {
                assert(code@[a - 1] != '\n');
            }
            if a == ls {
                if b < lead {
                    assert(is_white(prev@[b]));
                }
                if lead < b {
                    assert(is_white(code@.subrange(a, end as int)[lead as int]));
                }
            }
        }
    }
    if ins.len() == 0 {
        return None;
    }
    let prefix = slice_chars(&s, 0, cp);
    let suffix = slice_chars(&s, cp, s.len());
    let mut out = string_from_chars(&prefix);
    let insert = string_from_chars(&ins);
    out.append(insert.as_str());
    let tail = string_from_chars(&suffix);
    out.append(tail.as_str());
    proof {
        assert(out@ =~= insert_at(code@, cp as int, ins@));
    }
    Some(out)
}

// ---------------------------------------------------------------------------
// Debugger step view
// ---------------------------------------------------------------------------

/// The shown step, pulled back onto the plan where it ran past its end.
pub fn clamp_debug_index(index: usize, plan_len: usize) -> (r: usize)
    ensures
        r == (if plan_len == 0 { 0 } else if index > plan_len - 1 { (plan_len - 1) as int } else { index as int }),
{
    let max_idx = if plan_len > 0 { plan_len - 1 } else { 0 };
    if index > max_idx {
        max_idx
    } else {
        index
    }
}

/// "Step i/n" under the debugger's buttons.
pub fn step_label(index: usize, plan_len: usize) -> (r: String)
    requires
        index < u64::MAX,
    ensures
        r@ == "Step "@ + dec_seq((index + 1) as nat) + "/"@ + dec_seq(plan_len as nat),
{
    let a = u64_to_string(index as u64 + 1);
    let b = u64_to_string(plan_len as u64);
    let mut out = own("Step ");
    out.append(a.as_str());
    out.append("/");
    out.append(b.as_str());
    out
}

/// The break condition is set and the shown step's text contains it,
/// ignoring ASCII case.
pub fn break_hit(step_text: &str, condition: &str) -> (r: bool)
    ensures
        r == (trim_seq(condition@, None).len() > 0 && seq_contains(lower_seq(step_text@), lower_seq(condition@))),
{
    let c = chars_of(condition);
    let t = trim_chars(&c, None);
    t.len() > 0 && matches_break(step_text, condition)
}

// ---------------------------------------------------------------------------
// Templates
// ---------------------------------------------------------------------------

/// The position of the first template with the given id.
pub fn find_template(templates: &Vec<ScriptTemplate>, id: &str) -> (r: Option<usize>)
    ensures
        match r {
            Some(i) => i < templates.len() && templates@[i as int].id@ == id@ && forall|k: int|
                0 <= k < i ==> #[trigger] templates@[k].id@ != id@,
            None => forall|k: int| 0 <= k < templates.len() ==> #[trigger] templates@[k].id@ != id@,
        },
{
    let want = own(id);
    let mut i: usize = 0;
    while i < templates.len()
        invariant
            i <= templates.len(),
            want@ == id@,
            forall|k: int| 0 <= k < i ==> #[trigger] templates@[k].id@ != id@,
        decreases templates.len() - i,
    {
        if templates[i].id == want {
            return Some(i);
        }
        i += 1;
    }
    None
}

} // verus!
