//! Editing helpers of the script editor: bracket matching, API help,
//! completion and find/replace. Positions are character indices.
use vstd::prelude::*;
use crate::text::{
    chars_of, first_occurrence, find_chars, find_chars_from, matches_at, occurs_at, own, push_str, replace_seq, seq_contains,
    str_eq, str_replace, string_from_chars, strs_view,
};

verus! {

// ---------------------------------------------------------------------------
// Bracket matching
// ---------------------------------------------------------------------------

/// The bracket pair that a character belongs to: (opening, closing, whether
/// the character opens).
pub open spec fn bracket_pair(c: char) -> Option<(char, char, bool)> {
    if c == '(' {
        Some(('(', ')', true))
    } else if c == '{' {
        Some(('{', '}', true))
    } else if c == '[' {
        Some(('[', ']', true))
    } else if c == ')' {
        Some(('(', ')', false))
    } else if c == '}' {
        Some(('{', '}', false))
    } else if c == ']' {
        Some(('[', ']', false))
    } else {
        None
    }
}

/// +1 for `up`, -1 for `down`, 0 for anything else.
pub open spec fn bracket_step(c: char, up: char, down: char) -> int {
    if c == up {
        1
    } else if c == down {
        -1
    } else {
        0
    }
}

/// Opening minus closing brackets in `s[lo..hi)`.
pub open spec fn depth_fwd(s: Seq<char>, open: char, close: char, lo: int, hi: int) -> int
    decreases hi - lo,
{
    if hi <= lo {
        0
    } else {
        depth_fwd(s, open, close, lo, hi - 1) + bracket_step(s[hi - 1], open, close)
    }
}

/// Closing minus opening brackets in `s[lo..hi)`.
pub open spec fn depth_back(s: Seq<char>, open: char, close: char, lo: int, hi: int) -> int
    decreases hi - lo,
{
    if hi <= lo {
        0
    } else {
        depth_back(s, open, close, lo + 1, hi) + bracket_step(s[lo], close, open)
    }
}

/// `j` closes the opening bracket at `idx`: the nesting depth counted from
/// `idx` first returns to zero there.
pub open spec fn closes_at(s: Seq<char>, open: char, close: char, idx: int, j: int) -> bool {
    &&& idx < j < s.len()
    &&& depth_fwd(s, open, close, idx, j + 1) == 0
    &&& forall|k: int| idx <= k < j ==> #[trigger] depth_fwd(s, open, close, idx, k + 1) > 0
}

/// `i` opens the closing bracket at `idx`: the nesting depth counted back from
/// `idx` first returns to zero there.
pub open spec fn opens_at(s: Seq<char>, open: char, close: char, idx: int, i: int) -> bool {
    &&& 0 <= i < idx
    &&& depth_back(s, open, close, i, idx + 1) == 0
    &&& forall|k: int| i < k <= idx ==> #[trigger] depth_back(s, open, close, k, idx + 1) > 0
}

/// The three bracket kinds the editor matches: round, curly and square, each
/// opening character paired with its closing one.
pub proof fn lemma_bracket_kinds()
    ensures
        bracket_pair('(') == Some(('(', ')', true)),
        bracket_pair(')') == Some(('(', ')', false)),
        bracket_pair('{') == Some(('{', '}', true)),
        bracket_pair('}') == Some(('{', '}', false)),
        bracket_pair('[') == Some(('[', ']', true)),
        bracket_pair(']') == Some(('[', ']', false)),
        forall|c: char| !(c == '(' || c == ')' || c == '{' || c == '}' || c == '[' || c == ']') ==> #[trigger] bracket_pair(c) is None,
{
}

/// The bracket pair around the character just before the cursor: that
/// character and its partner, in text order, or `None` where the character
/// is no bracket or has no partner.
pub fn find_matching_brace(code: &str, cursor_idx: usize) -> (r: Option<(usize, usize)>)
    ensures
        (cursor_idx == 0 || cursor_idx > code@.len()) ==> r is None,
        0 < cursor_idx <= code@.len() ==> {
            let idx = cursor_idx - 1;
            match bracket_pair(code@[idx]) {
                None => r is None,
                Some((o, c, true)) => match r {
                    Some((a, b)) => a == idx && closes_at(code@, o, c, idx, b as int),
                    None => forall|k: int|
                        idx <= k < code@.len() ==> #[trigger] depth_fwd(code@, o, c, idx, k + 1) > 0,
                },
                Some((o, c, false)) => match r {
                    Some((a, b)) => b == idx && opens_at(code@, o, c, idx, a as int),
                    None => forall|k: int|
                        0 <= k <= idx ==> #[trigger] depth_back(code@, o, c, k, idx + 1) > 0,
                },
            }
        },
        0 < cursor_idx <= code@.len() && code@[cursor_idx - 1] == '(' ==> match r {
            Some((a, b)) => a == cursor_idx - 1 && closes_at(code@, '(', ')', cursor_idx - 1, b as int),
            None => forall|k: int|
                cursor_idx - 1 <= k < code@.len() ==> #[trigger] depth_fwd(code@, '(', ')', cursor_idx - 1, k + 1) > 0,
        },
        0 < cursor_idx <= code@.len() && code@[cursor_idx - 1] == ')' ==> match r {
            Some((a, b)) => b == cursor_idx - 1 && opens_at(code@, '(', ')', cursor_idx - 1, a as int),
            None => forall|k: int|
                0 <= k <= cursor_idx - 1 ==> #[trigger] depth_back(code@, '(', ')', k, cursor_idx - 1 + 1) > 0,
        },
        0 < cursor_idx <= code@.len() && code@[cursor_idx - 1] == '{' ==> match r {
            Some((a, b)) => a == cursor_idx - 1 && closes_at(code@, '{', '}', cursor_idx - 1, b as int),
            None => forall|k: int|
                cursor_idx - 1 <= k < code@.len() ==> #[trigger] depth_fwd(code@, '{', '}', cursor_idx - 1, k + 1) > 0,
        },
        0 < cursor_idx <= code@.len() && code@[cursor_idx - 1] == '}' ==> match r {
            Some((a, b)) => b == cursor_idx - 1 && opens_at(code@, '{', '}', cursor_idx - 1, a as int),
            None => forall|k: int|
                0 <= k <= cursor_idx - 1 ==> #[trigger] depth_back(code@, '{', '}', k, cursor_idx - 1 + 1) > 0,
        },
        0 < cursor_idx <= code@.len() && code@[cursor_idx - 1] == '[' ==> match r {
            Some((a, b)) => a == cursor_idx - 1 && closes_at(code@, '[', ']', cursor_idx - 1, b as int),
            None => forall|k: int|
                cursor_idx - 1 <= k < code@.len() ==> #[trigger] depth_fwd(code@, '[', ']', cursor_idx - 1, k + 1) > 0,
        },
        0 < cursor_idx <= code@.len() && code@[cursor_idx - 1] == ']' ==> match r {
            Some((a, b)) => b == cursor_idx - 1 && opens_at(code@, '[', ']', cursor_idx - 1, a as int),
            None => forall|k: int|
                0 <= k <= cursor_idx - 1 ==> #[trigger] depth_back(code@, '[', ']', k, cursor_idx - 1 + 1) > 0,
        },
        0 < cursor_idx <= code@.len() && !(code@[cursor_idx - 1] == '(' || code@[cursor_idx - 1] == ')'
            || code@[cursor_idx - 1] == '{' || code@[cursor_idx - 1] == '}' || code@[cursor_idx - 1] == '['
            || code@[cursor_idx - 1] == ']') ==> r is None,
{
    if cursor_idx == 0 {
        return None;
    }
    let chars = chars_of(code);
    let n = chars.len();
    let idx = cursor_idx - 1;
    if idx >= n {
        return None;
    }
    let c = chars[idx];
    let (open, close, forward) = if c == '(' {
        ('(', ')', true)
    } else if c == '{' {
        ('{', '}', true)
    } else if c == '[' {
        ('[', ']', true)
    } else if c == ')' {
        ('(', ')', false)
    } else if c == '}' {
        ('{', '}', false)
    } else if c == ']' {
        ('[', ']', false)
    } else {
        return None;
    };
    if forward {
        forward_partner(&chars, open, close, idx)
    } else {
        backward_partner(&chars, open, close, idx)
    }
}

fn forward_partner(s: &Vec<char>, open: char, close: char, idx: usize) -> (r: Option<(usize, usize)>)
    requires
        idx < s.len(),
        s@[idx as int] == open,
        open != close,
    ensures
        match r {
            Some((a, b)) => a == idx && closes_at(s@, open, close, idx as int, b as int),
            None => forall|k: int|
                idx <= k < s.len() ==> #[trigger] depth_fwd(s@, open, close, idx as int, k + 1) > 0,
        },
{
    let n = s.len();
    let mut depth: usize = 0;
    let mut i = idx;
    while i < n
        invariant
            idx <= i <= n,
            n == s.len(),
            s@[idx as int] == open,
            open != close,
            depth as int == depth_fwd(s@, open, close, idx as int, i as int),
            depth <= i - idx,
            forall|k: int| idx <= k < i ==> #[trigger] depth_fwd(s@, open, close, idx as int, k + 1) > 0,
        decreases n - i,
    {
        assert(depth_fwd(s@, open, close, idx as int, i + 1) == depth_fwd(s@, open, close, idx as int, i as int)
            + bracket_step(s@[i as int], open, close));
        if i > idx {
            assert(depth_fwd(s@, open, close, idx as int, (i - 1) + 1) > 0);
        }
        if s[i] == open {
            depth += 1;
        } else if s[i] == close {
            depth -= 1;
            if depth == 0 {
                return Some((idx, i));
            }
        }
        assert(depth_fwd(s@, open, close, idx as int, i + 1) > 0);
        i += 1;
    }
    None
}

fn backward_partner(s: &Vec<char>, open: char, close: char, idx: usize) -> (r: Option<(usize, usize)>)
    requires
        idx < s.len(),
        s@[idx as int] == close,
        open != close,
    ensures
        match r {
            Some((a, b)) => b == idx && opens_at(s@, open, close, idx as int, a as int),
            None => forall|k: int|
                0 <= k <= idx ==> #[trigger] depth_back(s@, open, close, k, idx + 1) > 0,
        },
{
    let mut depth: usize = 0;
    let mut i = idx + 1;
    while i > 0
        invariant
            0 <= i <= idx + 1,
            idx < s.len(),
            s@[idx as int] == close,
            open != close,
            depth as int == depth_back(s@, open, close, i as int, idx + 1),
            depth <= idx + 1 - i,
            forall|k: int| i <= k <= idx ==> #[trigger] depth_back(s@, open, close, k, idx + 1) > 0,
        decreases i,
    {
        let k = i - 1;
        assert(depth_back(s@, open, close, k as int, idx + 1) == depth_back(s@, open, close, i as int, idx + 1)
            + bracket_step(s@[k as int], close, open));
        if k < idx {
            assert(depth_back(s@, open, close, i as int, idx + 1) > 0);
        }
        if s[k] == close {
            depth += 1;
        } else if s[k] == open {
            depth -= 1;
            if depth == 0 {
                return Some((k, idx));
            }
        }
        assert(depth_back(s@, open, close, k as int, idx + 1) > 0);
        i = k;
    }
    None
}

// ---------------------------------------------------------------------------
// API help
// ---------------------------------------------------------------------------

/// The help line shown for a name of the browser API.
pub open spec fn api_doc(api: Seq<char>) -> Seq<char> {
    if api == "Tab"@ {
        "Creates a new tab or attaches to one. Usage: let t = Tab(\"url\");"@
    } else if api == "TabNew"@ {
        "Force opens a new browser tab. Usage: let t = TabNew(\"url\");"@
    } else if api == "TabCatch"@ {
        "Attaches to the tab currently selected in the Ops UI."@
    } else if api == "navigate"@ {
        "Navigates the tab to a new URL. Usage: tab.navigate(\"url\");"@
    } else if api == "click"@ {
        "Clicks an element identified by CSS selector. Usage: tab.click(\"#btn\");"@
    } else if api == "type"@ {
        "Types text into an input field. Usage: tab.type(\"input\", \"text\");"@
    } else if api == "wait_for_ms"@ {
        "Pauses script execution. Usage: tab.wait_for_ms(1000);"@
    } else if api == "screenshot"@ {
        "Captures a screenshot of the current page."@
    } else if api == "capture"@ {
        "Sub-module for page capture (html, complete, mirror)."@
    } else if api == "html"@ {
        "Captures raw HTML of the page. Usage: tab.capture.html();"@
    } else if api == "mirror"@ {
        "Captures a mirror (MHTML/WebBundle) of the page."@
    } else if api == "complete"@ {
        "Captures a full page archive with all assets."@
    } else if api == "console"@ {
        "Access to browser console. Usage: tab.console.log(\"msg\");"@
    } else if api == "inject"@ {
        "Injects and executes custom JavaScript. Usage: tab.console.inject(\"code\");"@
    } else if api == "network"@ {
        "Network monitoring and interception APIs."@
    } else if api == "cookies"@ {
        "Cookie management. Usage: tab.cookies.get_all();"@
    } else if api == "fs_write_text"@ {
        "Writes text to a file in output_dir. Usage: fs_write_text(\"path\", \"data\");"@
    } else {
        "Sniper Browser API function."@
    }
}

pub fn get_api_doc(api: &str) -> (r: &'static str)
    ensures
        r@ == api_doc(api@),
{
    if str_eq(api, "Tab") {
        "Creates a new tab or attaches to one. Usage: let t = Tab(\"url\");"
    } else if str_eq(api, "TabNew") {
        "Force opens a new browser tab. Usage: let t = TabNew(\"url\");"
    } else if str_eq(api, "TabCatch") {
        "Attaches to the tab currently selected in the Ops UI."
    } else if str_eq(api, "navigate") {
        "Navigates the tab to a new URL. Usage: tab.navigate(\"url\");"
    } else if str_eq(api, "click") {
        "Clicks an element identified by CSS selector. Usage: tab.click(\"#btn\");"
    } else if str_eq(api, "type") {
        "Types text into an input field. Usage: tab.type(\"input\", \"text\");"
    } else if str_eq(api, "wait_for_ms") {
        "Pauses script execution. Usage: tab.wait_for_ms(1000);"
    } else if str_eq(api, "screenshot") {
        "Captures a screenshot of the current page."
    } else if str_eq(api, "capture") {
        "Sub-module for page capture (html, complete, mirror)."
    } else if str_eq(api, "html") {
        "Captures raw HTML of the page. Usage: tab.capture.html();"
    } else if str_eq(api, "mirror") {
        "Captures a mirror (MHTML/WebBundle) of the page."
    } else if str_eq(api, "complete") {
        "Captures a full page archive with all assets."
    } else if str_eq(api, "console") {
        "Access to browser console. Usage: tab.console.log(\"msg\");"
    } else if str_eq(api, "inject") {
        "Injects and executes custom JavaScript. Usage: tab.console.inject(\"code\");"
    } else if str_eq(api, "network") {
        "Network monitoring and interception APIs."
    } else if str_eq(api, "cookies") {
        "Cookie management. Usage: tab.cookies.get_all();"
    } else if str_eq(api, "fs_write_text") {
        "Writes text to a file in output_dir. Usage: fs_write_text(\"path\", \"data\");"
    } else {
        "Sniper Browser API function."
    }
}


// ---------------------------------------------------------------------------
// Completion
// ---------------------------------------------------------------------------

/// The names of the browser API, in the order completion offers them.
pub open spec fn browser_api_names() -> Seq<Seq<char>> {
    seq![
        "Tab"@,
        "TabNew"@,
        "TabCatch"@,
        "TabCurrent"@,
        "navigate"@,
        "click"@,
        "type"@,
        "wait_for_ms"@,
        "screenshot"@,
        "find_el"@,
        "capture"@,
        "html"@,
        "mirror"@,
        "complete"@,
        "console"@,
        "inject"@,
        "network"@,
        "cookies"@,
        "log"@,
        "fs_write_text"@,
        "fs_append_text"@,
    ]
}

/// The keywords of the scripting language.
pub open spec fn rhai_keyword_names() -> Seq<Seq<char>> {
    seq![
        "fn"@,
        "let"@,
        "const"@,
        "if"@,
        "else"@,
        "for"@,
        "loop"@,
        "while"@,
        "return"@,
        "break"@,
        "continue"@,
        "import"@,
        "as"@,
        "export"@,
    ]
}

fn push_api_names_head(v: &mut Vec<String>)
    ensures
        strs_view(final(v)@) == strs_view(old(v)@) + browser_api_names().take(10),
{
    push_str(v, own("Tab"));
    push_str(v, own("TabNew"));
    push_str(v, own("TabCatch"));
    push_str(v, own("TabCurrent"));
    push_str(v, own("navigate"));
    push_str(v, own("click"));
    push_str(v, own("type"));
    push_str(v, own("wait_for_ms"));
    push_str(v, own("screenshot"));
    push_str(v, own("find_el"));
    assert(strs_view(v@) =~= strs_view(old(v)@) + browser_api_names().take(10));
}

fn push_api_names_tail(v: &mut Vec<String>)
    ensures
        strs_view(final(v)@) == strs_view(old(v)@) + browser_api_names().skip(10),
{
    push_str(v, own("capture"));
    push_str(v, own("html"));
    push_str(v, own("mirror"));
    push_str(v, own("complete"));
    push_str(v, own("console"));
    push_str(v, own("inject"));
    push_str(v, own("network"));
    push_str(v, own("cookies"));
    push_str(v, own("log"));
    push_str(v, own("fs_write_text"));
    push_str(v, own("fs_append_text"));
    assert(strs_view(v@) =~= strs_view(old(v)@) + browser_api_names().skip(10));
}

/// The completion list: every name of the browser API.
pub fn browser_apis() -> (r: Vec<String>)
    ensures
        strs_view(r@) == browser_api_names(),
{
    let mut v: Vec<String> = Vec::new();
    push_api_names_head(&mut v);
    push_api_names_tail(&mut v);
    assert(strs_view(v@) =~= browser_api_names());
    v
}

/// The completion popup of the editor.
pub struct CompletionState {
    pub open: bool,
    /// Where the chosen name is inserted.
    pub cursor: usize,
    /// The highlighted entry.
    pub index: usize,
    pub suggestions: Vec<String>,
}

/// The keys of one frame that completion reacts to.
#[derive(Clone, Copy)]
pub struct CompletionKeys {
    /// Ctrl/Cmd + Space.
    pub command_space: bool,
    /// Enter or Tab.
    pub accept: bool,
    pub down: bool,
    pub up: bool,
    pub escape: bool,
}

/// `s` with `t` inserted before position `i`.
pub open spec fn insert_at(s: Seq<char>, i: int, t: Seq<char>) -> Seq<char> {
    s.take(i) + t + s.skip(i)
}

/// Completion opens when the character before the cursor is a dot, or on Ctrl+Space.
pub open spec fn completion_triggered(code: Seq<char>, cursor_pos: int, keys: CompletionKeys) -> bool {
    cursor_pos > 0 && (code[cursor_pos - 1] == '.' || keys.command_space)
}

/// The highlighted entry after one step down a list of `len` entries.
pub open spec fn index_down(index: int, len: int) -> int {
    (index + 1) % (if len > 1 { len } else { 1 })
}

/// The highlighted entry after one step up a list of `len` entries.
pub open spec fn index_up(index: int, len: int) -> int {
    (index + (if len > 0 { len - 1 } else { 0 })) % (if len > 1 { len } else { 1 })
}

fn wrap_len(len: usize) -> (r: usize)
    ensures
        r == (if len > 1 { len } else { 1 }),
{
    if len > 1 {
        len
    } else {
        1
    }
}

/// One frame of completion. Returns the new code where an entry was accepted.
pub fn handle_autocomplete(
    code: &str,
    st: &mut CompletionState,
    cursor_pos: usize,
    keys: CompletionKeys,
) -> (r: Option<String>)
    requires
        cursor_pos <= code@.len(),
    ensures
        cursor_pos == 0 ==> r is None && *final(st) == *old(st),
        cursor_pos > 0 ==> {
            let trig = completion_triggered(code@, cursor_pos as int, keys);
            let open0 = old(st).open || trig;
            let idx0: int = if trig { 0 } else { old(st).index as int };
            let sug0 = if trig { browser_api_names() } else { strs_view(old(st).suggestions@) };
            let accepted = open0 && keys.accept && idx0 < sug0.len();
            let idx1 = if open0 && keys.down { index_down(idx0, sug0.len() as int) } else { idx0 };
            let idx2 = if open0 && keys.up { index_up(idx1, sug0.len() as int) } else { idx1 };
            &&& strs_view(final(st).suggestions@) == sug0
            &&& final(st).cursor == (if trig { cursor_pos } else { old(st).cursor })
            &&& final(st).index == idx2
            &&& final(st).open == (open0 && !accepted && !(keys.escape))
            &&& match r {
                Some(c) => accepted && c@ == insert_at(code@, cursor_pos as int, sug0[idx0]),
                None => !accepted,
            }
        },
{
    if cursor_pos == 0 {
        return None;
    }
    let chars = chars_of(code);
    let trig = chars[cursor_pos - 1] == '.' || keys.command_space;
    if trig {
        st.open = true;
        st.cursor = cursor_pos;
        st.index = 0;
        st.suggestions = browser_apis();
    }
    let mut result: Option<String> = None;
    if st.open {
        let n = st.suggestions.len();
        if keys.accept && st.index < n {
            let prefix = slice_chars(&chars, 0, cursor_pos);
            let suffix = slice_chars(&chars, cursor_pos, chars.len());
            let mut out = string_from_chars(&prefix);
            out.append(st.suggestions[st.index].as_str());
            let tail = string_from_chars(&suffix);
            out.append(tail.as_str());
            proof {
                assert(prefix@ + st.suggestions@[st.index as int]@ + suffix@
                    =~= insert_at(code@, cursor_pos as int, strs_view(st.suggestions@)[st.index as int]));
            }
            result = Some(out);
            st.open = false;
        }
        if keys.down {
            let w = wrap_len(n) as u128;
            st.index = ((st.index as u128 + 1) % w) as usize;
        }
        if keys.up {
            let back = if n > 0 { n - 1 } else { 0 };
            let w = wrap_len(n) as u128;
            st.index = ((st.index as u128 + back as u128) % w) as usize;
        }
        if keys.escape {
            st.open = false;
        }
    }
    result
}

/// The characters `s[lo..hi)`.
pub fn slice_chars(s: &Vec<char>, lo: usize, hi: usize) -> (r: Vec<char>)
    requires
        lo <= hi <= s.len(),
    ensures
        r@ == s@.subrange(lo as int, hi as int),
{
    let mut out: Vec<char> = Vec::new();
    let mut i = lo;
    while i < hi
        invariant
            lo <= i <= hi <= s.len(),
            out@ == s@.subrange(lo as int, i as int),
        decreases hi - i,
    {
        out.push(s[i]);
        assert(out@ =~= s@.subrange(lo as int, i + 1));
        i += 1;
    }
    out
}

// ---------------------------------------------------------------------------
// Find and replace
// ---------------------------------------------------------------------------

/// `i` is the first occurrence of `sub` in `s` at or after `from`.
pub open spec fn first_from(s: Seq<char>, sub: Seq<char>, from: int, i: int) -> bool {
    from <= i && occurs_at(s, sub, i) && forall|k: int| from <= k < i ==> !occurs_at(s, sub, k)
}

/// "Next": the cursor moves past the next occurrence of the search text at or
/// after it, else past the first one in the code; it stays where there is none.
pub fn find_next(code: &str, cursor: usize, needle: &str) -> (r: usize)
    requires
        cursor <= code@.len(),
    ensures
        needle@.len() == 0 ==> r == cursor,
        needle@.len() > 0 ==> {
            ||| exists|i: int| first_from(code@, needle@, cursor as int, i) && r == i + needle@.len()
            ||| (forall|k: int| cursor <= k ==> !occurs_at(code@, needle@, k)) && exists|i: int|
                first_occurrence(code@, needle@, i) && r == i + needle@.len()
            ||| (forall|k: int| cursor <= k ==> !occurs_at(code@, needle@, k)) && !seq_contains(code@, needle@)
                && r == cursor
        },
{
    let c = chars_of(code);
    let n = chars_of(needle);
    let cl = c.len();
    if n.len() == 0 {
        return cursor;
    }
    match find_chars_from(&c, &n, cursor) {
        Some(p) => {
            assert(first_from(code@, needle@, cursor as int, p as int));
            assert(occurs_at(c@, n@, p as int));
            assert(p + n.len() <= cl);
            p + n.len()
        },
        None => match find_chars(&c, &n) {
            Some(p) => {
                assert(occurs_at(c@, n@, p as int));
                assert(p + n.len() <= cl);
                p + n.len()
            },
            None => cursor,
        },
    }
}

/// "Replace": where the text just before the cursor is the search text, it is
/// replaced; otherwise the code is unchanged.
pub fn replace_at_cursor(code: &str, cursor: usize, needle: &str, replacement: &str) -> (r: String)
    ensures
        ({
            let start: int = if cursor >= needle@.len() { cursor - needle@.len() } else { 0 };
            if needle@.len() > 0 && cursor <= code@.len() && code@.subrange(start, cursor as int) == needle@ {
                r@ == code@.take(start) + replacement@ + code@.skip(cursor as int)
            } else {
                r@ == code@
            }
        }),
{
    let c = chars_of(code);
    let n = chars_of(needle);
    let start = if cursor >= n.len() { cursor - n.len() } else { 0 };
    if n.len() == 0 || cursor > c.len() {
        return own(code);
    }
    if cursor < n.len() {
        assert(code@.subrange(start as int, cursor as int).len() != needle@.len());
        return own(code);
    }
    if !matches_at(&c, &n, start) {
        return own(code);
    }
    let prefix = slice_chars(&c, 0, start);
    let suffix = slice_chars(&c, cursor, c.len());
    let mut out = string_from_chars(&prefix);
    out.append(replacement);
    let tail = string_from_chars(&suffix);
    out.append(tail.as_str());
    assert(prefix@ =~= code@.take(start as int));
    assert(suffix@ =~= code@.skip(cursor as int));
    out
}

/// "All": every occurrence of a non-empty search text is replaced.
pub fn replace_all(code: &str, needle: &str, replacement: &str) -> (r: String)
    ensures
        needle@.len() == 0 ==> r@ == code@,
        needle@.len() > 0 ==> r@ == replace_seq(code@, needle@, replacement@),
{
    let n = chars_of(needle);
    if n.len() == 0 {
        own(code)
    } else {
        str_replace(code, needle, replacement)
    }
}

} // verus!
