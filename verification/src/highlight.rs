//! Syntax colouring of scripts: the code is cut into tokens, each with a
//! kind, and characters on lines that a diagnostic names are marked.
use vstd::prelude::*;
use crate::editor::{browser_api_names, browser_apis, rhai_keyword_names};
use crate::text::{
    chars_of, contains_str, is_alphabetic, is_alphanumeric, is_numeric, own, push_str, string_from_chars, strs_view,
    unicode_alnum, unicode_alpha, unicode_numeric,
};
use crate::editor::slice_chars;

verus! {

/// What a token is coloured as.
#[derive(PartialEq, Eq, Structural, Clone, Copy, Debug)]
pub enum TokenKind {
    Comment,
    Str,
    Keyword,
    Api,
    Word,
    Number,
    /// One of `(){}[].,;`.
    Punct,
    /// Any other single character.
    Other,
}

/// A token: the characters `start..end` of the code.
#[derive(Clone, Copy, Debug)]
pub struct Token {
    pub start: usize,
    pub end: usize,
    pub kind: TokenKind,
}

pub open spec fn starts_comment(s: Seq<char>, i: int) -> bool {
    s[i] == '/' && i + 1 < s.len() && s[i + 1] == '/'
}

pub open spec fn is_quote(c: char) -> bool {
    c == '"' || c == '`' || c == '\''
}

pub open spec fn word_start(c: char) -> bool {
    unicode_alpha(c) || c == '_'
}

pub open spec fn word_char(c: char) -> bool {
    unicode_alnum(c) || c == '_'
}

pub open spec fn number_char(c: char) -> bool {
    unicode_numeric(c) || c == '.'
}

pub open spec fn is_punct(c: char) -> bool {
    c == '(' || c == ')' || c == '{' || c == '}' || c == '[' || c == ']' || c == '.' || c == ','
        || c == ';'
}

/// `e` ends the longest run from `from` of characters that satisfy `p`.
pub open spec fn run_ends(s: Seq<char>, from: int, e: int, p: spec_fn(char) -> bool) -> bool {
    &&& from <= e <= s.len()
    &&& forall|m: int| from <= m < e ==> p(#[trigger] s[m])
    &&& (e == s.len() || !p(s[e]))
}

/// A quoted text opened at `i` ends just after the next equal quote, or at the end.
pub open spec fn quote_ends(s: Seq<char>, i: int, e: int) -> bool {
    &&& i < e <= s.len()
    &&& forall|m: int| i < m < e - 1 ==> #[trigger] s[m] != s[i]
    &&& ((e - 1 > i && s[e - 1] == s[i]) || (e == s.len() && (e - 1 == i || s[e - 1] != s[i])))
}

/// How a word is coloured.
pub open spec fn word_kind(w: Seq<char>) -> TokenKind {
    if rhai_keyword_names().contains(w) {
        TokenKind::Keyword
    } else if browser_api_names().contains(w) {
        TokenKind::Api
    } else {
        TokenKind::Word
    }
}

/// `start..end` is the token that begins at `start`, and `kind` its kind.
pub open spec fn token_spans(s: Seq<char>, start: int, end: int, kind: TokenKind) -> bool {
    if starts_comment(s, start) {
        kind == TokenKind::Comment && run_ends(s, start + 1, end, |c: char| c != '\n')
    } else if is_quote(s[start]) {
        kind == TokenKind::Str && quote_ends(s, start, end)
    } else if word_start(s[start]) {
        run_ends(s, start + 1, end, |c: char| word_char(c)) && kind == word_kind(s.subrange(start, end))
    } else if unicode_numeric(s[start]) {
        kind == TokenKind::Number && run_ends(s, start + 1, end, |c: char| number_char(c))
    } else {
        end == start + 1 && kind == (if is_punct(s[start]) {
            TokenKind::Punct
        } else {
            TokenKind::Other
        })
    }
}

/// The tokens cover the code from its start to its end, one after the other.
pub open spec fn tokenizes(s: Seq<char>, t: Seq<Token>) -> bool {
    &&& (t.len() == 0 <==> s.len() == 0)
    &&& t.len() > 0 ==> t[0].start == 0 && t[t.len() - 1].end == s.len()
    &&& forall|k: int| 0 <= k < t.len() - 1 ==> #[trigger] t[k].end == t[k + 1].start
    &&& forall|k: int|
        0 <= k < t.len() ==> #[trigger] t[k].start < t[k].end && token_spans(
            s,
            t[k].start as int,
            t[k].end as int,
            t[k].kind,
        )
}

/// The keyword list.
pub fn rhai_keywords() -> (r: Vec<String>)
    ensures
        strs_view(r@) == rhai_keyword_names(),
{
    let mut v: Vec<String> = Vec::new();
    push_str(&mut v, own("fn"));
    push_str(&mut v, own("let"));
    push_str(&mut v, own("const"));
    push_str(&mut v, own("if"));
    push_str(&mut v, own("else"));
    push_str(&mut v, own("for"));
    push_str(&mut v, own("loop"));
    push_str(&mut v, own("while"));
    push_str(&mut v, own("return"));
    push_str(&mut v, own("break"));
    push_str(&mut v, own("continue"));
    push_str(&mut v, own("import"));
    push_str(&mut v, own("as"));
    push_str(&mut v, own("export"));
    assert(strs_view(v@) =~= rhai_keyword_names());
    v
}

fn is_word_char(c: char) -> (r: bool)
    ensures
        r == word_char(c),
{
    is_alphanumeric(c) || c == '_'
}

fn is_number_char(c: char) -> (r: bool)
    ensures
        r == number_char(c),
{
    is_numeric(c) || c == '.'
}

/// End of the longest run from `from` of characters other than a line break.
fn line_end(s: &Vec<char>, from: usize) -> (e: usize)
    requires
        from <= s.len(),
    ensures
        run_ends(s@, from as int, e as int, |c: char| c != '\n'),
{
    let mut e = from;
    while e < s.len() && s[e] != '\n'
        invariant
            from <= e <= s.len(),
            forall|m: int| from <= m < e ==> #[trigger] s@[m] != '\n',
        decreases s.len() - e,
    {
        e += 1;
    }
    e
}

fn word_end(s: &Vec<char>, from: usize) -> (e: usize)
    requires
        from <= s.len(),
    ensures
        run_ends(s@, from as int, e as int, |c: char| word_char(c)),
{
    let mut e = from;
    while e < s.len() && is_word_char(s[e])
        invariant
            from <= e <= s.len(),
            forall|m: int| from <= m < e ==> word_char(#[trigger] s@[m]),
        decreases s.len() - e,
    {
        e += 1;
    }
    e
}

fn number_end(s: &Vec<char>, from: usize) -> (e: usize)
    requires
        from <= s.len(),
    ensures
        run_ends(s@, from as int, e as int, |c: char| number_char(c)),
{
    let mut e = from;
    while e < s.len() && is_number_char(s[e])
        invariant
            from <= e <= s.len(),
            forall|m: int| from <= m < e ==> number_char(#[trigger] s@[m]),
        decreases s.len() - e,
    {
        e += 1;
    }
    e
}

fn quote_end(s: &Vec<char>, i: usize) -> (e: usize)
    requires
        i < s.len(),
    ensures
        quote_ends(s@, i as int, e as int),
{
    let q = s[i];
    let mut m = i + 1;
    while m < s.len()
        invariant
            i < m <= s.len(),
            q == s@[i as int],
            forall|k: int| i < k < m ==> #[trigger] s@[k] != q,
        decreases s.len() - m,
    {
        if s[m] == q {
            return m + 1;
        }
        m += 1;
    }
    m
}

/// The token that begins at `i`.
fn next_token(s: &Vec<char>, i: usize, keywords: &Vec<String>, apis: &Vec<String>) -> (t: Token)
    requires
        i < s.len(),
        strs_view(keywords@) == rhai_keyword_names(),
        strs_view(apis@) == browser_api_names(),
    ensures
        t.start == i,
        i < t.end <= s.len(),
        token_spans(s@, i as int, t.end as int, t.kind),
{
    let c = s[i];
    if c == '/' && i + 1 < s.len() && s[i + 1] == '/' {
        let e = line_end(s, i + 1);
        assert(s@[i + 1] != '\n');
        Token { start: i, end: e, kind: TokenKind::Comment }
    } else if c == '"' || c == '`' || c == '\'' {
        let e = quote_end(s, i);
        Token { start: i, end: e, kind: TokenKind::Str }
    } else if is_alphabetic(c) || c == '_' {
        let e = word_end(s, i + 1);
        let w = slice_chars(s, i, e);
        let ws = string_from_chars(&w);
        let kind = if contains_str(keywords, &ws) {
            TokenKind::Keyword
        } else if contains_str(apis, &ws) {
            TokenKind::Api
        } else {
            TokenKind::Word
        };
        Token { start: i, end: e, kind }
    } else if is_numeric(c) {
        let e = number_end(s, i + 1);
        Token { start: i, end: e, kind: TokenKind::Number }
    } else {
        let punct = c == '(' || c == ')' || c == '{' || c == '}' || c == '[' || c == ']' || c == '.'
            || c == ',' || c == ';';
        Token { start: i, end: i + 1, kind: if punct { TokenKind::Punct } else { TokenKind::Other } }
    }
}

/// Cuts a script into coloured tokens.
pub fn highlight_tokens(code: &str) -> (r: Vec<Token>)
    ensures
        tokenizes(code@, r@),
{
    let s = chars_of(code);
    let keywords = rhai_keywords();
    let apis = browser_apis();
    let mut out: Vec<Token> = Vec::new();
    let mut i: usize = 0;
    while i < s.len()
        invariant
            i <= s.len(),
            s@ == code@,
            strs_view(keywords@) == rhai_keyword_names(),
            strs_view(apis@) == browser_api_names(),
            out.len() == 0 <==> i == 0,
            out.len() > 0 ==> out@[0].start == 0 && out@[out.len() - 1].end == i,
            forall|k: int| 0 <= k < out.len() - 1 ==> #[trigger] out@[k].end == out@[k + 1].start,
            forall|k: int|
                0 <= k < out.len() ==> #[trigger] out@[k].start < out@[k].end && token_spans(
                    s@,
                    out@[k].start as int,
                    out@[k].end as int,
                    out@[k].kind,
                ),
        decreases s.len() - i,
    {
        let t = next_token(&s, i, &keywords, &apis);
        i = t.end;
        out.push(t);
    }
    out
}

// ---------------------------------------------------------------------------
// Diagnostic lines
// ---------------------------------------------------------------------------

/// Line breaks in `s[0..idx)`: the (zero-based) line of the character at `idx`.
pub open spec fn newlines_before(s: Seq<char>, idx: int) -> int
    decreases idx,
{
    if idx <= 0 {
        0
    } else {
        newlines_before(s, idx - 1) + (if s[idx - 1] == '\n' { 1int } else { 0int })
    }
}

/// The zero-based line that a diagnostic's (one-based) line names.
pub open spec fn diagnostic_line(l: usize) -> int {
    if l >= 1 {
        l - 1
    } else {
        0
    }
}

/// Some diagnostic names line `line`.
pub open spec fn line_marked(lines: Seq<Option<usize>>, line: int) -> bool {
    exists|k: int| 0 <= k < lines.len() && (#[trigger] lines[k] matches Some(l) && diagnostic_line(l) == line)
}

fn marked(lines: &Vec<Option<usize>>, line: usize) -> (r: bool)
    ensures
        r == line_marked(lines@, line as int),
{
    let mut k: usize = 0;
    while k < lines.len()
        invariant
            k <= lines.len(),
            forall|j: int| 0 <= j < k ==> !(#[trigger] lines@[j] matches Some(l) && diagnostic_line(l) == line),
        decreases lines.len() - k,
    {
        match lines[k] {
            Some(l) => {
                let d = if l >= 1 { l - 1 } else { 0 };
                if d == line {
                    return true;
                }
            },
            None => {},
        }
        k += 1;
    }
    false
}

/// For each character of the code, whether it lies on a line that one of the
/// diagnostics names (given by their one-based line numbers).
pub fn error_marks(code: &str, lines: &Vec<Option<usize>>) -> (r: Vec<bool>)
    ensures
        r.len() == code@.len(),
        forall|idx: int| 0 <= idx < r.len() ==> #[trigger] r@[idx] == line_marked(lines@, newlines_before(code@, idx)),
{
    let s = chars_of(code);
    let mut out: Vec<bool> = Vec::new();
    let mut line: usize = 0;
    let mut i: usize = 0;
    while i < s.len()
        invariant
            i <= s.len(),
            s@ == code@,
            out.len() == i,
            line as int == newlines_before(code@, i as int),
            line <= i,
            forall|idx: int| 0 <= idx < i ==> #[trigger] out@[idx] == line_marked(lines@, newlines_before(code@, idx)),
        decreases s.len() - i,
    {
        out.push(marked(lines, line));
        if s[i] == '\n' {
            line += 1;
        }
        i += 1;
    }
    out
}

} // verus!
