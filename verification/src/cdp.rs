//! Page-side JavaScript that the CDP driver runs, and the decoding of its results.
use vstd::prelude::*;
use crate::text::{
    chars_of, concat, concat3, own, replace_chars, replace_seq, string_from_chars, trim_chars,
    trim_seq,
};

verus! {

/// How one character is written inside a single-quoted JavaScript string:
/// backslashes, quotes and line breaks are escaped, the rest kept.
pub open spec fn js_char_escape(c: char) -> Seq<char> {
    if c == '\\' {
        seq!['\\', '\\']
    } else if c == '\'' {
        seq!['\\', '\'']
    } else if c == '"' {
        seq!['\\', '"']
    } else if c == '\n' {
        seq!['\\', 'n']
    } else if c == '\r' {
        seq!['\\', 'r']
    } else if c == '\u{2028}' {
        seq!['\\', 'u', '2', '0', '2', '8']
    } else if c == '\u{2029}' {
        seq!['\\', 'u', '2', '0', '2', '9']
    } else {
        seq![c]
    }
}

/// A text escaped for a single-quoted JavaScript string literal, character by
/// character: the literal's value is the text itself, and no quote or line
/// break can end it early.
pub open spec fn js_escape(s: Seq<char>) -> Seq<char>
    decreases s.len(),
{
    if s.len() == 0 {
        Seq::empty()
    } else {
        js_escape(s.drop_last()) + js_char_escape(s.last())
    }
}

fn push_escaped(out: &mut Vec<char>, c: char)
    ensures
        final(out)@ == old(out)@ + js_char_escape(c),
{
    if c == '\\' {
        out.push('\\');
        out.push('\\');
    } else if c == '\'' {
        out.push('\\');
        out.push('\'');
    } else if c == '"' {
        out.push('\\');
        out.push('"');
    } else if c == '\n' {
        out.push('\\');
        out.push('n');
    } else if c == '\r' {
        out.push('\\');
        out.push('r');
    } else if c == '\u{2028}' || c == '\u{2029}' {
        out.push('\\');
        out.push('u');
        out.push('2');
        out.push('0');
        out.push('2');
        if c == '\u{2028}' {
            out.push('8');
        } else {
            out.push('9');
        }
    } else {
        out.push(c);
    }
    assert(out@ =~= old(out)@ + js_char_escape(c));
}

pub fn js_escape_str(s: &str) -> (r: String)
    ensures
        r@ == js_escape(s@),
{
    let a = chars_of(s);
    let mut out: Vec<char> = Vec::new();
    let mut i: usize = 0;
    while i < a.len()
        invariant
            i <= a.len(),
            a@ == s@,
            out@ == js_escape(a@.take(i as int)),
        decreases a.len() - i,
    {
        assert(a@.take(i + 1).drop_last() =~= a@.take(i as int));
        push_escaped(&mut out, a[i]);
        i += 1;
    }
    assert(a@.take(a.len() as int) =~= a@);
    string_from_chars(&out)
}

/// The escaped text holds no line break, so the literal it goes into stays on one line.
pub proof fn lemma_js_escape_no_line_breaks(s: Seq<char>)
    ensures
        forall|i: int| 0 <= i < js_escape(s).len() ==> #[trigger] js_escape(s)[i] != '\n' && js_escape(s)[i] != '\r',
    decreases s.len(),
{
    if s.len() > 0 {
        lemma_js_escape_no_line_breaks(s.drop_last());
        let p = js_escape(s.drop_last());
        let e = js_char_escape(s.last());
        assert forall|i: int| 0 <= i < js_escape(s).len() implies #[trigger] js_escape(s)[i] != '\n' && js_escape(s)[i] != '\r' by {
            if i >= p.len() {
                assert(js_escape(s)[i] == e[i - p.len()]);
            } else {
                assert(js_escape(s)[i] == p[i]);
            }
        }
    }
}

/// The value JavaScript reads from the inside of a single-quoted string
/// literal, for the escapes the escaper writes: `\n`, `\r`, `\u2028`,
/// `\u2029`, and a backslash before any other character standing for that
/// character.
pub open spec fn js_unescape(t: Seq<char>) -> Seq<char>
    decreases t.len(),
{
    if t.len() == 0 {
        Seq::empty()
    } else if t[0] == '\\' && t.len() >= 2 {
        if t[1] == 'n' {
            seq!['\n'] + js_unescape(t.skip(2))
        } else if t[1] == 'r' {
            seq!['\r'] + js_unescape(t.skip(2))
        } else if t[1] == 'u' && t.len() >= 6 && t.subrange(2, 6) == seq!['2', '0', '2', '8'] {
            seq!['\u{2028}'] + js_unescape(t.skip(6))
        } else if t[1] == 'u' && t.len() >= 6 && t.subrange(2, 6) == seq!['2', '0', '2', '9'] {
            seq!['\u{2029}'] + js_unescape(t.skip(6))
        } else {
            seq![t[1]] + js_unescape(t.skip(2))
        }
    } else {
        seq![t[0]] + js_unescape(t.skip(1))
    }
}

proof fn lemma_unescape_char(c: char, rest: Seq<char>)
    ensures
        js_unescape(js_char_escape(c) + rest) == seq![c] + js_unescape(rest),
{
    let e = js_char_escape(c);
    let t = e + rest;
    let k = e.len() as int;
    assert(t.skip(k) =~= rest);
    if c == '\\' || c == '\'' || c == '"' || c == '\n' || c == '\r' {
        assert(t[0] == '\\' && t[1] == e[1]);
        assert(js_unescape(t) == seq![c] + js_unescape(t.skip(2)));
    } else if c == '\u{2028}' || c == '\u{2029}' {
        assert(t[0] == '\\' && t[1] == 'u');
        assert(t.subrange(2, 6) =~= e.subrange(2, 6));
        if c == '\u{2028}' {
            assert(t.subrange(2, 6) =~= seq!['2', '0', '2', '8']);
        } else {
            assert(t.subrange(2, 6) =~= seq!['2', '0', '2', '9']);
            assert(t.subrange(2, 6) != seq!['2', '0', '2', '8']) by {
                assert(t.subrange(2, 6)[3] != seq!['2', '0', '2', '8'][3]);
            }
        }
        assert(js_unescape(t) == seq![c] + js_unescape(t.skip(6)));
    } else {
        assert(t[0] == c);
        assert(js_unescape(t) == seq![c] + js_unescape(t.skip(1)));
    }
}

proof fn lemma_js_escape_front(s: Seq<char>)
    requires
        s.len() > 0,
    ensures
        js_escape(s) == js_char_escape(s[0]) + js_escape(s.drop_first()),
    decreases s.len(),
{
    if s.len() == 1 {
        assert(s.drop_last().len() == 0);
        assert(s.drop_first().len() == 0);
        assert(s.last() == s[0]);
        assert(js_escape(s.drop_last()) =~= Seq::<char>::empty());
        assert(js_escape(s.drop_first()) =~= Seq::<char>::empty());
        assert(js_escape(s) =~= js_char_escape(s[0]));
        assert(js_char_escape(s[0]) + js_escape(s.drop_first()) =~= js_char_escape(s[0]));
    } else {
        lemma_js_escape_front(s.drop_last());
        assert(s.drop_last()[0] == s[0]);
        assert(s.drop_last().drop_first() =~= s.drop_first().drop_last());
        assert(s.drop_first().last() == s.last());
        assert(js_escape(s.drop_first()) == js_escape(s.drop_first().drop_last()) + js_char_escape(s.last()));
        assert(js_escape(s) =~= js_char_escape(s[0]) + js_escape(s.drop_first()));
    }
}

/// Escaping round-trips: put inside a single-quoted literal, the escaped
/// text reads back as exactly the text.
pub proof fn lemma_js_escape_roundtrip(s: Seq<char>)
    ensures
        js_unescape(js_escape(s)) == s,
    decreases s.len(),
{
    if s.len() > 0 {
        lemma_js_escape_front(s);
        lemma_unescape_char(s[0], js_escape(s.drop_first()));
        lemma_js_escape_roundtrip(s.drop_first());
        assert(seq![s[0]] + s.drop_first() =~= s);
    }
}

/// Escaping text for injection into single-quoted JavaScript strings.
pub trait ToJsString {
    /// The text that is escaped.
    spec fn js_source(&self) -> Seq<char>;

    fn to_js_string(&self) -> (r: String)
        ensures
            r@ == js_escape(self.js_source()),
    ;
}

impl ToJsString for &str {
    open spec fn js_source(&self) -> Seq<char> {
        (*self)@
    }

    fn to_js_string(&self) -> (r: String) {
        js_escape_str(*self)
    }
}

/// Highlights, scrolls to and clicks the element a selector finds.
pub open spec fn click_js_spec(sel: Seq<char>) -> Seq<char> {
    "const el = queryRecursive('"@ + js_escape(sel) + "'); if (!el) throw new Error('Element not found'); el.style.outline = '3px solid #ff00ff'; el.scrollIntoView({behavior: 'instant', block: 'center'}); el.click(); return true;"@
}

pub fn click_js(selector: &str) -> (r: String)
    ensures
        r@ == click_js_spec(selector@),
{
    let s = selector.to_js_string();
    concat3("const el = queryRecursive('", s.as_str(), "'); if (!el) throw new Error('Element not found'); el.style.outline = '3px solid #ff00ff'; el.scrollIntoView({behavior: 'instant', block: 'center'}); el.click(); return true;")
}

/// Highlights and focuses an input, sets its value and fires `input` and `change`.
pub open spec fn type_js_spec(sel: Seq<char>, value: Seq<char>) -> Seq<char> {
    "const el = queryRecursive('"@ + js_escape(sel) + "'); if (!el) throw new Error('Input not found'); el.style.outline = '3px solid #00ffff'; el.scrollIntoView({behavior: 'instant', block: 'center'}); el.focus(); el.value = '"@ + js_escape(value) + "'; el.dispatchEvent(new Event('input', { bubbles: true })); el.dispatchEvent(new Event('change', { bubbles: true })); return true;"@
}

pub fn type_js(selector: &str, value: &str) -> (r: String)
    ensures
        r@ == type_js_spec(selector@, value@),
{
    let s = selector.to_js_string();
    let v = value.to_js_string();
    let a = concat3("const el = queryRecursive('", s.as_str(), "'); if (!el) throw new Error('Input not found'); el.style.outline = '3px solid #00ffff'; el.scrollIntoView({behavior: 'instant', block: 'center'}); el.focus(); el.value = '");
    concat3(a.as_str(), v.as_str(), "'; el.dispatchEvent(new Event('input', { bubbles: true })); el.dispatchEvent(new Event('change', { bubbles: true })); return true;")
}

/// Fires `mouseover` on the element a selector finds.
pub open spec fn hover_js_spec(sel: Seq<char>) -> Seq<char> {
    "const el = queryRecursive('"@ + js_escape(sel) + "'); if (!el) throw new Error('Element not found'); const ev = new MouseEvent('mouseover', { bubbles: true }); el.dispatchEvent(ev); return true;"@
}

pub fn hover_js(selector: &str) -> (r: String)
    ensures
        r@ == hover_js_spec(selector@),
{
    let s = selector.to_js_string();
    concat3("const el = queryRecursive('", s.as_str(), "'); if (!el) throw new Error('Element not found'); const ev = new MouseEvent('mouseover', { bubbles: true }); el.dispatchEvent(ev); return true;")
}

/// The page-side sandbox around a script: a recursive query helper, the script in an
/// async function, and a JSON envelope for its result or error.
pub open spec fn sandbox_head() -> Seq<char> {
    "(() => { \n                \n            const queryRecursive = (selector, root = document) => {\n                const parts = selector.split(' >> ').map(s => s.trim());\n                let current = root;\n                for (const part of parts) {\n                    if (current.contentDocument) current = current.contentDocument;\n                    if (current.shadowRoot) current = current.shadowRoot;\n                    const found = current.querySelector(part);\n                    if (!found) return null;\n                    current = found;\n                }\n                return current;\n            };\n        \n                try { \n                    const result = (async () => { "@
}

pub open spec fn sandbox_tail() -> Seq<char> {
    " })(); \n                    return Promise.resolve(result).then(r => JSON.stringify({ success: true, data: r })); \n                } catch (e) { \n                    return JSON.stringify({ success: false, error: e.message }); \n                } \n            })()"@
}

pub open spec fn sandbox_spec(script: Seq<char>) -> Seq<char> {
    sandbox_head() + script + sandbox_tail()
}

/// Wraps a script in the sandbox.
pub fn sandbox_script(script: &str) -> (r: String)
    ensures
        r@ == sandbox_spec(script@),
{
    concat3("(() => { \n                \n            const queryRecursive = (selector, root = document) => {\n                const parts = selector.split(' >> ').map(s => s.trim());\n                let current = root;\n                for (const part of parts) {\n                    if (current.contentDocument) current = current.contentDocument;\n                    if (current.shadowRoot) current = current.shadowRoot;\n                    const found = current.querySelector(part);\n                    if (!found) return null;\n                    current = found;\n                }\n                return current;\n            };\n        \n                try { \n                    const result = (async () => { ", script, " })(); \n                    return Promise.resolve(result).then(r => JSON.stringify({ success: true, data: r })); \n                } catch (e) { \n                    return JSON.stringify({ success: false, error: e.message }); \n                } \n            })()")
}

/// The fields of the sandbox's JSON envelope: `success` as a boolean, `error` as a
/// string, and `data` rendered back as JSON text; `None` when the text is not JSON.
pub uninterp spec fn json_envelope(raw: Seq<char>) -> Option<(Option<bool>, Option<Seq<char>>, Seq<char>)>;

/// The envelope fields read with `serde_json`.
pub struct EnvelopeFields {
    pub success: Option<bool>,
    pub error: Option<String>,
    pub data: String,
}

/// Parses `raw` as a `serde_json::Value` and reads `success`, `error` and `data` out of it.
#[verifier::external_body]
pub(crate) fn read_envelope(raw: &str) -> (r: Option<EnvelopeFields>)
    ensures
        match r {
            Some(f) => json_envelope(raw@) == Some((
                f.success,
                match f.error { Some(e) => Some(e@), None => None },
                f.data@,
            )),
            None => json_envelope(raw@) is None,
        },
{
    let json = serde_json::from_str::<serde_json::Value>(raw).ok()?;
    Some(EnvelopeFields {
        success: json["success"].as_bool(),
        error: json["error"].as_str().map(|s| s.to_string()),
        data: json["data"].to_string(),
    })
}

/// What an evaluation gives back: the envelope's error as a failure, its data without
/// surrounding double quotes, or the raw text when it is not an envelope.
pub open spec fn sandbox_result_spec(raw: Seq<char>) -> Result<Seq<char>, Seq<char>> {
    match json_envelope(raw) {
        None => Ok(raw),
        Some((success, error, data)) => if success == Some(false) {
            Err("JS Error: "@ + match error {
                Some(e) => e,
                None => "Unknown JS error"@,
            })
        } else {
            Ok(trim_seq(data, Some('"')))
        },
    }
}

/// Decodes the text that an evaluation of a sandboxed script returned.
pub fn decode_sandbox_result(raw: &str) -> (r: Result<String, String>)
    ensures
        match r {
            Ok(s) => sandbox_result_spec(raw@) == Ok::<Seq<char>, Seq<char>>(s@),
            Err(e) => sandbox_result_spec(raw@) == Err::<Seq<char>, Seq<char>>(e@),
        },
{
    match read_envelope(raw) {
        None => Ok(own(raw)),
        Some(f) => {
            let failed = match f.success {
                Some(b) => !b,
                None => false,
            };
            if failed {
                match f.error {
                    Some(e) => Err(concat("JS Error: ", e.as_str())),
                    None => Err(concat("JS Error: ", "Unknown JS error")),
                }
            } else {
                let d = chars_of(f.data.as_str());
                let t = trim_chars(&d, Some('"'));
                Ok(string_from_chars(&t))
            }
        },
    }
}


/// The text that `serde_json` reads out of `raw` as a JSON string, if `raw` is one.
pub uninterp spec fn json_string_value(raw: Seq<char>) -> Option<Seq<char>>;

/// `serde_json::from_str::<String>`.
#[verifier::external_body]
fn json_string(raw: &str) -> (r: Option<String>)
    ensures
        match r {
            Some(v) => json_string_value(raw@) == Some(v@),
            None => json_string_value(raw@) is None,
        },
{
    serde_json::from_str::<String>(raw).ok()
}

/// What `Runtime.evaluate` returned, unquoted where it came back as a JSON
/// string and as it is otherwise.
pub fn decode_js_result(raw: &str) -> (r: String)
    ensures
        r@ == match json_string_value(raw@) {
            Some(v) => v,
            None => raw@,
        },
{
    match json_string(raw) {
        Some(v) => v,
        None => own(raw),
    }
}

} // verus!
