//! The chapter translator: which key it uses, what it asks the model, how it
//! reacts to each reply, and the order in which chapters are taken.
use vstd::prelude::*;
use crate::text::{
    chars_of, concat, concat3, own, replace_seq, str_replace, string_from_chars, trim_chars, trim_seq,
    u64_to_string,
};
use crate::video::{after_last, after_last_chars};

verus! {

/// The client's identity towards the model API.
pub struct GeminiClient {
    pub api_key: String,
}

/// The most replies the translator takes before it gives up on rate limits.
pub const MAX_ATTEMPTS: u32 = 5;

/// The first wait after a rate-limited reply, in seconds.
pub const FIRST_DELAY_SECS: u64 = 5;

impl GeminiClient {
    /// A client with the given key, else the one from the environment.
    pub fn new(api_key: Option<String>, env_key: Option<String>) -> (r: Result<GeminiClient, String>)
        ensures
            match api_key {
                Some(k) => r matches Ok(c) && c.api_key@ == k@,
                None => match env_key {
                    Some(k) => r matches Ok(c) && c.api_key@ == k@,
                    None => r matches Err(m) && m@ == "GEMINI_API_KEY must be set"@,
                },
            },
    {
        match api_key {
            Some(k) => Ok(GeminiClient { api_key: k }),
            None => match env_key {
                Some(k) => Ok(GeminiClient { api_key: k }),
                None => Err(own("GEMINI_API_KEY must be set")),
            },
        }
    }

    /// The endpoint the requests go to, carrying the key.
    pub fn endpoint(&self) -> (r: String)
        ensures
            r@ == "https://generativelanguage.googleapis.com/v1beta/models/gemini-2.0-flash:generateContent?key="@
                + self.api_key@,
    {
        concat(
            "https://generativelanguage.googleapis.com/v1beta/models/gemini-2.0-flash:generateContent?key=",
            self.api_key.as_str(),
        )
    }
}

/// The instruction sent with a chapter.
pub fn localize_prompt(content: &str, context_type: &str) -> (r: String)
    ensures
        r@ == "ROLE: Professional Literary Localizer\nCONTEXT: "@ + context_type@ + "\n\nTEXT:\n"@ + content@,
{
    let head = concat3("ROLE: Professional Literary Localizer\nCONTEXT: ", context_type, "\n\nTEXT:\n");
    concat(head.as_str(), content)
}

// ---------------------------------------------------------------------------
// Replies
// ---------------------------------------------------------------------------

/// Where the translator stands with one chapter: rate-limited replies so far
/// and the next wait.
#[derive(Clone, Copy)]
pub struct RetryState {
    pub attempts: u32,
    pub delay_secs: u64,
}

/// What to do after a reply.
pub enum ReplyAction {
    /// The reply succeeded: read its text.
    ReadText,
    /// Rate-limited: wait this many seconds and ask again.
    Wait(u64),
    /// Stop with this message.
    Fail(String),
}

impl RetryState {
    pub fn start() -> (r: Self)
        ensures
            r.attempts == 0,
            r.delay_secs == FIRST_DELAY_SECS,
    {
        RetryState { attempts: 0, delay_secs: FIRST_DELAY_SECS }
    }
}

/// The translator's reaction to a reply's HTTP status: success is read, a
/// rate limit (429) is waited out with a doubling delay until the fifth one,
/// anything else ends the chapter.
pub fn on_reply(st: &mut RetryState, status: u16) -> (r: ReplyAction)
    requires
        old(st).attempts < MAX_ATTEMPTS,
        old(st).delay_secs <= u64::MAX / 2,
    ensures
        200 <= status < 300 ==> r is ReadText && *final(st) == *old(st),
        status == 429 && old(st).attempts + 1 >= MAX_ATTEMPTS ==> (r matches ReplyAction::Fail(m) && m@
            == "Gemini quota exceeded after 5 retries."@) && final(st).attempts == old(st).attempts + 1,
        status == 429 && old(st).attempts + 1 < MAX_ATTEMPTS ==> r == ReplyAction::Wait(old(st).delay_secs)
            && final(st).attempts == old(st).attempts + 1 && final(st).delay_secs == old(st).delay_secs * 2,
        !(200 <= status < 300) && status != 429 ==> (r matches ReplyAction::Fail(m) && m@
            == "Gemini API non-retryable error"@) && *final(st) == *old(st),
{
    if 200 <= status && status < 300 {
        return ReplyAction::ReadText;
    }
    if status == 429 {
        st.attempts = st.attempts + 1;
        if st.attempts >= MAX_ATTEMPTS {
            return ReplyAction::Fail(own("Gemini quota exceeded after 5 retries."));
        }
        let wait = st.delay_secs;
        st.delay_secs = st.delay_secs * 2;
        return ReplyAction::Wait(wait);
    }
    ReplyAction::Fail(own("Gemini API non-retryable error"))
}

/// The text `serde_json` finds at `candidates[0].content.parts[0].text` of a
/// reply body, when the body is JSON and a string stands there.
pub uninterp spec fn reply_text(body: Seq<char>) -> Option<Seq<char>>;

/// `serde_json::from_str::<serde_json::Value>` and the path
/// `["candidates"][0]["content"]["parts"][0]["text"].as_str()`.
#[verifier::external_body]
fn candidate_text(body: &str) -> (r: Option<String>)
    ensures
        match r {
            Some(t) => reply_text(body@) == Some(t@),
            None => reply_text(body@) is None,
        },
{
    let v: serde_json::Value = serde_json::from_str(body).ok()?;
    v["candidates"][0]["content"]["parts"][0]["text"].as_str().map(|t| t.to_string())
}

/// The translation in a successful reply: the candidate's text, trimmed.
pub fn read_translation(body: &str) -> (r: Result<String, String>)
    ensures
        match reply_text(body@) {
            Some(t) => r matches Ok(x) && x@ == trim_seq(t, None),
            None => r matches Err(m) && m@ == "Gemini response parsing failed"@,
        },
{
    match candidate_text(body) {
        Some(t) => {
            let c = chars_of(t.as_str());
            let tc = trim_chars(&c, None);
            Ok(string_from_chars(&tc))
        },
        None => Err(own("Gemini response parsing failed")),
    }
}

// ---------------------------------------------------------------------------
// Chapters
// ---------------------------------------------------------------------------

/// Where the last dot of a file name stands, when something precedes it
/// (`Path::extension` has an extension exactly then).
pub open spec fn ext_dot(name: Seq<char>, p: int) -> bool {
    &&& 0 < p < name.len()
    &&& name[p] == '.'
    &&& forall|k: int| p < k < name.len() ==> #[trigger] name[k] != '.'
}

/// The chapter files are those with the extension `txt`.
pub open spec fn is_txt_name(name: Seq<char>) -> bool {
    name != ".."@ && exists|p: int| ext_dot(name, p) && name.subrange(p + 1, name.len() as int) == "txt"@
}

fn last_dot(name: &Vec<char>) -> (r: Option<usize>)
    ensures
        match r {
            Some(p) => p < name.len() && name@[p as int] == '.' && forall|k: int|
                p < k < name.len() ==> #[trigger] name@[k] != '.',
            None => forall|k: int| 0 <= k < name.len() ==> #[trigger] name@[k] != '.',
        },
{
    let mut j = name.len();
    while j > 0
        invariant
            j <= name.len(),
            forall|k: int| j <= k < name.len() ==> #[trigger] name@[k] != '.',
        decreases j,
    {
        if name[j - 1] == '.' {
            return Some(j - 1);
        }
        j -= 1;
    }
    None
}

/// Whether a directory entry is a chapter to translate.
pub fn is_txt_file(name: &str) -> (r: bool)
    ensures
        r == is_txt_name(name@),
{
    proof {
        reveal_strlit("..");
        reveal_strlit("txt");
    }
    let c = chars_of(name);
    let dots = c.len() == 2 && c[0] == '.' && c[1] == '.';
    assert(dots == (name@ == ".."@)) by {
        if name@ == ".."@ {
            assert(c@.len() == 2 && c@[0] == '.' && c@[1] == '.');
        }
        if dots {
            assert(c@ =~= ".."@);
        }
    }
    if dots {
        return false;
    }
    match last_dot(&c) {
        None => {
            assert forall|q: int| !ext_dot(name@, q) by {
                if ext_dot(name@, q) {
                    assert(name@[q] == '.');
                }
            }
            false
        },
        Some(p) => {
            assert forall|q: int| ext_dot(name@, q) implies q == p by {
                if q < p {
                    assert(name@[p as int] == '.');
                }
                if q > p {
                    assert(name@[q] == '.');
                }
            }
            if p == 0 {
                return false;
            }
            assert(ext_dot(name@, p as int));
            let ok = c.len() - p == 4 && c[p + 1] == 't' && c[p + 2] == 'x' && c[p + 3] == 't';
            let ghost tail = name@.subrange(p + 1, name@.len() as int);
            if ok {
                assert(tail =~= "txt"@);
            } else {
                assert(tail != "txt"@) by {
                    if tail == "txt"@ {
                        assert(tail.len() == 3);
                        assert(tail[0] == 't' && tail[1] == 'x' && tail[2] == 't');
                        assert(c@[p + 1] == tail[0]);
                        assert(c@[p + 2] == tail[1]);
                        assert(c@[p + 3] == tail[2]);
                    }
                }
            }
            ok
        },
    }
}

/// The text of a chapter's number: its file name without the extension, and
/// without `chapter_`.
pub fn chapter_number_text(name: &str) -> (r: String)
    ensures
        (name@ == ".."@ || forall|p: int| !ext_dot(name@, p)) ==> r@ == replace_seq(name@, "chapter_"@, Seq::empty()),
        name@ != ".."@ ==> forall|p: int|
            ext_dot(name@, p) ==> r@ == replace_seq(name@.subrange(0, p), "chapter_"@, Seq::empty()),
{
    proof {
        reveal_strlit("chapter_");
        reveal_strlit("");
        reveal_strlit("..");
    }
    let c = chars_of(name);
    let dots = c.len() == 2 && c[0] == '.' && c[1] == '.';
    assert(dots == (name@ == ".."@)) by {
        if name@ == ".."@ {
            assert(c@.len() == 2 && c@[0] == '.' && c@[1] == '.');
        }
        if dots {
            assert(c@ =~= ".."@);
        }
    }
    let stem = match last_dot(&c) {
        Some(p) => {
            if p > 0 && !dots {
                proof {
                    assert(ext_dot(name@, p as int));
                    assert forall|q: int| ext_dot(name@, q) implies q == p by {
                        if q < p {
                            assert(name@[p as int] == '.');
                        }
                        if q > p {
                            assert(name@[q] == '.');
                        }
                    }
                }
                crate::editor::slice_chars(&c, 0, p)
            } else {
                proof {
                    assert forall|q: int| !ext_dot(name@, q) || dots by {
                        if ext_dot(name@, q) && !dots {
                            if q < p {
                                assert(name@[p as int] == '.');
                            } else if q > p {
                                assert(name@[q] == '.');
                            }
                        }
                    }
                }
                let all = crate::editor::slice_chars(&c, 0, c.len());
                assert(all@ =~= name@);
                all
            }
        },
        None => {
            let all = crate::editor::slice_chars(&c, 0, c.len());
            assert(all@ =~= name@);
            all
        },
    };
    let s = string_from_chars(&stem);
    assert(""@ =~= Seq::<char>::empty());
    str_replace(s.as_str(), "chapter_", "")
}

/// A key paired with its position, compared first by key, then by position.
pub open spec fn before(keys: Seq<i32>, a: usize, b: usize) -> bool {
    keys[a as int] < keys[b as int] || (keys[a as int] == keys[b as int] && a < b)
}

/// `order` lists positions by increasing key, equal keys in the order they
/// came in (a stable sort).
pub open spec fn sorted_stably(keys: Seq<i32>, order: Seq<usize>) -> bool {
    forall|i: int, j: int| 0 <= i < j < order.len() ==> before(keys, #[trigger] order[i], #[trigger] order[j])
}

/// The order in which chapters are taken: their positions sorted stably by
/// chapter number.
pub fn chapter_order(keys: &Vec<i32>) -> (r: Vec<usize>)
    ensures
        r.len() == keys.len(),
        sorted_stably(keys@, r@),
        forall|i: int| 0 <= i < r.len() ==> #[trigger] r@[i] < keys.len(),
        forall|x: usize| x < keys.len() ==> r@.contains(x),
{
    let mut out: Vec<usize> = Vec::new();
    let mut i: usize = 0;
    while i < keys.len()
        invariant
            i <= keys.len(),
            out.len() == i,
            sorted_stably(keys@, out@),
            forall|k: int| 0 <= k < out.len() ==> #[trigger] out@[k] < i,
            forall|x: usize| x < i ==> out@.contains(x),
        decreases keys.len() - i,
    {
        let mut pos = out.len();
        while pos > 0 && keys[i] < keys[out[pos - 1]]
            invariant
                pos <= out.len(),
                out.len() == i,
                i < keys.len(),
                forall|k: int| 0 <= k < out.len() ==> #[trigger] out@[k] < i,
                forall|k: int| pos <= k < out.len() ==> keys@[i as int] < keys@[#[trigger] out@[k] as int],
            decreases pos,
        {
            pos -= 1;
        }
        let ghost prev = out@;
        out.insert(pos, i);
        proof {
            assert(out@ =~= prev.insert(pos as int, i));
            assert forall|a: int, b: int| 0 <= a < b < out@.len() implies before(
                keys@,
                #[trigger] out@[a],
                #[trigger] out@[b],
            ) by {
                if a < pos && b == pos {
                    assert(keys@[prev[a] as int] <= keys@[i as int] || pos == 0);
                    if pos > 0 {
                        assert(prev[pos - 1] < i);
                        if a < pos - 1 {
                            assert(before(keys@, prev[a], prev[pos - 1]));
                        }
                    }
                } else if a == pos && b > pos {
                    assert(keys@[i as int] < keys@[prev[b - 1] as int]);
                } else if a < pos && b > pos {
                    assert(before(keys@, prev[a], prev[b - 1]));
                } else if a > pos {
                    assert(before(keys@, prev[a - 1], prev[b - 1]));
                } else {
                    assert(before(keys@, prev[a], prev[b]));
                }
            }
            assert forall|x: usize| x < i + 1 implies out@.contains(x) by {
                if x == i {
                    assert(out@[pos as int] == i);
                } else {
                    assert(prev.contains(x));
                    let k = choose|k: int| 0 <= k < prev.len() && prev[k] == x;
                    if k < pos {
                        assert(out@[k] == x);
                    } else {
                        assert(out@[k + 1] == x);
                    }
                }
            }
        }
        i += 1;
    }
    out
}

} // verus!
