//! Filters of the tab panels and the classification of sniffed responses.
use vstd::prelude::*;
use crate::state::{join_path, MediaAsset, NetworkRequest};
use crate::text::{
    chars_of, own, contains_chars, ends_with_chars, seq_contains, seq_ends_with, string_from_chars,
    to_lowercase, trim_chars, trim_start_seq, unicode_lower,
};
use crate::video::{after_last, after_last_chars};

verus! {

// ---------------------------------------------------------------------------
// Sniffed responses
// ---------------------------------------------------------------------------

/// A streaming video response: by MIME type, or by a playlist/segment extension.
pub open spec fn is_video_spec(mime: Seq<char>, url: Seq<char>) -> bool {
    let lm = unicode_lower(mime);
    let lu = unicode_lower(url);
    ||| seq_contains(lm, "video"@) || seq_contains(lm, "mpegurl"@) || seq_contains(lm, "dash+xml"@)
    ||| seq_ends_with(lu, ".m3u8"@) || seq_ends_with(lu, ".ts"@) || seq_ends_with(lu, ".mpd"@)
    ||| seq_ends_with(lu, ".m4s"@)
}

/// A response whose body is captured as a media asset.
pub open spec fn is_sniffable_spec(mime: Seq<char>, url: Seq<char>) -> bool {
    let lm = unicode_lower(mime);
    ||| seq_contains(lm, "image"@) || is_video_spec(mime, url) || seq_contains(lm, "audio"@)
    ||| seq_contains(lm, "font"@) || seq_contains(lm, "style"@) || seq_contains(lm, "script"@)
    ||| seq_ends_with(url, ".svg"@) || seq_ends_with(url, ".css"@) || seq_ends_with(url, ".js"@)
}

/// Audio, images, fonts, styles, scripts and every video response are captured
/// into the media vault: a MIME type that mentions one of these kinds (in any
/// letter case) makes a response sniffable, whatever its URL.
pub proof fn lemma_media_kinds_sniffable(mime: Seq<char>, url: Seq<char>)
    ensures
        seq_contains(unicode_lower(mime), "audio"@) ==> is_sniffable_spec(mime, url),
        seq_contains(unicode_lower(mime), "image"@) ==> is_sniffable_spec(mime, url),
        seq_contains(unicode_lower(mime), "font"@) ==> is_sniffable_spec(mime, url),
        seq_contains(unicode_lower(mime), "style"@) ==> is_sniffable_spec(mime, url),
        seq_contains(unicode_lower(mime), "script"@) ==> is_sniffable_spec(mime, url),
        seq_contains(unicode_lower(mime), "video"@) ==> is_video_spec(mime, url) && is_sniffable_spec(mime, url),
        is_video_spec(mime, url) ==> is_sniffable_spec(mime, url),
        seq_ends_with(url, ".svg"@) || seq_ends_with(url, ".css"@) || seq_ends_with(url, ".js"@) ==> is_sniffable_spec(
            mime,
            url,
        ),
        seq_contains(unicode_lower(mime), "mpegurl"@) || seq_contains(unicode_lower(mime), "dash+xml"@)
            ==> is_video_spec(mime, url),
        seq_ends_with(unicode_lower(url), ".m3u8"@) || seq_ends_with(unicode_lower(url), ".ts"@) || seq_ends_with(
            unicode_lower(url),
            ".mpd"@,
        ) || seq_ends_with(unicode_lower(url), ".m4s"@) ==> is_video_spec(mime, url),
{
}

/// How a finished response is handled.
pub struct MediaClass {
    pub is_video: bool,
    pub sniffable: bool,
    /// A video playlist (not a segment) whose thumbnail is worth taking.
    pub wants_thumbnail: bool,
}

fn mentions(s: &Vec<char>, needle: &str) -> (r: bool)
    ensures
        r == seq_contains(s@, needle@),
{
    let n = chars_of(needle);
    contains_chars(s, &n)
}

fn ends(s: &Vec<char>, suffix: &str) -> (r: bool)
    ensures
        r == seq_ends_with(s@, suffix@),
{
    let n = chars_of(suffix);
    ends_with_chars(s, &n)
}

pub fn classify_media(mime: &str, url: &str) -> (r: MediaClass)
    ensures
        r.is_video == is_video_spec(mime@, url@),
        r.sniffable == is_sniffable_spec(mime@, url@),
        r.wants_thumbnail == (is_video_spec(mime@, url@) && !seq_contains(url@, ".ts"@)
            && !seq_contains(url@, ".m4s"@)),
        seq_contains(unicode_lower(mime@), "audio"@) ==> r.sniffable,
        seq_contains(unicode_lower(mime@), "image"@) ==> r.sniffable,
        seq_contains(unicode_lower(mime@), "font"@) ==> r.sniffable,
        seq_contains(unicode_lower(mime@), "video"@) ==> r.is_video && r.sniffable,
        r.is_video ==> r.sniffable,
{
    let lms = to_lowercase(mime);
    let lus = to_lowercase(url);
    let lm = chars_of(lms.as_str());
    let lu = chars_of(lus.as_str());
    let u = chars_of(url);
    let is_video = mentions(&lm, "video") || mentions(&lm, "mpegurl") || mentions(&lm, "dash+xml")
        || ends(&lu, ".m3u8") || ends(&lu, ".ts") || ends(&lu, ".mpd") || ends(&lu, ".m4s");
    let sniffable = mentions(&lm, "image") || is_video || mentions(&lm, "audio") || mentions(&lm, "font")
        || mentions(&lm, "style") || mentions(&lm, "script") || ends(&u, ".svg") || ends(&u, ".css")
        || ends(&u, ".js");
    let wants_thumbnail = is_video && !mentions(&u, ".ts") && !mentions(&u, ".m4s");
    MediaClass { is_video, sniffable, wants_thumbnail }
}

/// The name of a sniffed asset: the last path segment of its URL.
pub fn asset_name(url: &str) -> (r: String)
    ensures
        r@ == after_last(url@, '/'),
{
    let u = chars_of(url);
    let n = after_last_chars(&u, '/');
    string_from_chars(&n)
}

// ---------------------------------------------------------------------------
// Filters
// ---------------------------------------------------------------------------

/// `tags` holds `tag`.
pub open spec fn tagged(tags: Seq<String>, tag: Seq<char>) -> bool {
    exists|i: int| 0 <= i < tags.len() && tags[i]@ == tag
}

pub fn has_tag(tags: &Vec<String>, tag: &str) -> (r: bool)
    ensures
        r == tagged(tags@, tag@),
{
    let t = String::from_str(tag);
    let mut i: usize = 0;
    while i < tags.len()
        invariant
            i <= tags.len(),
            t@ == tag@,
            forall|k: int| 0 <= k < i ==> tags@[k]@ != tag@,
        decreases tags.len() - i,
    {
        if tags[i] == t {
            return true;
        }
        i += 1;
    }
    false
}

/// The network panel's row filter: URL search (case-insensitive), status class
/// (`ok` = 2xx, `error` = 4xx and above, anything else = all) and resource types.
pub open spec fn request_matches_spec(
    url: Seq<char>,
    status: Option<u16>,
    resource_type: Seq<char>,
    search: Seq<char>,
    status_filter: Seq<char>,
    types: Seq<String>,
) -> bool {
    let s = unicode_lower(search);
    let rt = unicode_lower(resource_type);
    let type_hit = (tagged(types, "XHR"@) && (seq_contains(rt, "xhr"@) || seq_contains(rt, "fetch"@)))
        || (tagged(types, "JS"@) && seq_contains(rt, "script"@))
        || (tagged(types, "CSS"@) && seq_contains(rt, "style"@))
        || (tagged(types, "IMG"@) && seq_contains(rt, "image"@))
        || (tagged(types, "DOC"@) && seq_contains(rt, "document"@));
    &&& s.len() == 0 || seq_contains(unicode_lower(url), s)
    &&& status_filter == "ok"@ ==> (status matches Some(c) && 200 <= c < 300)
    &&& status_filter == "error"@ ==> (status matches Some(c) && c >= 400)
    &&& types.len() == 0 || type_hit || tagged(types, "OTHER"@)
}

pub fn request_matches(req: &NetworkRequest, search: &str, status_filter: &String, types: &Vec<String>) -> (r: bool)
    ensures
        r == request_matches_spec(req.url@, req.status, req.resource_type@, search@, status_filter@, types@),
{
    proof {
        reveal_strlit("ok");
        reveal_strlit("error");
    }
    let ss = to_lowercase(search);
    let s = chars_of(ss.as_str());
    if s.len() > 0 {
        let us = to_lowercase(req.url.as_str());
        let u = chars_of(us.as_str());
        if !contains_chars(&u, &s) {
            return false;
        }
    }
    let ok_word = String::from_str("ok");
    let error_word = String::from_str("error");
    let is_ok = *status_filter == ok_word;
    let is_error = *status_filter == error_word;
    assert(is_error == (status_filter@ == "error"@));
    assert("ok"@.len() != "error"@.len());
    assert(is_ok ==> !is_error);
    if is_ok {
        let ok = match req.status {
            Some(c) => 200 <= c && c < 300,
            None => false,
        };
        if !ok {
            return false;
        }
    } else if is_error {
        let bad = match req.status {
            Some(c) => c >= 400,
            None => false,
        };
        if !bad {
            return false;
        }
    }
    if types.len() > 0 {
        let rts = to_lowercase(req.resource_type.as_str());
        let rt = chars_of(rts.as_str());
        let mut hit = false;
        if has_tag(types, "XHR") && (mentions(&rt, "xhr") || mentions(&rt, "fetch")) {
            hit = true;
        }
        if has_tag(types, "JS") && mentions(&rt, "script") {
            hit = true;
        }
        if has_tag(types, "CSS") && mentions(&rt, "style") {
            hit = true;
        }
        if has_tag(types, "IMG") && mentions(&rt, "image") {
            hit = true;
        }
        if has_tag(types, "DOC") && mentions(&rt, "document") {
            hit = true;
        }
        if has_tag(types, "OTHER") && !hit {
            hit = true;
        }
        if !hit {
            return false;
        }
    }
    true
}

/// The media vault's card filter: search in URL or name (case-insensitive), a minimum
/// size in KiB, and media kinds.
pub open spec fn asset_matches_spec(
    name: Seq<char>,
    url: Seq<char>,
    mime: Seq<char>,
    size: usize,
    search: Seq<char>,
    min_size_kb: usize,
    types: Seq<String>,
) -> bool {
    let s = unicode_lower(search);
    let mt = unicode_lower(mime);
    let lu = unicode_lower(url);
    let kind_hit = (tagged(types, "IMAGE"@) && (seq_contains(mt, "image"@) || seq_ends_with(url, ".svg"@)))
        || (tagged(types, "VIDEO"@) && (seq_contains(mt, "video"@) || seq_contains(mt, "mpegurl"@)
            || seq_contains(mt, "dash+xml"@) || seq_ends_with(lu, ".m3u8"@) || seq_ends_with(lu, ".ts"@)
            || seq_ends_with(lu, ".mpd"@) || seq_ends_with(lu, ".m4s"@)))
        || (tagged(types, "AUDIO"@) && (seq_contains(mt, "audio"@) || seq_ends_with(url, ".mp3"@)))
        || (tagged(types, "STYLES"@) && (seq_contains(mt, "style"@) || seq_ends_with(url, ".css"@)))
        || (tagged(types, "SCRIPTS"@) && (seq_contains(mt, "script"@) || seq_ends_with(url, ".js"@)))
        || (tagged(types, "FONTS"@) && seq_contains(mt, "font"@));
    &&& s.len() == 0 || seq_contains(lu, s) || seq_contains(unicode_lower(name), s)
    &&& min_size_kb == 0 || size >= min_size_kb * 1024
    &&& types.len() == 0 || kind_hit
}

pub fn asset_matches(asset: &MediaAsset, search: &str, min_size_kb: usize, types: &Vec<String>) -> (r: bool)
    requires
        min_size_kb * 1024 <= usize::MAX,
    ensures
        r == asset_matches_spec(asset.name@, asset.url@, asset.mime_type@, asset.size_bytes, search@,
            min_size_kb, types@),
{
    let ss = to_lowercase(search);
    let s = chars_of(ss.as_str());
    let lus = to_lowercase(asset.url.as_str());
    let lu = chars_of(lus.as_str());
    if s.len() > 0 {
        let lns = to_lowercase(asset.name.as_str());
        let ln = chars_of(lns.as_str());
        if !contains_chars(&lu, &s) && !contains_chars(&ln, &s) {
            return false;
        }
    }
    if min_size_kb > 0 && asset.size_bytes < min_size_kb * 1024 {
        return false;
    }
    if types.len() > 0 {
        let mts = to_lowercase(asset.mime_type.as_str());
        let mt = chars_of(mts.as_str());
        let u = chars_of(asset.url.as_str());
        let mut hit = false;
        if has_tag(types, "IMAGE") && (mentions(&mt, "image") || ends(&u, ".svg")) {
            hit = true;
        }
        if has_tag(types, "VIDEO") && (mentions(&mt, "video") || mentions(&mt, "mpegurl") || mentions(&mt, "dash+xml")
            || ends(&lu, ".m3u8") || ends(&lu, ".ts") || ends(&lu, ".mpd") || ends(&lu, ".m4s")) {
            hit = true;
        }
        if has_tag(types, "AUDIO") && (mentions(&mt, "audio") || ends(&u, ".mp3")) {
            hit = true;
        }
        if has_tag(types, "STYLES") && (mentions(&mt, "style") || ends(&u, ".css")) {
            hit = true;
        }
        if has_tag(types, "SCRIPTS") && (mentions(&mt, "script") || ends(&u, ".js")) {
            hit = true;
        }
        if has_tag(types, "FONTS") && mentions(&mt, "font") {
            hit = true;
        }
        if !hit {
            return false;
        }
    }
    true
}

/// The cookie manager shows a cookie when the tab has no domain, or when one of the
/// tab's domain and the cookie's domain (leading dots dropped) contains the other.
pub open spec fn cookie_visible_spec(target_domain: Seq<char>, cookie_domain: Seq<char>) -> bool {
    let c = trim_start_seq(cookie_domain, Some('.'));
    target_domain.len() == 0 || seq_contains(target_domain, c) || seq_contains(c, target_domain)
}

pub fn cookie_visible(target_domain: &str, cookie_domain: &str) -> (r: bool)
    ensures
        r == cookie_visible_spec(target_domain@, cookie_domain@),
{
    let t = chars_of(target_domain);
    if t.len() == 0 {
        return true;
    }
    let cd = chars_of(cookie_domain);
    let c = trim_leading(&cd, '.');
    contains_chars(&t, &c) || contains_chars(&c, &t)
}

fn trim_leading(s: &Vec<char>, ch: char) -> (r: Vec<char>)
    ensures
        r@ == trim_start_seq(s@, Some(ch)),
{
    let mut a: usize = 0;
    assert(s@.skip(0) =~= s@);
    while a < s.len() && s[a] == ch
        invariant
            a <= s.len(),
            trim_start_seq(s@, Some(ch)) == trim_start_seq(s@.skip(a as int), Some(ch)),
        decreases s.len() - a,
    {
        assert(s@.skip(a as int).drop_first() =~= s@.skip(a + 1));
        a += 1;
    }
    let mut out: Vec<char> = Vec::new();
    let mut k: usize = a;
    while k < s.len()
        invariant
            a <= k <= s.len(),
            out@ == s@.subrange(a as int, k as int),
        decreases s.len() - k,
    {
        out.push(s[k]);
        k += 1;
        assert(out@ =~= s@.subrange(a as int, k as int));
    }
    assert(out@ =~= s@.skip(a as int));
    out
}

/// The selector picker's list: every discovered selector when the search is empty,
/// else those that contain it, ignoring case; in order.
pub open spec fn selector_shown(s: Seq<char>, search: Seq<char>) -> bool {
    unicode_lower(search).len() == 0 || seq_contains(unicode_lower(s), unicode_lower(search))
}

pub fn filter_selectors(discovered: &Vec<String>, search: &str) -> (r: Vec<String>)
    ensures
        r@.map_values(|s: String| s@) == crate::browser::keep(
            discovered@.map_values(|s: String| s@),
            |s: Seq<char>| selector_shown(s, search@),
        ),
{
    let ghost all = discovered@.map_values(|s: String| s@);
    let ghost p = |s: Seq<char>| selector_shown(s, search@);
    let fs = to_lowercase(search);
    let f = chars_of(fs.as_str());
    let mut out: Vec<String> = Vec::new();
    let mut i: usize = 0;
    while i < discovered.len()
        invariant
            i <= discovered.len(),
            all == discovered@.map_values(|s: String| s@),
            p == (|s: Seq<char>| selector_shown(s, search@)),
            f@ == unicode_lower(search@),
            out@.map_values(|s: String| s@) == crate::browser::keep(all.take(i as int), p),
        decreases discovered.len() - i,
    {
        assert(all.take(i + 1).drop_last() =~= all.take(i as int));
        assert(all.take(i + 1).last() == discovered@[i as int]@);
        let ls = to_lowercase(discovered[i].as_str());
        let l = chars_of(ls.as_str());
        if f.len() == 0 || contains_chars(&l, &f) {
            let ghost before = out@.map_values(|s: String| s@);
            out.push(discovered[i].clone());
            assert(out@.map_values(|s: String| s@) =~= before.push(discovered@[i as int]@));
        }
        i += 1;
    }
    assert(all.take(discovered.len() as int) =~= all);
    out
}


// ---------------------------------------------------------------------------
// Operations deck
// ---------------------------------------------------------------------------

/// The profile a launch uses: the isolated one below the output folder, or
/// the configured system profile.
pub fn launch_profile(use_custom_profile: bool, output_dir: &str, chrome_profile_path: &str) -> (r: String)
    ensures
        use_custom_profile ==> r@ == join_path(join_path(output_dir@, "profiles"@), "isolated"@),
        !use_custom_profile ==> r@ == chrome_profile_path@,
{
    if use_custom_profile {
        let a = join_dir(output_dir, "profiles");
        join_dir(a.as_str(), "isolated")
    } else {
        own(chrome_profile_path)
    }
}

/// `PathBuf::push` of a relative name.
pub fn join_dir(base: &str, name: &str) -> (r: String)
    ensures
        r@ == join_path(base@, name@),
{
    proof {
        reveal_strlit("/");
    }
    let b = chars_of(base);
    let mut out = own(base);
    if b.len() > 0 && b[b.len() - 1] != '/' {
        out.append("/");
    }
    out.append(name);
    out
}

/// The first eight characters of a tab id, shown on its card.
pub fn short_tab_id(id: &str) -> (r: String)
    ensures
        r@ == id@.take(if id@.len() < 8 { id@.len() as int } else { 8 }),
{
    let c = chars_of(id);
    let n = if c.len() < 8 { c.len() } else { 8 };
    let t = crate::editor::slice_chars(&c, 0, n);
    string_from_chars(&t)
}


// ---------------------------------------------------------------------------
// Media vault order
// ---------------------------------------------------------------------------

/// Compares two texts character by character (as `Ord` on `String` does):
/// negative, zero or positive.
pub open spec fn lex_order(a: Seq<char>, b: Seq<char>) -> int
    decreases a.len(),
{
    if a.len() == 0 {
        if b.len() == 0 { 0 } else { -1 }
    } else if b.len() == 0 {
        1
    } else if (a[0] as u32) < (b[0] as u32) {
        -1
    } else if (a[0] as u32) > (b[0] as u32) {
        1
    } else {
        lex_order(a.drop_first(), b.drop_first())
    }
}

proof fn lemma_lex_order_antisym(a: Seq<char>, b: Seq<char>)
    ensures
        lex_order(a, b) == -lex_order(b, a),
        -1 <= lex_order(a, b) <= 1,
    decreases a.len(),
{
    if a.len() > 0 && b.len() > 0 {
        vstd::utf8::char_u32_cast(a[0], a[0] as u32);
        vstd::utf8::char_u32_cast(b[0], b[0] as u32);
        if a[0] == b[0] {
            lemma_lex_order_antisym(a.drop_first(), b.drop_first());
        }
    }
}

fn lex_compare(a: &Vec<char>, b: &Vec<char>) -> (r: i8)
    ensures
        r as int == lex_order(a@, b@),
{
    let mut i: usize = 0;
    assert(a@.skip(0) =~= a@ && b@.skip(0) =~= b@);
    while i < a.len() && i < b.len() && a[i] == b[i]
        invariant
            i <= a.len(),
            i <= b.len(),
            lex_order(a@, b@) == lex_order(a@.skip(i as int), b@.skip(i as int)),
        decreases a.len() - i,
    {
        assert(a@.skip(i as int).drop_first() =~= a@.skip(i + 1));
        assert(b@.skip(i as int).drop_first() =~= b@.skip(i + 1));
        i += 1;
    }
    assert(a@.skip(i as int).len() == a.len() - i && b@.skip(i as int).len() == b.len() - i);
    if i == a.len() {
        if i == b.len() { 0 } else { -1 }
    } else if i == b.len() {
        1
    } else {
        let x: u32 = a[i] as u32;
        let y: u32 = b[i] as u32;
        proof {
            vstd::utf8::char_u32_cast(a@[i as int], x);
            vstd::utf8::char_u32_cast(b@[i as int], y);
            assert(a@.skip(i as int)[0] == a@[i as int] && b@.skip(i as int)[0] == b@[i as int]);
        }
        if x < y { -1 } else { 1 }
    }
}

/// How the vault compares two assets under a sort column: by lower-cased name,
/// by MIME type, by size, or (for any other column) by exact name.
pub open spec fn asset_order(col: Seq<char>, a: MediaAsset, b: MediaAsset) -> int {
    if col == "name"@ {
        lex_order(unicode_lower(a.name@), unicode_lower(b.name@))
    } else if col == "type"@ {
        lex_order(a.mime_type@, b.mime_type@)
    } else if col == "size"@ {
        if a.size_bytes < b.size_bytes { -1 } else if a.size_bytes > b.size_bytes { 1 } else { 0 }
    } else {
        lex_order(a.name@, b.name@)
    }
}

/// The comparison in the chosen direction.
pub open spec fn vault_order(assets: Seq<MediaAsset>, col: Seq<char>, asc: bool, x: usize, y: usize) -> int {
    let c = asset_order(col, assets[x as int], assets[y as int]);
    if asc { c } else { -c }
}

/// `x` may stand right before `y`: it compares lower, or equal and came first
/// (the sort is stable).
pub open spec fn vault_before(assets: Seq<MediaAsset>, col: Seq<char>, asc: bool, x: usize, y: usize) -> bool {
    vault_order(assets, col, asc, x, y) < 0 || (vault_order(assets, col, asc, x, y) == 0 && x < y)
}

proof fn lemma_vault_antisym(assets: Seq<MediaAsset>, col: Seq<char>, asc: bool, x: usize, y: usize)
    requires
        x < assets.len(),
        y < assets.len(),
    ensures
        vault_order(assets, col, asc, x, y) == -vault_order(assets, col, asc, y, x),
{
    let a = assets[x as int];
    let b = assets[y as int];
    lemma_lex_order_antisym(unicode_lower(a.name@), unicode_lower(b.name@));
    lemma_lex_order_antisym(a.mime_type@, b.mime_type@);
    lemma_lex_order_antisym(a.name@, b.name@);
}

/// The order the media vault shows assets in: positions of `assets`, each
/// once, every one not after the next under the sort column and direction,
/// equal assets in the order they came in.
pub fn media_order(assets: &Vec<MediaAsset>, sort_col: &str, asc: bool) -> (r: Vec<usize>)
    ensures
        r.len() == assets.len(),
        forall|i: int| 0 <= i < r.len() ==> #[trigger] r@[i] < assets.len(),
        forall|x: usize| x < assets.len() ==> r@.contains(x),
        forall|j: int| 0 <= j < r.len() - 1 ==> vault_before(assets@, sort_col@, asc, #[trigger] r@[j], r@[j + 1]),
{
    proof {
        reveal_strlit("name");
        reveal_strlit("type");
        reveal_strlit("size");
    }
    let col = own(sort_col);
    let by_name = col == own("name");
    let by_type = col == own("type");
    let by_size = col == own("size");
    let mut keys: Vec<Vec<char>> = Vec::new();
    let mut m: usize = 0;
    while m < assets.len()
        invariant
            m <= assets.len(),
            keys.len() == m,
            col@ == sort_col@,
            by_name == (sort_col@ == "name"@),
            by_type == (sort_col@ == "type"@),
            forall|k: int| 0 <= k < m ==> (#[trigger] keys@[k])@ == (if by_name {
                unicode_lower(assets@[k].name@)
            } else if by_type {
                assets@[k].mime_type@
            } else {
                assets@[k].name@
            }),
        decreases assets.len() - m,
    {
        let key = if by_name {
            let l = to_lowercase(assets[m].name.as_str());
            chars_of(l.as_str())
        } else if by_type {
            chars_of(assets[m].mime_type.as_str())
        } else {
            chars_of(assets[m].name.as_str())
        };
        keys.push(key);
        m += 1;
    }
    let mut out: Vec<usize> = Vec::new();
    let mut i: usize = 0;
    while i < assets.len()
        invariant
            i <= assets.len(),
            out.len() == i,
            keys.len() == assets.len(),
            by_name == (sort_col@ == "name"@),
            by_type == (sort_col@ == "type"@),
            by_size == (sort_col@ == "size"@),
            forall|k: int| 0 <= k < assets.len() ==> (#[trigger] keys@[k])@ == (if by_name {
                unicode_lower(assets@[k].name@)
            } else if by_type {
                assets@[k].mime_type@
            } else {
                assets@[k].name@
            }),
            forall|k: int| 0 <= k < out.len() ==> #[trigger] out@[k] < i,
            forall|x: usize| x < i ==> out@.contains(x),
            forall|j: int| 0 <= j < out.len() - 1 ==> vault_before(assets@, sort_col@, asc, #[trigger] out@[j], out@[j + 1]),
        decreases assets.len() - i,
    {
        let mut pos: usize = out.len();
        loop
            invariant
                pos <= out.len(),
                out.len() == i,
                i < assets.len(),
                keys.len() == assets.len(),
                by_name == (sort_col@ == "name"@),
                by_type == (sort_col@ == "type"@),
                by_size == (sort_col@ == "size"@),
                forall|k: int| 0 <= k < assets.len() ==> (#[trigger] keys@[k])@ == (if by_name {
                    unicode_lower(assets@[k].name@)
                } else if by_type {
                    assets@[k].mime_type@
                } else {
                    assets@[k].name@
                }),
                forall|k: int| 0 <= k < out.len() ==> #[trigger] out@[k] < i,
                pos < out.len() ==> vault_order(assets@, sort_col@, asc, i, out@[pos as int]) < 0,
            ensures
                pos <= out.len(),
                pos < out.len() ==> vault_order(assets@, sort_col@, asc, i, out@[pos as int]) < 0,
                pos > 0 ==> vault_order(assets@, sort_col@, asc, i, out@[pos - 1]) >= 0,
            decreases pos,
        {
            if pos == 0 {
                break;
            }
            let y: usize = out[pos - 1];
            let c: i8 = if by_size {
                if assets[i].size_bytes < assets[y].size_bytes {
                    -1
                } else if assets[i].size_bytes > assets[y].size_bytes {
                    1
                } else {
                    0
                }
            } else {
                lex_compare(&keys[i], &keys[y])
            };
            proof {
                reveal_strlit("name");
                reveal_strlit("type");
                reveal_strlit("size");
                assert(keys@[i as int]@ == (if by_name {
                    unicode_lower(assets@[i as int].name@)
                } else if by_type {
                    assets@[i as int].mime_type@
                } else {
                    assets@[i as int].name@
                }));
                assert(keys@[y as int]@ == (if by_name {
                    unicode_lower(assets@[y as int].name@)
                } else if by_type {
                    assets@[y as int].mime_type@
                } else {
                    assets@[y as int].name@
                }));
                lemma_lex_order_antisym(keys@[i as int]@, keys@[y as int]@);
            }
            proof {
                reveal_strlit("name");
                reveal_strlit("type");
                reveal_strlit("size");
                if by_size {
                    assert("size"@ != "name"@ && "size"@ != "type"@) by {
                        assert("size"@[0] != "name"@[0]);
                        assert("size"@[0] != "type"@[0]);
                    }
                    assert(c as int == asset_order(sort_col@, assets@[i as int], assets@[y as int]));
                } else if by_name {
                    assert(c as int == lex_order(keys@[i as int]@, keys@[y as int]@));
                    assert(c as int == asset_order(sort_col@, assets@[i as int], assets@[y as int]));
                } else if by_type {
                    assert(c as int == asset_order(sort_col@, assets@[i as int], assets@[y as int]));
                } else {
                    assert(c as int == asset_order(sort_col@, assets@[i as int], assets@[y as int]));
                }
            }
            let d: i8 = if asc { c } else { -c };
            assert(d as int == vault_order(assets@, sort_col@, asc, i, y));
            if d >= 0 {
                break;
            }
            pos -= 1;
        }
        let ghost prev = out@;
        out.insert(pos, i);
        proof {
            assert(out@ =~= prev.insert(pos as int, i));
            if pos > 0 {
                lemma_vault_antisym(assets@, sort_col@, asc, prev[pos - 1], i);
                assert(prev[pos - 1] < i);
            }
            assert forall|j: int| 0 <= j < out.len() - 1 implies vault_before(
                assets@,
                sort_col@,
                asc,
                #[trigger] out@[j],
                out@[j + 1],
            ) by {
                if j < pos as int - 1 {
                    assert(out@[j] == prev[j] && out@[j + 1] == prev[j + 1]);
                } else if j == pos as int - 1 {
                    assert(out@[j] == prev[j] && out@[j + 1] == i);
                } else if j == pos as int {
                    assert(out@[j] == i && out@[j + 1] == prev[j]);
                } else {
                    assert(out@[j] == prev[j - 1] && out@[j + 1] == prev[j]);
                    assert(vault_before(assets@, sort_col@, asc, prev[j - 1], prev[j]));
                }
            }
            assert forall|x: usize| x < i + 1 implies out@.contains(x) by {
                if x == i {
                    assert(out@[pos as int] == i);
                } else {
                    assert(prev.contains(x));
                    let k: int = choose|k: int| 0 <= k < prev.len() && prev[k] == x;
                    if k < pos {
                        assert(out@[k] == x);
                    } else {
                        assert(out@[k + 1] == x);
                    }
                }
            }
        }
        i += 1;
    }
    out
}

} // verus!
