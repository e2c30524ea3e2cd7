//! Naming and argument decisions of the HLS video downloader.
use vstd::prelude::*;
use crate::text::{
    ascii_alnum, chars_of, concat, concat3, contains_chars, is_ascii_alnum, lower_chars,
    lower_seq, own, seq_contains, string_from_chars, trim_chars, trim_seq,
};

verus! {

/// Characters kept in a file name; everything else becomes `_`.
pub open spec fn name_char(c: char) -> char {
    if is_ascii_alnum(c) || c == '-' || c == '_' { c } else { '_' }
}

/// Runs of `_` squeezed to one `_`.
pub open spec fn squeeze_underscores(s: Seq<char>) -> Seq<char>
    decreases s.len(),
{
    if s.len() == 0 {
        s
    } else {
        let p = squeeze_underscores(s.drop_last());
        if s.last() == '_' && p.len() > 0 && p.last() == '_' { p } else { p.push(s.last()) }
    }
}

/// A file-name-safe form of a text: unsafe characters replaced by `_`, runs of `_`
/// squeezed, and leading and trailing `_` removed.
pub open spec fn sanitize_spec(raw: Seq<char>) -> Seq<char> {
    trim_seq(squeeze_underscores(raw.map_values(|c: char| name_char(c))), Some('_'))
}

pub fn sanitize_name(raw: &str) -> (r: String)
    ensures
        r@ == sanitize_spec(raw@),
{
    let cs = chars_of(raw);
    let ghost mapped = raw@.map_values(|c: char| name_char(c));
    let mut out: Vec<char> = Vec::new();
    let mut i: usize = 0;
    while i < cs.len()
        invariant
            i <= cs.len(),
            cs@ == raw@,
            mapped == raw@.map_values(|c: char| name_char(c)),
            out@ == squeeze_underscores(mapped.take(i as int)),
        decreases cs.len() - i,
    {
        let c = cs[i];
        let m = if ascii_alnum(c) || c == '-' || c == '_' { c } else { '_' };
        assert(mapped.take(i + 1).drop_last() =~= mapped.take(i as int));
        assert(mapped.take(i + 1).last() == m);
        if !(m == '_' && out.len() > 0 && out[out.len() - 1] == '_') {
            out.push(m);
        }
        i += 1;
    }
    assert(mapped.take(cs.len() as int) =~= mapped);
    let t = trim_chars(&out, Some('_'));
    string_from_chars(&t)
}

/// The part of `s` before the first `c` (all of `s` without one).
pub open spec fn before_first(s: Seq<char>, c: char) -> Seq<char>
    decreases s.len(),
{
    if s.len() == 0 {
        s
    } else if s[0] == c {
        Seq::empty()
    } else {
        seq![s[0]] + before_first(s.drop_first(), c)
    }
}

/// The part of `s` after the last `c` (all of `s` without one).
pub open spec fn after_last(s: Seq<char>, c: char) -> Seq<char>
    decreases s.len(),
{
    if s.len() == 0 {
        s
    } else if s.last() == c {
        Seq::empty()
    } else {
        after_last(s.drop_last(), c).push(s.last())
    }
}

pub fn before_first_chars(s: &Vec<char>, c: char) -> (r: Vec<char>)
    ensures
        r@ == before_first(s@, c),
{
    let mut i: usize = 0;
    while i < s.len() && s[i] != c
        invariant
            i <= s.len(),
            forall|k: int| 0 <= k < i ==> s@[k] != c,
        decreases s.len() - i,
    {
        i += 1;
    }
    let mut out: Vec<char> = Vec::new();
    let mut k: usize = 0;
    while k < i
        invariant
            k <= i <= s.len(),
            out@ == s@.take(k as int),
        decreases i - k,
    {
        out.push(s[k]);
        k += 1;
        assert(out@ =~= s@.take(k as int));
    }
    proof {
        lemma_before_first_prefix(s@, c, i as int);
    }
    out
}

proof fn lemma_before_first_prefix(s: Seq<char>, c: char, i: int)
    requires
        0 <= i <= s.len(),
        forall|k: int| 0 <= k < i ==> s[k] != c,
        i == s.len() || s[i] == c,
    ensures
        before_first(s, c) == s.take(i),
    decreases s.len(),
{
    if s.len() == 0 {
        assert(s.take(i) =~= s);
    } else if i == 0 {
        assert(s.take(0) =~= Seq::<char>::empty());
    } else {
        lemma_before_first_prefix(s.drop_first(), c, i - 1);
        assert(seq![s[0]] + s.drop_first().take(i - 1) =~= s.take(i));
    }
}

pub fn after_last_chars(s: &Vec<char>, c: char) -> (r: Vec<char>)
    ensures
        r@ == after_last(s@, c),
{
    let mut j: usize = s.len();
    while j > 0 && s[j - 1] != c
        invariant
            j <= s.len(),
            forall|k: int| j <= k < s.len() ==> s@[k] != c,
        decreases j,
    {
        j -= 1;
    }
    let mut out: Vec<char> = Vec::new();
    let mut k: usize = j;
    while k < s.len()
        invariant
            j <= k <= s.len(),
            out@ == s@.subrange(j as int, k as int),
        decreases s.len() - k,
    {
        out.push(s[k]);
        k += 1;
        assert(out@ =~= s@.subrange(j as int, k as int));
    }
    proof {
        lemma_after_last_suffix(s@, c, j as int);
    }
    out
}

proof fn lemma_after_last_suffix(s: Seq<char>, c: char, j: int)
    requires
        0 <= j <= s.len(),
        forall|k: int| j <= k < s.len() ==> s[k] != c,
        j == 0 || s[j - 1] == c,
    ensures
        after_last(s, c) == s.subrange(j, s.len() as int),
    decreases s.len(),
{
    if s.len() == 0 {
        assert(s.subrange(j, 0) =~= s);
    } else if j == s.len() {
        assert(s.subrange(j, s.len() as int) =~= Seq::<char>::empty());
    } else {
        lemma_after_last_suffix(s.drop_last(), c, j);
        assert(s.drop_last().subrange(j, s.len() - 1).push(s.last()) =~= s.subrange(j, s.len() as int));
    }
}

/// The base name of a downloaded video: the preferred name's stem when it has a safe
/// form, else the URL's last path segment without query or extension, else `video`.
pub open spec fn video_name_spec(url: Seq<char>, preferred: Option<Seq<char>>) -> Seq<char> {
    let pref = trim_seq(match preferred { Some(p) => p, None => Seq::empty() }, None);
    let from_pref = sanitize_spec(trim_seq(before_first(pref, '.'), None));
    let from_url = sanitize_spec(before_first(before_first(after_last(url, '/'), '?'), '.'));
    if pref.len() > 0 && from_pref.len() > 0 {
        from_pref
    } else if from_url.len() > 0 {
        from_url
    } else {
        "video"@
    }
}

pub fn derive_video_name(url: &str, preferred_name: Option<&str>) -> (r: String)
    ensures
        r@ == video_name_spec(url@, match preferred_name { Some(p) => Some(p@), None => None }),
{
    let pc: Vec<char> = match preferred_name {
        Some(p) => chars_of(p),
        None => Vec::new(),
    };
    let pt = trim_chars(&pc, None);
    if pt.len() > 0 {
        let stem = before_first_chars(&pt, '.');
        let st = trim_chars(&stem, None);
        let ss = string_from_chars(&st);
        let cleaned = sanitize_name(ss.as_str());
        let cc = chars_of(cleaned.as_str());
        if cc.len() > 0 {
            return cleaned;
        }
    }
    let uc = chars_of(url);
    let seg = after_last_chars(&uc, '/');
    let nq = before_first_chars(&seg, '?');
    let ne = before_first_chars(&nq, '.');
    let fs = string_from_chars(&ne);
    let cleaned = sanitize_name(fs.as_str());
    let cc = chars_of(cleaned.as_str());
    if cc.len() == 0 {
        own("video")
    } else {
        cleaned
    }
}

/// An HLS playlist URL: it contains `.m3u8`, ignoring ASCII case.
pub open spec fn is_hls_spec(url: Seq<char>) -> bool {
    seq_contains(lower_seq(url), ".m3u8"@)
}

pub fn is_hls_url(url: &str) -> (r: bool)
    ensures
        r == is_hls_spec(url@),
{
    let u = chars_of(url);
    let l = lower_chars(&u);
    let n = chars_of(".m3u8");
    contains_chars(&l, &n)
}

/// The file name to save a stream under: `<base>.mp4`, or an error for URLs that are
/// not HLS playlists.
pub open spec fn download_target_spec(url: Seq<char>, preferred: Option<Seq<char>>) -> Result<Seq<char>, Seq<char>> {
    if !is_hls_spec(url) {
        Err("Video downloader currently supports HLS (.m3u8) URLs only"@)
    } else {
        Ok(video_name_spec(url, preferred) + ".mp4"@)
    }
}

pub fn plan_hls_download(hls_url: &str, preferred_name: Option<&str>) -> (r: Result<String, String>)
    ensures
        match r {
            Ok(n) => download_target_spec(hls_url@, match preferred_name { Some(p) => Some(p@), None => None })
                == Ok::<Seq<char>, Seq<char>>(n@),
            Err(e) => download_target_spec(hls_url@, match preferred_name { Some(p) => Some(p@), None => None })
                == Err::<Seq<char>, Seq<char>>(e@),
        },
{
    if !is_hls_url(hls_url) {
        return Err(own("Video downloader currently supports HLS (.m3u8) URLs only"));
    }
    let base = derive_video_name(hls_url, preferred_name);
    Ok(concat(base.as_str(), ".mp4"))
}

/// The name used instead when the target file already exists: `<stem>_<ts>.<ext>`.
pub fn timestamped_name(stem: &str, ts: &str, ext: &str) -> (r: String)
    ensures
        r@ == stem@ + "_"@ + ts@ + "."@ + ext@,
{
    let a = concat3(stem, "_", ts);
    concat3(a.as_str(), ".", ext)
}

/// The ffmpeg arguments that copy an HLS stream into one file.
pub fn ffmpeg_args(hls_url: &str, target: &str) -> (r: Vec<String>)
    ensures
        r@.map_values(|s: String| s@) == seq![
            "-y"@, "-nostdin"@, "-loglevel"@, "error"@, "-protocol_whitelist"@,
            "file,http,https,tcp,tls,crypto"@, "-i"@, hls_url@, "-c"@, "copy"@, "-bsf:a"@,
            "aac_adtstoasc"@, target@,
        ],
{
    let mut v: Vec<String> = Vec::new();
    v.push(own("-y"));
    v.push(own("-nostdin"));
    v.push(own("-loglevel"));
    v.push(own("error"));
    v.push(own("-protocol_whitelist"));
    v.push(own("file,http,https,tcp,tls,crypto"));
    v.push(own("-i"));
    v.push(own(hls_url));
    v.push(own("-c"));
    v.push(own("copy"));
    v.push(own("-bsf:a"));
    v.push(own("aac_adtstoasc"));
    v.push(own(target));
    assert(v@.map_values(|s: String| s@) =~= seq![
        "-y"@, "-nostdin"@, "-loglevel"@, "error"@, "-protocol_whitelist"@,
        "file,http,https,tcp,tls,crypto"@, "-i"@, hls_url@, "-c"@, "copy"@, "-bsf:a"@,
        "aac_adtstoasc"@, target@,
    ]);
    v
}

} // verus!
