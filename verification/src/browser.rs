//! Browser-control decisions: launch arguments, user agents, tab lists, endpoints and
//! the names of capture files.
use vstd::prelude::*;
use crate::script_run::CaptureMode;
use crate::state::ChromeTabInfo;
use crate::dom::{host_of, url_host};
use crate::text::{
    chars_of, concat, concat3, dec_seq, is_alphanumeric, own, replace_seq, string_from_chars,
    trim_chars, trim_seq, u64_to_string, unicode_alnum, strs_view, push_str,
};

verus! {

/// Proxy and identity options of a browser launch.
pub struct BrowserLaunchOptions {
    pub proxy_server: Option<String>,
    pub user_agent: Option<String>,
    pub randomize_user_agent: bool,
    pub randomize_fingerprint: bool,
}

/// The user agents that randomization picks from.
pub open spec fn ua_pool() -> Seq<Seq<char>> {
    seq![
        "Mozilla/5.0 (Windows NT 10.0; Win64; x64) AppleWebKit/537.36 (KHTML, like Gecko) Chrome/137.0.0.0 Safari/537.36"@,
        "Mozilla/5.0 (X11; Linux x86_64) AppleWebKit/537.36 (KHTML, like Gecko) Chrome/136.0.0.0 Safari/537.36"@,
        "Mozilla/5.0 (Macintosh; Intel Mac OS X 13_7) AppleWebKit/605.1.15 (KHTML, like Gecko) Version/18.1 Safari/605.1.15"@,
        "Mozilla/5.0 (Windows NT 10.0; Win64; x64; rv:138.0) Gecko/20100101 Firefox/138.0"@,
    ]
}

fn ua_at(k: u64) -> (r: String)
    requires
        k < 4,
    ensures
        r@ == ua_pool()[k as int],
{
    if k == 0 {
        own("Mozilla/5.0 (Windows NT 10.0; Win64; x64) AppleWebKit/537.36 (KHTML, like Gecko) Chrome/137.0.0.0 Safari/537.36")
    } else if k == 1 {
        own("Mozilla/5.0 (X11; Linux x86_64) AppleWebKit/537.36 (KHTML, like Gecko) Chrome/136.0.0.0 Safari/537.36")
    } else if k == 2 {
        own("Mozilla/5.0 (Macintosh; Intel Mac OS X 13_7) AppleWebKit/605.1.15 (KHTML, like Gecko) Version/18.1 Safari/605.1.15")
    } else {
        own("Mozilla/5.0 (Windows NT 10.0; Win64; x64; rv:138.0) Gecko/20100101 Firefox/138.0")
    }
}

/// A trimmed option text, dropped when blank.
pub open spec fn non_blank(o: Option<Seq<char>>) -> Option<Seq<char>> {
    match o {
        Some(s) => if trim_seq(s, None).len() > 0 { Some(trim_seq(s, None)) } else { None },
        None => None,
    }
}

pub open spec fn opt_view(o: Option<String>) -> Option<Seq<char>> {
    match o {
        Some(s) => Some(s@),
        None => None,
    }
}

fn non_blank_exec(o: &Option<String>) -> (r: Option<String>)
    ensures
        opt_view(r) == non_blank(opt_view(*o)),
{
    match o {
        Some(s) => {
            let c = chars_of(s.as_str());
            let t = trim_chars(&c, None);
            if t.len() > 0 { Some(string_from_chars(&t)) } else { None }
        },
        None => None,
    }
}

/// The user agent of a launch: the custom one (trimmed, unless blank), or with
/// randomization on, the pool entry that the seed selects.
pub open spec fn user_agent_spec(opts_ua: Option<Seq<char>>, randomize: bool, seed: u64) -> Option<Seq<char>> {
    if !randomize {
        non_blank(opts_ua)
    } else {
        Some(ua_pool()[(seed % 4) as int])
    }
}

pub fn pick_user_agent_with_seed(opts: &BrowserLaunchOptions, seed: u64) -> (r: Option<String>)
    ensures
        opt_view(r) == user_agent_spec(opt_view(opts.user_agent), opts.randomize_user_agent, seed),
{
    if !opts.randomize_user_agent {
        return non_blank_exec(&opts.user_agent);
    }
    Some(ua_at(seed % 4))
}

/// Sub-second nanoseconds of the wall clock (`SystemTime::now()` since the epoch).
/// Nothing is promised of the value.
#[verifier::external_body]
pub(crate) fn clock_nanos() -> (r: u64) {
    std::time::SystemTime::now()
        .duration_since(std::time::UNIX_EPOCH)
        .map(|d| d.subsec_nanos() as u64)
        .unwrap_or(0)
}

/// Picks the launch user agent; the random choice is seeded from the clock.
pub fn pick_user_agent(opts: &BrowserLaunchOptions) -> (r: Option<String>)
    ensures
        !opts.randomize_user_agent ==> opt_view(r) == non_blank(opt_view(opts.user_agent)),
        opts.randomize_user_agent ==> (r matches Some(u) && ua_pool().contains(u@)),
{
    let seed = clock_nanos();
    let r = pick_user_agent_with_seed(opts, seed);
    proof {
        if opts.randomize_user_agent {
            assert(ua_pool()[(seed % 4) as int] == ua_pool()[(seed % 4) as int]);
        }
    }
    r
}

/// The window size and language of a randomized fingerprint.
pub open spec fn fingerprint_spec(seed: u32) -> (u32, u32, Seq<char>) {
    ((1280 + seed % 280) as u32, (720 + seed % 180) as u32,
        seq!["en-US"@, "en-GB"@, "tr-TR"@, "de-DE"@][(seed % 4) as int])
}

pub fn fingerprint(seed: u32) -> (r: (u32, u32, String))
    ensures
        (r.0, r.1, r.2@) == fingerprint_spec(seed),
{
    let w = 1280 + seed % 280;
    let h = 720 + seed % 180;
    let k = seed % 4;
    let lang = if k == 0 {
        own("en-US")
    } else if k == 1 {
        own("en-GB")
    } else if k == 2 {
        own("tr-TR")
    } else {
        own("de-DE")
    };
    (w, h, lang)
}

/// The fixed flags of every launch.
pub open spec fn base_flags() -> Seq<Seq<char>> {
    seq![
        "--no-first-run"@, "--no-default-browser-check"@, "--remote-allow-origins=*"@,
        "--password-store=basic"@, "--disable-sync"@, "--disable-background-networking"@,
        "--disable-default-apps"@, "--disable-component-update"@,
        "--disable-domain-reliability"@, "--disable-client-side-phishing-detection"@,
        "--disable-breakpad"@, "--enable-logging"@, "--v=1"@, "--disable-extensions"@,
        "--disable-component-extensions-with-background-pages"@,
        "--disable-features=Translate,OptimizationHints,MediaRouter,DialMediaRouteProvider"@,
        "--metrics-recording-only"@,
    ]
}

/// The sandbox-related flags added on Linux.
pub open spec fn linux_flags() -> Seq<Seq<char>> {
    seq!["--no-sandbox"@, "--disable-setuid-sandbox"@, "--disable-dev-shm-usage"@,
        "--no-zygote"@, "--disable-gpu"@]
}

pub open spec fn when_some(o: Option<Seq<char>>, prefix: Seq<char>) -> Seq<Seq<char>> {
    match o {
        Some(v) => seq![prefix + v],
        None => Seq::empty(),
    }
}

/// The command-line arguments of a browser launch, in order: port and profile, the
/// fixed flags, proxy, user agent, fingerprint flags, the Linux flags, and the URL.
pub open spec fn launch_args_spec(
    url: Seq<char>,
    profile: Seq<char>,
    port: u16,
    proxy: Option<Seq<char>>,
    ua: Option<Seq<char>>,
    fingerprint: Option<(u32, u32, Seq<char>)>,
    linux: bool,
) -> Seq<Seq<char>> {
    seq!["--remote-debugging-port="@ + dec_seq(port as nat), "--user-data-dir="@ + profile]
        + base_flags()
        + when_some(non_blank(proxy), "--proxy-server="@)
        + when_some(ua, "--user-agent="@)
        + match fingerprint {
            Some((w, h, lang)) => seq![
                "--window-size="@ + dec_seq(w as nat) + ","@ + dec_seq(h as nat),
                "--lang="@ + lang,
                "--disable-blink-features=AutomationControlled"@,
            ],
            None => Seq::empty(),
        }
        + if linux { linux_flags() } else { Seq::empty() }
        + seq![url]
}

fn push_base_flags(v: &mut Vec<String>)
    ensures
        strs_view(final(v)@) == strs_view(old(v)@) + base_flags(),
{
    push_str(v, own("--no-first-run"));
    push_str(v, own("--no-default-browser-check"));
    push_str(v, own("--remote-allow-origins=*"));
    push_str(v, own("--password-store=basic"));
    push_str(v, own("--disable-sync"));
    push_str(v, own("--disable-background-networking"));
    push_str(v, own("--disable-default-apps"));
    push_str(v, own("--disable-component-update"));
    push_str(v, own("--disable-domain-reliability"));
    push_str(v, own("--disable-client-side-phishing-detection"));
    push_str(v, own("--disable-breakpad"));
    push_str(v, own("--enable-logging"));
    push_str(v, own("--v=1"));
    push_str(v, own("--disable-extensions"));
    push_str(v, own("--disable-component-extensions-with-background-pages"));
    push_str(v, own("--disable-features=Translate,OptimizationHints,MediaRouter,DialMediaRouteProvider"));
    push_str(v, own("--metrics-recording-only"));
    assert(strs_view(v@) =~= strs_view(old(v)@) + base_flags());
}

fn push_fingerprint_flags(v: &mut Vec<String>, seed: u32)
    ensures
        strs_view(final(v)@) == strs_view(old(v)@) + seq![
            "--window-size="@ + dec_seq(fingerprint_spec(seed).0 as nat) + ","@ + dec_seq(fingerprint_spec(seed).1 as nat),
            "--lang="@ + fingerprint_spec(seed).2,
            "--disable-blink-features=AutomationControlled"@,
        ],
{
    let (w, h, lang) = fingerprint(seed);
    let ws = u64_to_string(w as u64);
    let hs = u64_to_string(h as u64);
    let a = concat3("--window-size=", ws.as_str(), ",");
    push_str(v, concat(a.as_str(), hs.as_str()));
    push_str(v, concat("--lang=", lang.as_str()));
    push_str(v, own("--disable-blink-features=AutomationControlled"));
    assert(strs_view(v@) =~= strs_view(old(v)@) + seq![
        "--window-size="@ + dec_seq(fingerprint_spec(seed).0 as nat) + ","@ + dec_seq(fingerprint_spec(seed).1 as nat),
        "--lang="@ + fingerprint_spec(seed).2,
        "--disable-blink-features=AutomationControlled"@,
    ]);
}

fn push_linux_flags(v: &mut Vec<String>)
    ensures
        strs_view(final(v)@) == strs_view(old(v)@) + linux_flags(),
{
    push_str(v, own("--no-sandbox"));
    push_str(v, own("--disable-setuid-sandbox"));
    push_str(v, own("--disable-dev-shm-usage"));
    push_str(v, own("--no-zygote"));
    push_str(v, own("--disable-gpu"));
    assert(strs_view(v@) =~= strs_view(old(v)@) + linux_flags());
}

/// Builds the browser's command-line arguments. `ua` is the user agent chosen for the
/// launch and `fingerprint_seed` seeds the randomized window size and language.
pub fn launch_args(
    url: &str,
    profile_path: &str,
    port: u16,
    opts: &BrowserLaunchOptions,
    ua: Option<String>,
    fingerprint_seed: u32,
    linux: bool,
) -> (r: Vec<String>)
    ensures
        strs_view(r@) == launch_args_spec(
            url@,
            profile_path@,
            port,
            opt_view(opts.proxy_server),
            opt_view(ua),
            if opts.randomize_fingerprint { Some(fingerprint_spec(fingerprint_seed)) } else { None },
            linux,
        ),
{
    let mut v: Vec<String> = Vec::new();
    let ghost g0 = strs_view(v@);
    let p = u64_to_string(port as u64);
    push_str(&mut v, concat("--remote-debugging-port=", p.as_str()));
    push_str(&mut v, concat("--user-data-dir=", profile_path));
    let ghost g1 = strs_view(v@);
    push_base_flags(&mut v);
    let ghost g2 = strs_view(v@);
    assert(g2 =~= g1 + base_flags());
    match non_blank_exec(&opts.proxy_server) {
        Some(px) => push_str(&mut v, concat("--proxy-server=", px.as_str())),
        None => {},
    }
    let ghost g3 = strs_view(v@);
    assert(g3 =~= g2 + when_some(non_blank(opt_view(opts.proxy_server)), "--proxy-server="@));
    match ua {
        Some(u) => push_str(&mut v, concat("--user-agent=", u.as_str())),
        None => {},
    }
    let ghost g4 = strs_view(v@);
    assert(g4 =~= g3 + when_some(opt_view(ua), "--user-agent="@));
    if opts.randomize_fingerprint {
        push_fingerprint_flags(&mut v, fingerprint_seed);
    }
    let ghost g5 = strs_view(v@);
    assert(g5 =~= g4 + match (if opts.randomize_fingerprint { Some(fingerprint_spec(fingerprint_seed)) } else { None }) {
        Some((w, h, lang)) => seq![
            "--window-size="@ + dec_seq(w as nat) + ","@ + dec_seq(h as nat),
            "--lang="@ + lang,
            "--disable-blink-features=AutomationControlled"@,
        ],
        None => Seq::<Seq<char>>::empty(),
    });
    if linux {
        push_linux_flags(&mut v);
    }
    let ghost g6 = strs_view(v@);
    assert(g6 =~= g5 + if linux { linux_flags() } else { Seq::empty() });
    push_str(&mut v, own(url));
    assert(strs_view(v@) =~= g6 + seq![url@]);
    v
}

// ---------------------------------------------------------------------------
// Tabs and endpoints
// ---------------------------------------------------------------------------

pub open spec fn tab_is_page(t: ChromeTabInfo) -> bool {
    t.tab_type@ == "page"@
}

pub open spec fn tab_is_real_page(t: ChromeTabInfo) -> bool {
    t.tab_type@ == "page"@ && t.url@.len() > 0 && t.url@ != "about:blank"@
}

/// The subsequence of `s` that satisfies `p`.
pub open spec fn keep<A>(s: Seq<A>, p: spec_fn(A) -> bool) -> Seq<A>
    decreases s.len(),
{
    if s.len() == 0 {
        s
    } else {
        let prev = keep(s.drop_last(), p);
        if p(s.last()) { prev.push(s.last()) } else { prev }
    }
}

/// A copy of a tab record.
pub fn copy_tab(t: &ChromeTabInfo) -> (r: ChromeTabInfo)
    ensures
        r == *t,
{
    ChromeTabInfo {
        id: t.id.clone(),
        title: t.title.clone(),
        url: t.url.clone(),
        tab_type: t.tab_type.clone(),
    }
}

/// Whether a target is kept: a page, and with `require_real_url` also one with a
/// non-empty URL other than `about:blank`.
pub open spec fn keeps_tab(t: ChromeTabInfo, require_real_url: bool) -> bool {
    if require_real_url { tab_is_real_page(t) } else { tab_is_page(t) }
}

/// The debugging endpoint's targets that are pages, in order.
pub fn filter_page_tabs(tabs: &Vec<ChromeTabInfo>, require_real_url: bool) -> (r: Vec<ChromeTabInfo>)
    ensures
        r@ == keep(tabs@, |t: ChromeTabInfo| keeps_tab(t, require_real_url)),
{
    let ghost p = |t: ChromeTabInfo| keeps_tab(t, require_real_url);
    let mut out: Vec<ChromeTabInfo> = Vec::new();
    let mut i: usize = 0;
    while i < tabs.len()
        invariant
            i <= tabs.len(),
            p == (|t: ChromeTabInfo| keeps_tab(t, require_real_url)),
            out@ == keep(tabs@.take(i as int), p),
        decreases tabs.len() - i,
    {
        let t = &tabs[i];
        assert(tabs@.take(i + 1).drop_last() =~= tabs@.take(i as int));
        assert(tabs@.take(i + 1).last() == *t);
        let is_page = t.tab_type == own("page");
        let keep_it = if require_real_url {
            let uc = chars_of(t.url.as_str());
            is_page && uc.len() > 0 && !(t.url == own("about:blank"))
        } else {
            is_page
        };
        if keep_it {
            out.push(copy_tab(t));
        }
        i += 1;
    }
    assert(tabs@.take(tabs.len() as int) =~= tabs@);
    out
}

/// `http://127.0.0.1:<port><path>`: the local debugging endpoint.
pub open spec fn endpoint_spec(port: u16, path: Seq<char>) -> Seq<char> {
    "http://127.0.0.1:"@ + dec_seq(port as nat) + path
}

pub fn endpoint(port: u16, path: &str) -> (r: String)
    ensures
        r@ == endpoint_spec(port, path@),
{
    let p = u64_to_string(port as u64);
    concat3("http://127.0.0.1:", p.as_str(), path)
}

/// A byte that the form encoding keeps as it is: `*`, `-`, `.`, `_`, ASCII
/// letters and digits.
pub open spec fn urlencode_keeps(b: u8) -> bool {
    b == 0x2a || b == 0x2d || b == 0x2e || b == 0x5f || (0x30 <= b <= 0x39) || (0x41 <= b <= 0x5a) || (0x61
        <= b <= 0x7a)
}

/// An upper-case hexadecimal digit.
pub open spec fn hex_upper(d: int) -> char {
    if d < 10 {
        (0x30 + d) as char
    } else {
        (0x41 + d - 10) as char
    }
}

/// One byte of the form encoding: kept, a space as `+`, else `%XX`.
pub open spec fn urlencode_byte(b: u8) -> Seq<char> {
    if urlencode_keeps(b) {
        seq![b as char]
    } else if b == 0x20 {
        seq!['+']
    } else {
        seq!['%', hex_upper((b / 16) as int), hex_upper((b % 16) as int)]
    }
}

/// The form encoding of a byte string, byte by byte.
pub open spec fn urlencode_bytes(bs: Seq<u8>) -> Seq<char>
    decreases bs.len(),
{
    if bs.len() == 0 {
        Seq::empty()
    } else {
        urlencode_byte(bs[0]) + urlencode_bytes(bs.drop_first())
    }
}

/// `application/x-www-form-urlencoded` encoding of a text: its UTF-8 bytes,
/// each encoded as `urlencode_byte` says.
pub open spec fn form_urlencoded(s: Seq<char>) -> Seq<char> {
    urlencode_bytes(vstd::utf8::encode_utf8(s))
}

/// `url::form_urlencoded::byte_serialize` over the UTF-8 bytes of `s`, whose
/// pieces (runs of kept bytes, `+` for a space, `%XX` from `percent_encode_byte`
/// for any other byte) are collected into a `String`.
#[verifier::external_body]
pub(crate) fn form_urlencode(s: &str) -> (r: String)
    ensures
        r@ == form_urlencoded(s@),
{
    url::form_urlencoded::byte_serialize(s.as_bytes()).collect::<String>()
}

/// The endpoint that opens a new tab on `url` (a blank page without one).
pub fn new_tab_endpoint(port: u16, url: Option<&str>) -> (r: String)
    ensures
        r@ == endpoint_spec(port, "/json/new?"@ + form_urlencoded(match url {
            Some(u) => u@,
            None => "about:blank"@,
        })),
{
    let target = match url {
        Some(u) => u,
        None => "about:blank",
    };
    let enc = form_urlencode(target);
    let path = concat("/json/new?", enc.as_str());
    endpoint(port, path.as_str())
}

// ---------------------------------------------------------------------------
// Capture file names
// ---------------------------------------------------------------------------

/// The file a page is saved to from its URL path: slashes at either end dropped, every
/// other character that is neither alphanumeric nor `-` turned into `.`, then `.html`
/// (`index.html` for an empty path).
pub open spec fn page_file_spec(path: Seq<char>) -> Seq<char> {
    let clean = trim_seq(path, Some('/')).map_values(
        |c: char| if unicode_alnum(c) || c == '-' { c } else { '.' },
    );
    if clean.len() == 0 { "index.html"@ } else { clean + ".html"@ }
}

pub fn page_file_name(path: &str) -> (r: String)
    ensures
        r@ == page_file_spec(path@),
{
    let cs = chars_of(path);
    let t = trim_chars(&cs, Some('/'));
    let mut out: Vec<char> = Vec::new();
    let mut i: usize = 0;
    while i < t.len()
        invariant
            i <= t.len(),
            out@ == t@.take(i as int).map_values(|c: char| if unicode_alnum(c) || c == '-' { c } else { '.' }),
        decreases t.len() - i,
    {
        let c = t[i];
        out.push(if is_alphanumeric(c) || c == '-' { c } else { '.' });
        i += 1;
        assert(out@ =~= t@.take(i as int).map_values(|c: char| if unicode_alnum(c) || c == '-' { c } else { '.' }));
    }
    assert(t@.take(t.len() as int) =~= t@);
    if out.len() == 0 {
        own("index.html")
    } else {
        let s = string_from_chars(&out);
        concat(s.as_str(), ".html")
    }
}


/// Where a capture goes below the output root, as path parts, for the capture
/// made at time `ts`: `html_captures/capture_<ts>.html` for an HTML snapshot,
/// `complete_captures/complete_<ts>/index.html` for a complete page and
/// `mirrors/snapshot_<ts>.mhtml` for a mirror.
pub open spec fn capture_parts_spec(mode: CaptureMode, ts: Seq<char>) -> Seq<Seq<char>> {
    match mode {
        CaptureMode::Html => seq!["html_captures"@, "capture_"@ + ts + ".html"@],
        CaptureMode::Complete => seq!["complete_captures"@, "complete_"@ + ts, "index.html"@],
        CaptureMode::Mirror => seq!["mirrors"@, "snapshot_"@ + ts + ".mhtml"@],
    }
}

pub fn capture_parts(mode: CaptureMode, ts: &str) -> (r: Vec<String>)
    ensures
        strs_view(r@) == capture_parts_spec(mode, ts@),
{
    let mut v: Vec<String> = Vec::new();
    match mode {
        CaptureMode::Html => {
            push_str(&mut v, own("html_captures"));
            push_str(&mut v, concat3("capture_", ts, ".html"));
        },
        CaptureMode::Complete => {
            push_str(&mut v, own("complete_captures"));
            push_str(&mut v, concat("complete_", ts));
            push_str(&mut v, own("index.html"));
        },
        CaptureMode::Mirror => {
            push_str(&mut v, own("mirrors"));
            push_str(&mut v, concat3("snapshot_", ts, ".mhtml"));
        },
    }
    assert(strs_view(v@) =~= capture_parts_spec(mode, ts@));
    v
}

} // verus!
