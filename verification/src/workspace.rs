//! The per-tab workspace and what the browser's reports do to it: sniffed
//! media, responses, blob de-masking, the selector inspector, URL blocking
//! and the network listener switch.
use vstd::prelude::*;
use crate::script_types::opt_str_view;
use crate::state::{
    AutomationConfig, AutomationStatus, AutomationStep, ChromeTabInfo, MediaAsset, NetworkRequest,
    NotificationLevel, UiFunction,
};
use crate::strmap::StrMap;
use crate::cdp::json_string_value;
use crate::text::{
    chars_of, clone_strings, concat, concat3, dec_seq, own, seq_starts_with, starts_with_chars, str_starts_with,
    str_eq, string_from_chars, strs_view, trim_chars, trim_seq, u64_to_string,
};
use crate::video::{after_last, after_last_chars, before_first, before_first_chars};

verus! {

broadcast use vstd::std_specs::vec::group_vec_axioms;

/// The state kept for one browser tab: its panels, what was sniffed on it and
/// its automation pipeline.
pub struct TabWorkspace {
    pub title: String,
    pub show_network: bool,
    pub show_media: bool,
    pub show_storage: bool,
    pub show_automation: bool,
    pub show_console: bool,
    pub network_requests: Vec<NetworkRequest>,
    pub network_type_filter: Vec<String>,
    pub media_assets: Vec<MediaAsset>,
    pub selected_media_urls: Vec<String>,
    pub console_logs: Vec<String>,
    pub show_cookie_modal: bool,
    pub auto_steps: Vec<AutomationStep>,
    pub auto_functions: Vec<UiFunction>,
    pub active_fn_editor: Option<String>,
    pub auto_status: AutomationStatus,
    pub auto_config: AutomationConfig,
    pub discovered_selectors: Vec<String>,
    pub variables: StrMap,
    pub extracted_data: Vec<StrMap>,
    pub var_edit_key: String,
    pub var_edit_val: String,
    pub js_script: String,
    pub js_result: String,
    pub network_search: String,
    pub media_search: String,
    pub media_type_filter: Vec<String>,
    pub show_media_export: bool,
    pub media_export_types: Vec<String>,
    pub media_export_cols: Vec<String>,
    pub media_sort_col: String,
    pub media_sort_asc: bool,
    pub sniffer_active: bool,
    pub auto_reload_triggered: bool,
    pub active_request_id: Option<String>,
    pub active_media_url: Option<String>,
    pub selector_search: String,
    pub selector_inspector_armed: bool,
    /// URL patterns blocked on this tab; none occurs twice.
    pub blocked_urls: Vec<String>,
}

/// The mathematical value of a media asset.
pub struct MediaV {
    pub name: Seq<char>,
    pub url: Seq<char>,
    pub mime_type: Seq<char>,
    pub size_bytes: usize,
    pub data: Option<Seq<u8>>,
}

pub open spec fn media_view(a: MediaAsset) -> MediaV {
    MediaV {
        name: a.name@,
        url: a.url@,
        mime_type: a.mime_type@,
        size_bytes: a.size_bytes,
        data: match a.data {
            Some(d) => Some(d@),
            None => None,
        },
    }
}

pub open spec fn medias_view(v: Seq<MediaAsset>) -> Seq<MediaV> {
    v.map_values(|a: MediaAsset| media_view(a))
}

/// The URLs of a list of media.
pub open spec fn urls_of(v: Seq<MediaV>) -> Seq<Seq<char>> {
    v.map_values(|a: MediaV| a.url)
}

/// No text occurs twice.
pub open spec fn no_repeats(v: Seq<Seq<char>>) -> bool {
    forall|i: int, j: int| 0 <= i < j < v.len() ==> v[i] != v[j]
}

/// The title of a new workspace: the title of the first tab with that id,
/// else the fallback.
pub open spec fn tab_title(tabs: Seq<ChromeTabInfo>, tid: Seq<char>, fallback: Seq<char>, title: Seq<char>) -> bool {
    ||| exists|i: int|
        0 <= i < tabs.len() && tabs[i].id@ == tid && title == tabs[i].title@ && forall|k: int|
            0 <= k < i ==> #[trigger] tabs[k].id@ != tid
    ||| (forall|k: int| 0 <= k < tabs.len() ==> #[trigger] tabs[k].id@ != tid) && title == fallback
}

pub fn workspace_title(tabs: &Vec<ChromeTabInfo>, tid: &str, fallback: &str) -> (r: String)
    ensures
        tab_title(tabs@, tid@, fallback@, r@),
{
    let want = own(tid);
    let mut i: usize = 0;
    while i < tabs.len()
        invariant
            i <= tabs.len(),
            want@ == tid@,
            forall|k: int| 0 <= k < i ==> #[trigger] tabs@[k].id@ != tid@,
        decreases tabs.len() - i,
    {
        if tabs[i].id == want {
            return tabs[i].title.clone();
        }
        i += 1;
    }
    own(fallback)
}

/// The sub-windows of a workspace that the command center opens.
#[derive(PartialEq, Eq, Structural, Clone, Copy, Debug)]
pub enum Panel {
    Network,
    Media,
    Cookie,
    Console,
}

/// What opening a panel asks of the browser.
#[derive(PartialEq, Eq, Structural, Clone, Copy, Debug)]
pub enum PanelRequest {
    /// Switch the tab's network listener on.
    ListenNetwork,
    /// Fetch the tab's cookies.
    FetchCookies,
}

/// A workspace as it is made for a tab titled `title`: all panels closed,
/// nothing sniffed, no filters, automation idle with the default settings.
pub open spec fn fresh_workspace(w: TabWorkspace, title: Seq<char>) -> bool {
    &&& w.title@ == title
    &&& w.network_requests@.len() == 0
    &&& w.media_assets@.len() == 0
    &&& w.console_logs@.len() == 0
    &&& w.discovered_selectors@.len() == 0
    &&& w.blocked_urls@.len() == 0
    &&& w.auto_steps@.len() == 0
    &&& w.auto_functions@.len() == 0
    &&& w.auto_status is Idle
    &&& w.variables.wf()
    &&& w.variables@ == Map::<Seq<char>, Seq<char>>::empty()
    &&& w.extracted_data@.len() == 0
    &&& w.media_sort_col@ == "name"@
    &&& w.media_sort_asc
    &&& !w.sniffer_active
    &&& !w.auto_reload_triggered
    &&& !w.selector_inspector_armed
    &&& !w.show_network && !w.show_media && !w.show_storage && !w.show_automation && !w.show_console
    &&& w.network_type_filter@.len() == 0
    &&& w.selected_media_urls@.len() == 0
    &&& !w.show_cookie_modal
    &&& w.active_fn_editor is None
    &&& w.auto_config.retry_attempts == 0
    &&& w.auto_config.screenshot_on_error
    &&& w.auto_config.step_timeout_ms == 30000
    &&& w.var_edit_key@.len() == 0
    &&& w.var_edit_val@.len() == 0
    &&& w.js_script@.len() == 0
    &&& w.js_result@.len() == 0
    &&& w.network_search@.len() == 0
    &&& w.media_search@.len() == 0
    &&& w.media_type_filter@.len() == 0
    &&& !w.show_media_export
    &&& w.media_export_types@.len() == 0
    &&& w.media_export_cols@.len() == 0
    &&& w.active_request_id is None
    &&& w.active_media_url is None
    &&& w.selector_search@.len() == 0
}

impl TabWorkspace {
    /// An empty workspace: all panels closed, nothing sniffed, automation idle.
    pub fn new(title: String) -> (r: Self)
        ensures
            fresh_workspace(r, title@),
    {
        TabWorkspace {
            title,
            show_network: false,
            show_media: false,
            show_storage: false,
            show_automation: false,
            show_console: false,
            network_requests: Vec::new(),
            network_type_filter: Vec::new(),
            media_assets: Vec::new(),
            selected_media_urls: Vec::new(),
            console_logs: Vec::new(),
            show_cookie_modal: false,
            auto_steps: Vec::new(),
            auto_functions: Vec::new(),
            active_fn_editor: None,
            auto_status: AutomationStatus::Idle,
            auto_config: AutomationConfig::default(),
            discovered_selectors: Vec::new(),
            variables: StrMap::new(),
            extracted_data: Vec::new(),
            var_edit_key: String::new(),
            var_edit_val: String::new(),
            js_script: String::new(),
            js_result: String::new(),
            network_search: String::new(),
            media_search: String::new(),
            media_type_filter: Vec::new(),
            show_media_export: false,
            media_export_types: Vec::new(),
            media_export_cols: Vec::new(),
            media_sort_col: own("name"),
            media_sort_asc: true,
            sniffer_active: false,
            auto_reload_triggered: false,
            active_request_id: None,
            active_media_url: None,
            selector_search: String::new(),
            selector_inspector_armed: false,
            blocked_urls: Vec::new(),
        }
    }

    /// Shows a panel and says what it needs from the browser: the cookie
    /// panel its cookies, the others the network listener.
    pub fn open_panel(&mut self, panel: Panel) -> (r: PanelRequest)
        ensures
            r == (if panel == Panel::Cookie { PanelRequest::FetchCookies } else { PanelRequest::ListenNetwork }),
            panel == Panel::Network ==> *final(self) == (TabWorkspace { show_network: true, ..*old(self) }),
            panel == Panel::Media ==> *final(self) == (TabWorkspace { show_media: true, ..*old(self) }),
            panel == Panel::Cookie ==> *final(self) == (TabWorkspace { show_storage: true, ..*old(self) }),
            panel == Panel::Console ==> *final(self) == (TabWorkspace { show_console: true, ..*old(self) }),
    {
        match panel {
            Panel::Network => {
                self.show_network = true;
                PanelRequest::ListenNetwork
            },
            Panel::Media => {
                self.show_media = true;
                PanelRequest::ListenNetwork
            },
            Panel::Cookie => {
                self.show_storage = true;
                PanelRequest::FetchCookies
            },
            Panel::Console => {
                self.show_console = true;
                PanelRequest::ListenNetwork
            },
        }
    }

    fn media_index(&self, url: &String) -> (r: Option<usize>)
        ensures
            match r {
                Some(i) => i < self.media_assets.len() && self.media_assets@[i as int].url@ == url@,
                None => !urls_of(medias_view(self.media_assets@)).contains(url@),
            },
    {
        let mut i: usize = 0;
        while i < self.media_assets.len()
            invariant
                i <= self.media_assets.len(),
                forall|k: int| 0 <= k < i ==> #[trigger] self.media_assets@[k].url@ != url@,
            decreases self.media_assets.len() - i,
        {
            if self.media_assets[i].url == *url {
                return Some(i);
            }
            i += 1;
        }
        proof {
            assert forall|k: int| 0 <= k < self.media_assets@.len() implies urls_of(
                medias_view(self.media_assets@),
            )[k] != url@ by {
                assert(self.media_assets@[k].url@ != url@);
            }
        }
        None
    }

    /// A sniffed asset joins the list unless one with its URL is there already.
    pub fn upsert_media(&mut self, asset: MediaAsset) -> (added: bool)
        ensures
            added == !urls_of(medias_view(old(self).media_assets@)).contains(asset.url@),
            added ==> final(self).media_assets@ == old(self).media_assets@.push(asset),
            !added ==> final(self).media_assets@ == old(self).media_assets@,
            *final(self) == (TabWorkspace { media_assets: final(self).media_assets, ..*old(self) }),
    {
        match self.media_index(&asset.url) {
            Some(i) => {
                assert(urls_of(medias_view(self.media_assets@))[i as int] == asset.url@);
                false
            },
            None => {
                self.media_assets.push(asset);
                true
            },
        }
    }

    /// A response arrived: the first request with its id takes its status and body.
    pub fn record_response(&mut self, request_id: &str, status: u16, body: Option<String>)
        ensures
            response_recorded(old(self).network_requests@, final(self).network_requests@, request_id@, status, body),
            *final(self) == (TabWorkspace { network_requests: final(self).network_requests, ..*old(self) }),
    {
        let want = own(request_id);
        let mut i: usize = 0;
        while i < self.network_requests.len()
            invariant
                i <= self.network_requests.len(),
                want@ == request_id@,
                *self == *old(self),
                forall|k: int| 0 <= k < i ==> #[trigger] self.network_requests@[k].request_id@ != request_id@,
            decreases self.network_requests.len() - i,
        {
            if self.network_requests[i].request_id == want {
                let old_req = &self.network_requests[i];
                let updated = NetworkRequest {
                    request_id: old_req.request_id.clone(),
                    url: old_req.url.clone(),
                    method: old_req.method.clone(),
                    resource_type: old_req.resource_type.clone(),
                    status: Some(status),
                    request_body: clone_opt(&old_req.request_body),
                    response_body: body,
                };
                self.network_requests.set(i, updated);
                return;
            }
            i += 1;
        }
    }

    /// The network listener switch. Returns whether a listener must be started:
    /// only when switching on a tab whose listener is not running yet.
    pub fn toggle_sniffer(&mut self, active: bool) -> (start: bool)
        ensures
            start == (active && !old(self).sniffer_active),
            final(self).sniffer_active == active,
            *final(self) == (TabWorkspace { sniffer_active: final(self).sniffer_active, ..*old(self) }),
    {
        if !active {
            self.sniffer_active = false;
            false
        } else if self.sniffer_active {
            false
        } else {
            self.sniffer_active = true;
            true
        }
    }

    fn blocked_index(&self, pattern: &String) -> (r: Option<usize>)
        ensures
            match r {
                Some(i) => i < self.blocked_urls.len() && self.blocked_urls@[i as int]@ == pattern@,
                None => !strs_view(self.blocked_urls@).contains(pattern@),
            },
    {
        let mut i: usize = 0;
        while i < self.blocked_urls.len()
            invariant
                i <= self.blocked_urls.len(),
                forall|k: int| 0 <= k < i ==> #[trigger] strs_view(self.blocked_urls@)[k] != pattern@,
            decreases self.blocked_urls.len() - i,
        {
            if self.blocked_urls[i] == *pattern {
                return Some(i);
            }
            i += 1;
        }
        None
    }

    /// Adds a URL pattern to the tab's block list and returns the whole list.
    pub fn block_url(&mut self, pattern: String) -> (r: Vec<String>)
        requires
            no_repeats(strs_view(old(self).blocked_urls@)),
        ensures
            no_repeats(strs_view(final(self).blocked_urls@)),
            strs_view(final(self).blocked_urls@).to_set() == strs_view(old(self).blocked_urls@).to_set().insert(
                pattern@,
            ),
            strs_view(r@) == strs_view(final(self).blocked_urls@),
            *final(self) == (TabWorkspace { blocked_urls: final(self).blocked_urls, ..*old(self) }),
    {
        match self.blocked_index(&pattern) {
            Some(i) => {
                proof {
                    assert(strs_view(self.blocked_urls@)[i as int] == pattern@);
                    assert(strs_view(self.blocked_urls@).contains(pattern@));
                    assert(strs_view(self.blocked_urls@).to_set() =~= strs_view(self.blocked_urls@).to_set().insert(
                        pattern@,
                    ));
                }
            },
            None => {
                let ghost before = strs_view(self.blocked_urls@);
                self.blocked_urls.push(pattern);
                proof {
                    assert(strs_view(self.blocked_urls@) =~= before.push(pattern@));
                    crate::text::lemma_push_to_set(before, pattern@);
                }
            },
        }
        clone_strings(&self.blocked_urls)
    }

    /// Removes a URL pattern from the tab's block list and returns the whole list.
    pub fn unblock_url(&mut self, pattern: &str) -> (r: Vec<String>)
        requires
            no_repeats(strs_view(old(self).blocked_urls@)),
        ensures
            no_repeats(strs_view(final(self).blocked_urls@)),
            strs_view(final(self).blocked_urls@).to_set() == strs_view(old(self).blocked_urls@).to_set().remove(
                pattern@,
            ),
            strs_view(r@) == strs_view(final(self).blocked_urls@),
            *final(self) == (TabWorkspace { blocked_urls: final(self).blocked_urls, ..*old(self) }),
    {
        let p = own(pattern);
        match self.blocked_index(&p) {
            Some(i) => {
                let ghost before = strs_view(self.blocked_urls@);
                self.blocked_urls.remove(i);
                proof {
                    assert(strs_view(self.blocked_urls@) =~= before.remove(i as int));
                    assert forall|x: Seq<char>| #[trigger] strs_view(self.blocked_urls@).to_set().contains(x)
                        == before.to_set().remove(pattern@).contains(x) by {
                        assert(before[i as int] == pattern@);
                        if strs_view(self.blocked_urls@).contains(x) {
                            let j = choose|j: int| 0 <= j < strs_view(self.blocked_urls@).len() && strs_view(self.blocked_urls@)[j] == x;
                            if j < i {
                                assert(before[j] == x);
                                assert(before.contains(x));
                            } else {
                                assert(before[j + 1] == x);
                                assert(before.contains(x));
                            }
                            assert(x != pattern@);
                        }
                        if before.contains(x) && x != pattern@ {
                            let j = choose|j: int| 0 <= j < before.len() && before[j] == x;
                            if j < i {
                                assert(strs_view(self.blocked_urls@)[j] == x);
                            } else {
                                assert(j != i);
                                assert(strs_view(self.blocked_urls@)[j - 1] == x);
                            }
                        }
                    }
                    assert(strs_view(self.blocked_urls@).to_set() =~= before.to_set().remove(pattern@));
                }
            },
            None => {
                proof {
                    assert(strs_view(self.blocked_urls@).to_set() =~= strs_view(self.blocked_urls@).to_set().remove(
                        pattern@,
                    ));
                }
            },
        }
        clone_strings(&self.blocked_urls)
    }
}

fn clone_opt(o: &Option<String>) -> (r: Option<String>)
    ensures
        r == *o,
{
    match o {
        Some(s) => Some(s.clone()),
        None => None,
    }
}


// ---------------------------------------------------------------------------
// Blob de-masking
// ---------------------------------------------------------------------------

/// The file name given to a resolved blob URL: its last path segment without the query.
pub open spec fn blob_name(url: Seq<char>) -> Seq<char> {
    before_first(after_last(url, '/'), '?')
}

/// The media list, the log lines and the count of added URLs while the
/// de-masker's findings are taken in.
pub struct DemaskState {
    pub assets: Seq<MediaV>,
    pub logs: Seq<Seq<char>>,
    pub added: nat,
}

/// One finding of the de-masker: a blob URL, the URL it resolved to (empty
/// where none) and why.
pub open spec fn demask_step(st: DemaskState, blob: Seq<char>, resolved: Seq<char>, reason: Seq<char>) -> DemaskState {
    if resolved.len() == 0 {
        DemaskState {
            assets: st.assets,
            logs: st.logs.push("Unresolved blob: "@ + blob + " ("@ + reason + ")"@),
            added: st.added,
        }
    } else if urls_of(st.assets).contains(resolved) {
        st
    } else {
        DemaskState {
            assets: st.assets.push(
                MediaV {
                    name: blob_name(resolved),
                    url: resolved,
                    mime_type: "video/blob-demasked"@,
                    size_bytes: 0,
                    data: None,
                },
            ),
            logs: st.logs.push("Resolved "@ + blob + " -> "@ + resolved + " ("@ + reason + ")"@),
            added: st.added + 1,
        }
    }
}

/// The first `n` findings taken in, in order.
pub open spec fn demask_upto(st: DemaskState, maps: Seq<(String, String, String)>, n: nat) -> DemaskState
    decreases n,
{
    if n == 0 {
        st
    } else {
        let m = maps[n - 1];
        demask_step(demask_upto(st, maps, (n - 1) as nat), m.0@, m.1@, m.2@)
    }
}

/// The notification after de-masking.
pub fn demask_notice(added: usize) -> (r: (NotificationLevel, String))
    ensures
        r.0 == (if added > 0 { NotificationLevel::Success } else { NotificationLevel::Warn }),
        r.1@ == "Blob de-mask completed. Added "@ + dec_seq(added as nat) + " resolved URL(s)."@,
{
    let n = u64_to_string(added as u64);
    let msg = concat3("Blob de-mask completed. Added ", n.as_str(), " resolved URL(s).");
    (if added > 0 { NotificationLevel::Success } else { NotificationLevel::Warn }, msg)
}

/// A response arrived: the first request with its id takes its status and
/// body; without such a request nothing changes.
pub open spec fn response_recorded(
    reqs: Seq<NetworkRequest>,
    after: Seq<NetworkRequest>,
    request_id: Seq<char>,
    status: u16,
    body: Option<String>,
) -> bool {
    ||| exists|i: int|
        0 <= i < reqs.len() && reqs[i].request_id@ == request_id && (forall|k: int|
            0 <= k < i ==> #[trigger] reqs[k].request_id@ != request_id) && after == reqs.update(
            i,
            (NetworkRequest { status: Some(status), response_body: body, ..reqs[i] }),
        )
    ||| (forall|k: int| 0 <= k < reqs.len() ==> #[trigger] reqs[k].request_id@ != request_id) && after == reqs
}

impl TabWorkspace {
    fn has_media_url(&self, url: &String) -> (r: bool)
        ensures
            r == urls_of(medias_view(self.media_assets@)).contains(url@),
    {
        match self.media_index(url) {
            Some(i) => {
                assert(urls_of(medias_view(self.media_assets@))[i as int] == url@);
                true
            },
            None => false,
        }
    }

    /// Takes in the de-masker's findings: each resolved URL not yet listed
    /// joins the media list. Returns the log lines and how many joined.
    pub fn apply_blob_demask(&mut self, mappings: &Vec<(String, String, String)>) -> (r: (Vec<String>, usize))
        ensures
            ({
                let st = demask_upto(
                    DemaskState { assets: medias_view(old(self).media_assets@), logs: Seq::empty(), added: 0 },
                    mappings@,
                    mappings.len() as nat,
                );
                &&& medias_view(final(self).media_assets@) == st.assets
                &&& strs_view(r.0@) == st.logs
                &&& r.1 == st.added
            }),
            *final(self) == (TabWorkspace { media_assets: final(self).media_assets, ..*old(self) }),
    {
        let ghost st0 = DemaskState { assets: medias_view(old(self).media_assets@), logs: Seq::empty(), added: 0 };
        let mut logs: Vec<String> = Vec::new();
        let mut added: usize = 0;
        let mut i: usize = 0;
        while i < mappings.len()
            invariant
                i <= mappings.len(),
                added <= i,
                *self == (TabWorkspace { media_assets: self.media_assets, ..*old(self) }),
                ({
                    let st = demask_upto(st0, mappings@, i as nat);
                    &&& medias_view(self.media_assets@) == st.assets
                    &&& strs_view(logs@) == st.logs
                    &&& added == st.added
                }),
            decreases mappings.len() - i,
        {
            let (blob, resolved, reason) = &mappings[i];
            let ghost prev = demask_upto(st0, mappings@, i as nat);
            let rc = chars_of(resolved.as_str());
            if rc.len() == 0 {
                proof {
                    assert(resolved@.len() == 0);
                }
                let line = concat(concat3("Unresolved blob: ", blob.as_str(), " (").as_str(), concat(reason.as_str(), ")").as_str());
                crate::text::push_str(&mut logs, line);
                proof {
                    assert(("Unresolved blob: "@ + blob@ + " ("@) + (reason@ + ")"@) =~= "Unresolved blob: "@ + blob@ + " ("@ + reason@ + ")"@);
                }
            } else if self.has_media_url(resolved) {
                proof {
                    assert(resolved@.len() != 0);
                }
            } else {
                proof {
                    assert(resolved@.len() != 0);
                }
                let tail = after_last_chars(&rc, '/');
                let name_chars = before_first_chars(&tail, '?');
                let asset = MediaAsset {
                    name: string_from_chars(&name_chars),
                    url: resolved.clone(),
                    mime_type: own("video/blob-demasked"),
                    size_bytes: 0,
                    data: None,
                };
                let ghost before = self.media_assets@;
                self.media_assets.push(asset);
                proof {
                    assert(medias_view(self.media_assets@) =~= medias_view(before).push(media_view(asset)));
                }
                let head = concat3("Resolved ", blob.as_str(), " -> ");
                let mid = concat3(head.as_str(), resolved.as_str(), " (");
                let line = concat3(mid.as_str(), reason.as_str(), ")");
                crate::text::push_str(&mut logs, line);
                added += 1;
            }
            i += 1;
            proof {
                assert(mappings@[i - 1] == (*blob, *resolved, *reason));
            }
        }
        (logs, added)
    }
}

// ---------------------------------------------------------------------------
// Selector inspector
// ---------------------------------------------------------------------------

/// The selector reported after the inspector's value prefix, trimmed.
pub open spec fn inspector_value(decoded: Seq<char>) -> Seq<char> {
    trim_seq(decoded.skip("SNIPER_SELECTOR_VALUE:"@.len() as int), None)
}

fn inspector_value_chars(decoded: &str) -> (r: Vec<char>)
    requires
        seq_starts_with(decoded@, "SNIPER_SELECTOR_VALUE:"@),
    ensures
        r@ == inspector_value(decoded@),
{
    let d = chars_of(decoded);
    let prefix = chars_of("SNIPER_SELECTOR_VALUE:");
    let mut rest: Vec<char> = Vec::new();
    let mut k = prefix.len();
    while k < d.len()
        invariant
            prefix.len() <= k <= d.len(),
            rest@ == d@.subrange(prefix.len() as int, k as int),
        decreases d.len() - k,
    {
        rest.push(d[k]);
        k += 1;
        assert(rest@ =~= d@.subrange(prefix.len() as int, k as int));
    }
    assert(rest@ =~= decoded@.skip("SNIPER_SELECTOR_VALUE:"@.len() as int));
    trim_chars(&rest, None)
}

/// What taking in an inspector report does to a workspace and what it notifies.
pub open spec fn inspector_applied(
    before: TabWorkspace,
    after: TabWorkspace,
    decoded: Seq<char>,
    r: Option<(NotificationLevel, String)>,
) -> bool {
    &&& (decoded == "SNIPER_SELECTOR_ARMED"@ ==> {
        &&& after == (TabWorkspace { selector_inspector_armed: true, ..before })
        &&& r matches Some((l, m)) && l == NotificationLevel::Success
            && m@ == "Inspector armed. Click any element on the page, then Fetch."@
    })
    &&& (decoded != "SNIPER_SELECTOR_ARMED"@ && seq_starts_with(decoded, "SNIPER_SELECTOR_VALUE:"@) ==> {
        let v = inspector_value(decoded);
        if v.len() == 0 || v == "NONE"@ {
            &&& after == (TabWorkspace { selector_inspector_armed: false, ..before })
            &&& r matches Some((l, m)) && l == NotificationLevel::Warn && m@ == "No selector captured yet."@
        } else {
            &&& after == (TabWorkspace {
                selector_inspector_armed: false,
                selector_search: after.selector_search,
                discovered_selectors: after.discovered_selectors,
                ..before
            })
            &&& after.selector_search@ == v
            &&& strs_view(after.discovered_selectors@) == (if strs_view(
                before.discovered_selectors@,
            ).contains(v) {
                strs_view(before.discovered_selectors@)
            } else {
                seq![v] + strs_view(before.discovered_selectors@)
            })
            &&& r matches Some((l, m)) && l == NotificationLevel::Success && m@ == "Captured selector: "@ + v
        }
    })
    &&& (decoded != "SNIPER_SELECTOR_ARMED"@ && !seq_starts_with(decoded, "SNIPER_SELECTOR_VALUE:"@)
        && decoded == "SNIPER_SELECTOR_CLEARED"@ ==> {
        &&& after == (TabWorkspace { selector_inspector_armed: false, ..before })
        &&& r matches Some((l, m)) && l == NotificationLevel::Success && m@ == "Inspector state cleared."@
    })
    &&& (decoded != "SNIPER_SELECTOR_ARMED"@ && !seq_starts_with(decoded, "SNIPER_SELECTOR_VALUE:"@)
        && decoded != "SNIPER_SELECTOR_CLEARED"@ ==> r is None && after == before)
}

impl TabWorkspace {
    fn capture_selector(&mut self, value: String)
        ensures
            no_repeats(strs_view(old(self).discovered_selectors@)) ==> no_repeats(
                strs_view(final(self).discovered_selectors@),
            ),
            *final(self) == (TabWorkspace {
                selector_search: final(self).selector_search,
                discovered_selectors: final(self).discovered_selectors,
                ..*old(self)
            }),
            final(self).selector_search@ == value@,
            strs_view(final(self).discovered_selectors@) == (if strs_view(old(self).discovered_selectors@).contains(
                value@,
            ) {
                strs_view(old(self).discovered_selectors@)
            } else {
                seq![value@] + strs_view(old(self).discovered_selectors@)
            }),
    {
        let found = crate::text::contains_str(&self.discovered_selectors, &value);
        self.selector_search = value.clone();
        if !found {
            let ghost before = strs_view(self.discovered_selectors@);
            self.discovered_selectors.insert(0, value);
            proof {
                assert(strs_view(self.discovered_selectors@) =~= seq![value@] + before);
                if no_repeats(before) {
                assert forall|a: int, b: int|
                    0 <= a < b < strs_view(self.discovered_selectors@).len() implies strs_view(
                    self.discovered_selectors@,
                )[a] != strs_view(self.discovered_selectors@)[b] by {
                    if a == 0 {
                        assert(before[b - 1] == strs_view(self.discovered_selectors@)[b]);
                    }
                }
                }
            }
        }
    }

    /// Takes in what the inspector script reported (already decoded) and
    /// says what to notify.
    pub fn apply_inspector_result(&mut self, decoded: &str) -> (r: Option<(NotificationLevel, String)>)
        ensures
            no_repeats(strs_view(old(self).discovered_selectors@)) ==> no_repeats(
                strs_view(final(self).discovered_selectors@),
            ),
            inspector_applied(*old(self), *final(self), decoded@, r),
    {
        if str_eq(decoded, "SNIPER_SELECTOR_ARMED") {
            self.selector_inspector_armed = true;
            return Some((NotificationLevel::Success, own("Inspector armed. Click any element on the page, then Fetch.")));
        }
        if str_starts_with(decoded, "SNIPER_SELECTOR_VALUE:") {
            let vc = inspector_value_chars(decoded);
            let value = string_from_chars(&vc);
            let result;
            if vc.len() == 0 || str_eq(value.as_str(), "NONE") {
                result = Some((NotificationLevel::Warn, own("No selector captured yet.")));
            } else {
                let msg = concat("Captured selector: ", value.as_str());
                self.capture_selector(value);
                result = Some((NotificationLevel::Success, msg));
            }
            self.selector_inspector_armed = false;
            return result;
        }
        if str_eq(decoded, "SNIPER_SELECTOR_CLEARED") {
            self.selector_inspector_armed = false;
            return Some((NotificationLevel::Success, own("Inspector state cleared.")));
        }
        None
    }

    /// The result of a script run on the tab: it is shown as it came, and
    /// what the selector inspector reported in it is taken in.
    pub fn script_finished(&mut self, raw: String) -> (r: Option<(NotificationLevel, String)>)
        ensures
            final(self).js_result@ == raw@,
            no_repeats(strs_view(old(self).discovered_selectors@)) ==> no_repeats(
                strs_view(final(self).discovered_selectors@),
            ),
            inspector_applied(
                TabWorkspace { js_result: raw, ..*old(self) },
                *final(self),
                match json_string_value(raw@) {
                    Some(v) => v,
                    None => raw@,
                },
                r,
            ),
    {
        let decoded = crate::cdp::decode_js_result(raw.as_str());
        self.js_result = raw;
        self.apply_inspector_result(decoded.as_str())
    }
}


/// Taking in a sniffed asset never lists a URL twice: an asset whose URL is
/// listed already is dropped, any other one is appended.
pub proof fn lemma_upsert_keeps_urls_distinct(assets: Seq<MediaV>, a: MediaV)
    requires
        no_repeats(urls_of(assets)),
    ensures
        no_repeats(urls_of(if urls_of(assets).contains(a.url) { assets } else { assets.push(a) })),
{
    if !urls_of(assets).contains(a.url) {
        let after = assets.push(a);
        assert(urls_of(after) =~= urls_of(assets).push(a.url));
        assert forall|i: int, j: int| 0 <= i < j < urls_of(after).len() implies urls_of(after)[i] != urls_of(
            after,
        )[j] by {
            if j == assets.len() {
                assert(urls_of(assets)[i] == urls_of(after)[i]);
            }
        }
    }
}

/// The de-masker keeps every listed asset in place, lists no URL twice, and
/// its count of added URLs is exactly how much the list grew.
pub proof fn lemma_demask_only_adds(st: DemaskState, maps: Seq<(String, String, String)>, n: nat)
    requires
        no_repeats(urls_of(st.assets)),
        n <= maps.len(),
    ensures
        no_repeats(urls_of(demask_upto(st, maps, n).assets)),
        demask_upto(st, maps, n).assets.take(st.assets.len() as int) == st.assets,
        demask_upto(st, maps, n).added >= st.added,
        demask_upto(st, maps, n).assets.len() == st.assets.len() + demask_upto(st, maps, n).added - st.added,
    decreases n,
{
    if n > 0 {
        lemma_demask_only_adds(st, maps, (n - 1) as nat);
        let prev = demask_upto(st, maps, (n - 1) as nat);
        let m = maps[n - 1];
        if m.1@.len() > 0 && !urls_of(prev.assets).contains(m.1@) {
            let a = MediaV {
                name: blob_name(m.1@),
                url: m.1@,
                mime_type: "video/blob-demasked"@,
                size_bytes: 0,
                data: None,
            };
            lemma_upsert_keeps_urls_distinct(prev.assets, a);
            assert(prev.assets.push(a).take(st.assets.len() as int) =~= prev.assets.take(st.assets.len() as int));
        }
    }
}

/// Unblocking a pattern undoes blocking it, where it was not blocked before;
/// blocking twice is blocking once.
pub proof fn lemma_unblock_undoes_block(blocked: Set<Seq<char>>, pattern: Seq<char>)
    ensures
        !blocked.contains(pattern) ==> blocked.insert(pattern).remove(pattern) == blocked,
        blocked.insert(pattern).insert(pattern) == blocked.insert(pattern),
{
    assert(blocked.insert(pattern).insert(pattern) =~= blocked.insert(pattern));
    if !blocked.contains(pattern) {
        assert(blocked.insert(pattern).remove(pattern) =~= blocked);
    }
}

} // verus!
