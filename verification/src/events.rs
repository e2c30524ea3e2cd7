//! What the main window does with each event: the state change, and the
//! browser, file or script work it asks the host to start. The host performs
//! the commands and turns their outcomes into further events.
use vstd::prelude::*;
use crate::app_state::{
    log_view, logs_view, notes_view, push_log_lines, workspace_ids, ws_at, AppState, MAX_NOTIFICATIONS,
};
use crate::dispatch::{
    browser_commands, capped_push, check_lines, check_notice, command_allowed, debug_plan_start, debug_start,
    denied_message, hint_lines, push_capped, run_break_condition, MAX_LOGS, MAX_SCRIPT_OUTPUT,
};
use crate::dsl::AutomationDsl;
use crate::engine::ExecutionConfig;
use crate::knowledge::hints_spec;
use crate::script_types::{ScriptExecutionRequest, ScriptPackage, ScriptingCheckReport};
use crate::state::{
    AutomationStatus, ChromeTabInfo, MediaAsset, NetworkRequest, NotificationLevel,
};
use crate::strmap::StrMap;
use crate::text::{concat, concat3, lower_seq, own, strs_view, trim_seq};
use crate::workspace::{fresh_workspace, no_repeats, tab_title, TabWorkspace};

verus! {

broadcast use vstd::std_specs::vec::group_vec_axioms;

/// Everything that happens in the application. `C` is a cookie as the host's
/// cookie manager holds it; the library only passes it on.
pub enum AppEvent<C> {
    BrowserStarted,
    BrowserTerminated,
    TerminateBrowser,
    TabsUpdated(Vec<ChromeTabInfo>),
    ConsoleLogAdded(String, String),
    RequestCapture(String, String),
    RequestScriptExecution(String, String),
    RequestNetworkToggle(String, bool),
    RequestAutomationRun(String, AutomationDsl, ExecutionConfig),
    RequestTabRefresh,
    RequestPageReload(String),
    RequestUrlBlock(String, String),
    RequestUrlUnblock(String, String),
    RequestPageSelectors(String),
    RequestVideoDownload(String, String, String),
    RequestBlobDemask(String),
    SelectorsReceived(String, Vec<String>),
    AutomationDatasetUpdated(String, Vec<StrMap>),
    RequestLogPathSet(String),
    RequestCookies(String),
    RequestCookieDelete(String, String, String),
    RequestCookieAdd(String, C),
    MediaCaptured(String, MediaAsset),
    BlobDemaskResult(String, Vec<(String, String, String)>),
    /// A tab's cookies, as (name, value) pairs.
    CookiesReceived(String, Vec<(String, String)>),
    AutomationProgress(String, usize),
    AutomationFinished(String),
    AutomationError(String, String),
    NetworkRequestSent(String, NetworkRequest),
    NetworkResponseReceived(String, String, u16, Option<String>),
    ScriptFinished(String, String),
    RequestScriptingRun(ScriptPackage, Option<String>),
    RequestScriptingCheck(ScriptPackage, Option<String>),
    RequestScriptingDryRun(ScriptPackage, Option<String>),
    RequestScriptingDebugPlan(ScriptPackage, Option<String>),
    RequestScriptingStop,
    ScriptingOutput(String),
    ScriptingCheckResult(ScriptingCheckReport),
    ScriptingDryRunResult(Vec<String>),
    ScriptingDebugPlanResult(Vec<String>),
    ScriptingFinished,
    ScriptingError(String),
    OperationSuccess(String),
    OperationError(String),
}

/// Work the host performs for an event.
pub enum Command<C> {
    SetLogPath(String),
    WriteChromeLog(String),
    TerminateBrowser,
    StopAllSniffers,
    StartSniffer(String),
    StopSniffer(String),
    /// Apply the tab's block list; the pattern and whether it was added name
    /// the change in the outcome message.
    SetUrlBlocking(String, Vec<String>, String, bool),
    FetchCookies(String),
    DeleteCookie(String, String, String),
    AddCookie(String, C),
    ReloadPage(String),
    ListTabs,
    ExecuteScript(String, String),
    ScanSelectors(String),
    Capture(String, String),
    DownloadVideo(String, String),
    DemaskBlobs(String),
    RunAutomation(String, AutomationDsl, ExecutionConfig),
    RunScript(ScriptExecutionRequest),
    CheckScript(ScriptPackage, Option<String>, bool),
    DryRun(ScriptExecutionRequest),
    DebugPlan(ScriptExecutionRequest),
    CancelScript,
}

/// The name the command guard knows an event by.
pub open spec fn event_name<C>(e: AppEvent<C>) -> Seq<char> {
    match e {
        AppEvent::BrowserStarted => "BrowserStarted"@,
        AppEvent::BrowserTerminated => "BrowserTerminated"@,
        AppEvent::TerminateBrowser => "TerminateBrowser"@,
        AppEvent::TabsUpdated(..) => "TabsUpdated"@,
        AppEvent::ConsoleLogAdded(..) => "ConsoleLogAdded"@,
        AppEvent::RequestCapture(..) => "RequestCapture"@,
        AppEvent::RequestScriptExecution(..) => "RequestScriptExecution"@,
        AppEvent::RequestNetworkToggle(..) => "RequestNetworkToggle"@,
        AppEvent::RequestAutomationRun(..) => "RequestAutomationRun"@,
        AppEvent::RequestTabRefresh => "RequestTabRefresh"@,
        AppEvent::RequestPageReload(..) => "RequestPageReload"@,
        AppEvent::RequestUrlBlock(..) => "RequestUrlBlock"@,
        AppEvent::RequestUrlUnblock(..) => "RequestUrlUnblock"@,
        AppEvent::RequestPageSelectors(..) => "RequestPageSelectors"@,
        AppEvent::RequestVideoDownload(..) => "RequestVideoDownload"@,
        AppEvent::RequestBlobDemask(..) => "RequestBlobDemask"@,
        AppEvent::SelectorsReceived(..) => "SelectorsReceived"@,
        AppEvent::AutomationDatasetUpdated(..) => "AutomationDatasetUpdated"@,
        AppEvent::RequestLogPathSet(..) => "RequestLogPathSet"@,
        AppEvent::RequestCookies(..) => "RequestCookies"@,
        AppEvent::RequestCookieDelete(..) => "RequestCookieDelete"@,
        AppEvent::RequestCookieAdd(..) => "RequestCookieAdd"@,
        AppEvent::MediaCaptured(..) => "MediaCaptured"@,
        AppEvent::BlobDemaskResult(..) => "BlobDemaskResult"@,
        AppEvent::CookiesReceived(..) => "CookiesReceived"@,
        AppEvent::AutomationProgress(..) => "AutomationProgress"@,
        AppEvent::AutomationFinished(..) => "AutomationFinished"@,
        AppEvent::AutomationError(..) => "AutomationError"@,
        AppEvent::NetworkRequestSent(..) => "NetworkRequestSent"@,
        AppEvent::NetworkResponseReceived(..) => "NetworkResponseReceived"@,
        AppEvent::ScriptFinished(..) => "ScriptFinished"@,
        AppEvent::RequestScriptingRun(..) => "RequestScriptingRun"@,
        AppEvent::RequestScriptingCheck(..) => "RequestScriptingCheck"@,
        AppEvent::RequestScriptingDryRun(..) => "RequestScriptingDryRun"@,
        AppEvent::RequestScriptingDebugPlan(..) => "RequestScriptingDebugPlan"@,
        AppEvent::RequestScriptingStop => "RequestScriptingStop"@,
        AppEvent::ScriptingOutput(..) => "ScriptingOutput"@,
        AppEvent::ScriptingCheckResult(..) => "ScriptingCheckResult"@,
        AppEvent::ScriptingDryRunResult(..) => "ScriptingDryRunResult"@,
        AppEvent::ScriptingDebugPlanResult(..) => "ScriptingDebugPlanResult"@,
        AppEvent::ScriptingFinished => "ScriptingFinished"@,
        AppEvent::ScriptingError(..) => "ScriptingError"@,
        AppEvent::OperationSuccess(..) => "OperationSuccess"@,
        AppEvent::OperationError(..) => "OperationError"@,
    }
}

impl<C> AppEvent<C> {
    pub fn name(&self) -> (r: &'static str)
        ensures
            r@ == event_name(*self),
    {
        match self {
            AppEvent::BrowserStarted => "BrowserStarted",
            AppEvent::BrowserTerminated => "BrowserTerminated",
            AppEvent::TerminateBrowser => "TerminateBrowser",
            AppEvent::TabsUpdated(..) => "TabsUpdated",
            AppEvent::ConsoleLogAdded(..) => "ConsoleLogAdded",
            AppEvent::RequestCapture(..) => "RequestCapture",
            AppEvent::RequestScriptExecution(..) => "RequestScriptExecution",
            AppEvent::RequestNetworkToggle(..) => "RequestNetworkToggle",
            AppEvent::RequestAutomationRun(..) => "RequestAutomationRun",
            AppEvent::RequestTabRefresh => "RequestTabRefresh",
            AppEvent::RequestPageReload(..) => "RequestPageReload",
            AppEvent::RequestUrlBlock(..) => "RequestUrlBlock",
            AppEvent::RequestUrlUnblock(..) => "RequestUrlUnblock",
            AppEvent::RequestPageSelectors(..) => "RequestPageSelectors",
            AppEvent::RequestVideoDownload(..) => "RequestVideoDownload",
            AppEvent::RequestBlobDemask(..) => "RequestBlobDemask",
            AppEvent::SelectorsReceived(..) => "SelectorsReceived",
            AppEvent::AutomationDatasetUpdated(..) => "AutomationDatasetUpdated",
            AppEvent::RequestLogPathSet(..) => "RequestLogPathSet",
            AppEvent::RequestCookies(..) => "RequestCookies",
            AppEvent::RequestCookieDelete(..) => "RequestCookieDelete",
            AppEvent::RequestCookieAdd(..) => "RequestCookieAdd",
            AppEvent::MediaCaptured(..) => "MediaCaptured",
            AppEvent::BlobDemaskResult(..) => "BlobDemaskResult",
            AppEvent::CookiesReceived(..) => "CookiesReceived",
            AppEvent::AutomationProgress(..) => "AutomationProgress",
            AppEvent::AutomationFinished(..) => "AutomationFinished",
            AppEvent::AutomationError(..) => "AutomationError",
            AppEvent::NetworkRequestSent(..) => "NetworkRequestSent",
            AppEvent::NetworkResponseReceived(..) => "NetworkResponseReceived",
            AppEvent::ScriptFinished(..) => "ScriptFinished",
            AppEvent::RequestScriptingRun(..) => "RequestScriptingRun",
            AppEvent::RequestScriptingCheck(..) => "RequestScriptingCheck",
            AppEvent::RequestScriptingDryRun(..) => "RequestScriptingDryRun",
            AppEvent::RequestScriptingDebugPlan(..) => "RequestScriptingDebugPlan",
            AppEvent::RequestScriptingStop => "RequestScriptingStop",
            AppEvent::ScriptingOutput(..) => "ScriptingOutput",
            AppEvent::ScriptingCheckResult(..) => "ScriptingCheckResult",
            AppEvent::ScriptingDryRunResult(..) => "ScriptingDryRunResult",
            AppEvent::ScriptingDebugPlanResult(..) => "ScriptingDebugPlanResult",
            AppEvent::ScriptingFinished => "ScriptingFinished",
            AppEvent::ScriptingError(..) => "ScriptingError",
            AppEvent::OperationSuccess(..) => "OperationSuccess",
            AppEvent::OperationError(..) => "OperationError",
        }
    }
}

// ---------------------------------------------------------------------------
// Workspace edits
// ---------------------------------------------------------------------------

/// The workspaces after the workspace of `tid` (made on first use, titled
/// after the listed tab) was changed as `r` says from what it was, the others
/// left as they were.
pub open spec fn ws_changed(
    old: Seq<(String, TabWorkspace)>,
    new: Seq<(String, TabWorkspace)>,
    tabs: Seq<ChromeTabInfo>,
    tid: Seq<char>,
    r: spec_fn(TabWorkspace, TabWorkspace) -> bool,
) -> bool {
    exists|i: int|
        #![trigger ws_at(new, tid, i)]
        ws_at(new, tid, i) && (forall|k: int| 0 <= k < old.len() && k != i ==> #[trigger] new[k] == old[k]) && (
        if i < old.len() {
            &&& new.len() == old.len()
            &&& new[i].0 == old[i].0
            &&& r(old[i].1, new[i].1)
        } else {
            &&& i == old.len()
            &&& new.len() == old.len() + 1
            &&& !workspace_ids(old).contains(tid)
            &&& exists|w0: TabWorkspace|
                fresh_workspace(w0, w0.title@) && tab_title(tabs, tid, "New Tab"@, w0.title@) && #[trigger] r(
                    w0,
                    new[i].1,
                )
        })
}

proof fn lemma_ws_changed(
    old: Seq<(String, TabWorkspace)>,
    mid: Seq<(String, TabWorkspace)>,
    new: Seq<(String, TabWorkspace)>,
    tabs: Seq<ChromeTabInfo>,
    tid: Seq<char>,
    i: int,
    r: spec_fn(TabWorkspace, TabWorkspace) -> bool,
)
    requires
        0 <= i < mid.len(),
        mid[i].0@ == tid,
        workspace_ids(old).contains(tid) ==> mid == old,
        !workspace_ids(old).contains(tid) ==> {
            &&& i == old.len()
            &&& mid.drop_last() == old
            &&& tab_title(tabs, tid, "New Tab"@, mid[i].1.title@)
            &&& fresh_workspace(mid[i].1, mid[i].1.title@)
        },
        new.len() == mid.len(),
        new[i].0 == mid[i].0,
        forall|k: int| 0 <= k < mid.len() && k != i ==> new[k] == mid[k],
        r(mid[i].1, new[i].1),
    ensures
        ws_changed(old, new, tabs, tid, r),
{
    assert(ws_at(new, tid, i));
    if workspace_ids(old).contains(tid) {
    } else {
        assert forall|k: int| 0 <= k < old.len() && k != i implies #[trigger] new[k] == old[k] by {
            assert(mid[k] == old[k]);
        }
        assert(r(mid[i].1, new[i].1));
    }
}

/// Whether the workspaces keep their ids and their block lists free of repeats.
pub open spec fn ids_kept(a: Seq<(String, TabWorkspace)>, b: Seq<(String, TabWorkspace)>) -> bool {
    &&& a.len() == b.len()
    &&& forall|k: int| 0 <= k < a.len() ==> #[trigger] a[k].0 == b[k].0
}

proof fn lemma_ids_kept(a: Seq<(String, TabWorkspace)>, b: Seq<(String, TabWorkspace)>)
    requires
        ids_kept(a, b),
    ensures
        workspace_ids(a) == workspace_ids(b),
{
    assert(workspace_ids(a) =~= workspace_ids(b));
}


// ---------------------------------------------------------------------------
// What each event does
// ---------------------------------------------------------------------------

pub open spec fn notify_spec(old: AppState, new: AppState, level: NotificationLevel, title: Seq<char>, msg: Seq<char>) -> bool {
    notes_view(new.notifications@) == capped_push(notes_view(old.notifications@), (level, title, msg), MAX_NOTIFICATIONS as nat)
}

pub open spec fn plain<C>(cmds: Seq<Command<C>>) -> bool {
    cmds.len() == 0
}

/// The request a script run, dry run or debug plan gets: the package, the
/// target tab, that tab's console lines and cookies, the trimmed break
/// condition, the port and the output folder.
pub open spec fn request_for(s: AppState, package: ScriptPackage, selected: Option<String>, req: ScriptExecutionRequest) -> bool {
    &&& req.package == package
    &&& req.selected_tab_id == selected
    &&& (match req.break_condition {
        Some(c) => c@ == trim_seq(s.break_condition@, None) && c@.len() > 0,
        None => trim_seq(s.break_condition@, None).len() == 0,
    })
    &&& req.emit_step_timing
    &&& !req.apply_stealth
    &&& req.port == s.config.remote_debug_port
    &&& req.output_dir@ == s.config.output_dir@
}

/// The target of a check, dry run or debug plan: the one named, else the
/// selected tab.
pub open spec fn target_or_selected(s: AppState, selected: Option<String>) -> Option<String> {
    match selected {
        Some(t) => Some(t),
        None => s.selected_tab_id,
    }
}

/// A block list after a pattern joins it (`add`) or leaves it.
pub open spec fn block_list_after(l: Set<Seq<char>>, pattern: Seq<char>, add: bool) -> Set<Seq<char>> {
    if add { l.insert(pattern) } else { l.remove(pattern) }
}

/// A URL pattern joins (or leaves) the tab's block list, and the host is
/// asked to apply the whole list.
pub open spec fn url_block_effect<C>(old: AppState, tid: String, pattern: String, new: AppState, cmds: Seq<Command<C>>, add: bool) -> bool {
    &&& ws_changed(old.workspaces@, new.workspaces@, old.available_tabs@, tid@,
        |a: TabWorkspace, b: TabWorkspace| b == (TabWorkspace { blocked_urls: b.blocked_urls, ..a })
            && strs_view(b.blocked_urls@).to_set() == block_list_after(strs_view(a.blocked_urls@).to_set(), pattern@, add))
    &&& new == (AppState { workspaces: new.workspaces, ..old })
    &&& cmds.len() == 1
    &&& (cmds[0] matches Command::SetUrlBlocking(t, list, p, added) && t == tid && p == pattern && added == add
        && exists|i: int| ws_at(new.workspaces@, tid@, i) && strs_view(list@) == strs_view(new.workspaces@[i].1.blocked_urls@))
}

/// What an event allowed by the command guard does.
pub open spec fn arm_effect<C>(old: AppState, e: AppEvent<C>, new: AppState, cmds: Seq<Command<C>>, now: Seq<char>) -> bool {
    match e {
        AppEvent::RequestLogPathSet(path) => new == old && cmds == seq![Command::<C>::SetLogPath(path)],
        AppEvent::BrowserStarted => {
            &&& new == (AppState { is_browser_running: true, notifications: new.notifications, ..old })
            &&& notify_spec(old, new, NotificationLevel::Success, "System"@, "Browser connected."@)
            &&& plain(cmds)
        },
        AppEvent::BrowserTerminated | AppEvent::TerminateBrowser => {
            &&& !new.is_browser_running
            &&& new.available_tabs@.len() == 0
            &&& new.selected_tab_id is None
            &&& ids_kept(old.workspaces@, new.workspaces@)
            &&& forall|k: int| 0 <= k < new.workspaces.len() ==> (#[trigger] new.workspaces@[k]).1 == (TabWorkspace {
                sniffer_active: false,
                ..old.workspaces@[k].1
            })
            &&& new == (AppState {
                is_browser_running: false,
                available_tabs: new.available_tabs,
                selected_tab_id: None,
                workspaces: new.workspaces,
                notifications: new.notifications,
                ..old
            })
            &&& notify_spec(old, new, NotificationLevel::Error, "System"@, "Browser disconnected."@)
            &&& cmds == seq![Command::<C>::TerminateBrowser, Command::<C>::StopAllSniffers]
        },
        AppEvent::TabsUpdated(tabs) => {
            &&& new.available_tabs == tabs
            &&& ids_kept(old.workspaces@, new.workspaces@)
            &&& forall|k: int| 0 <= k < new.workspaces.len() ==> (#[trigger] new.workspaces@[k]).1 == (TabWorkspace {
                auto_reload_triggered: false,
                ..old.workspaces@[k].1
            })
            &&& new == (AppState { available_tabs: new.available_tabs, workspaces: new.workspaces, ..old })
            &&& plain(cmds)
        },
        AppEvent::ConsoleLogAdded(tid, msg) => {
            let line = "["@ + tid@ + "] "@ + msg@;
            &&& ws_changed(old.workspaces@, new.workspaces@, old.available_tabs@, tid@,
                |a: TabWorkspace, b: TabWorkspace| b == (TabWorkspace { console_logs: b.console_logs, ..a })
                    && strs_view(b.console_logs@) == strs_view(a.console_logs@).push(msg@))
            &&& logs_view(new.logs@) == capped_push(logs_view(old.logs@), (now, "CHROME"@, line), MAX_LOGS as nat)
            &&& new == (AppState { workspaces: new.workspaces, logs: new.logs, ..old })
            &&& cmds.len() == 1
            &&& (cmds[0] matches Command::WriteChromeLog(l) && l@ == line)
        },
        AppEvent::SelectorsReceived(tid, sels) => {
            &&& ws_changed(old.workspaces@, new.workspaces@, old.available_tabs@, tid@,
                |a: TabWorkspace, b: TabWorkspace| b == (TabWorkspace { discovered_selectors: sels, ..a }))
            &&& new == (AppState { workspaces: new.workspaces, ..old })
            &&& plain(cmds)
        },
        AppEvent::MediaCaptured(tid, asset) => {
            &&& ws_changed(old.workspaces@, new.workspaces@, old.available_tabs@, tid@,
                |a: TabWorkspace, b: TabWorkspace| b == (TabWorkspace { media_assets: b.media_assets, ..a })
                    && b.media_assets@ == if crate::workspace::urls_of(crate::workspace::medias_view(a.media_assets@)).contains(asset.url@) {
                        a.media_assets@
                    } else {
                        a.media_assets@.push(asset)
                    })
            &&& new == (AppState { workspaces: new.workspaces, ..old })
            &&& plain(cmds)
        },
        AppEvent::BlobDemaskResult(tid, maps) => {
            &&& ws_changed(old.workspaces@, new.workspaces@, old.available_tabs@, tid@,
                |a: TabWorkspace, b: TabWorkspace| b == (TabWorkspace { media_assets: b.media_assets, ..a })
                    && crate::workspace::medias_view(b.media_assets@) == demask_of(media_before(old.workspaces@, tid@), maps@).assets)
            &&& logs_view(new.logs@) == push_log_lines(logs_view(old.logs@), now, "BLOB"@,
                demask_of(media_before(old.workspaces@, tid@), maps@).logs)
            &&& notify_spec(old, new, if demask_of(media_before(old.workspaces@, tid@), maps@).added > 0 {
                NotificationLevel::Success
            } else {
                NotificationLevel::Warn
            }, "De-Masker"@, "Blob de-mask completed. Added "@ + crate::text::dec_seq(
                demask_of(media_before(old.workspaces@, tid@), maps@).added) + " resolved URL(s)."@)
            &&& new == (AppState { workspaces: new.workspaces, logs: new.logs, notifications: new.notifications, ..old })
            &&& plain(cmds)
        },
        AppEvent::CookiesReceived(tid, pairs) => {
            &&& exists|i: int| 0 <= i < new.cookies.len() && new.cookies@[i].0@ == tid@ && new.cookies@[i].1 == pairs
            &&& new == (AppState { cookies: new.cookies, ..old })
            &&& plain(cmds)
        },
        AppEvent::AutomationProgress(tid, step) => {
            &&& ws_changed(old.workspaces@, new.workspaces@, old.available_tabs@, tid@,
                |a: TabWorkspace, b: TabWorkspace| b == (TabWorkspace { auto_status: AutomationStatus::Running(step), ..a }))
            &&& new == (AppState { workspaces: new.workspaces, ..old })
            &&& plain(cmds)
        },
        AppEvent::AutomationFinished(tid) => {
            &&& ws_changed(old.workspaces@, new.workspaces@, old.available_tabs@, tid@,
                |a: TabWorkspace, b: TabWorkspace| b == (TabWorkspace { auto_status: AutomationStatus::Finished, ..a }))
            &&& new == (AppState { workspaces: new.workspaces, ..old })
            &&& plain(cmds)
        },
        AppEvent::AutomationError(tid, err) => {
            &&& ws_changed(old.workspaces@, new.workspaces@, old.available_tabs@, tid@,
                |a: TabWorkspace, b: TabWorkspace| b == (TabWorkspace { auto_status: AutomationStatus::Error(err), ..a }))
            &&& new == (AppState { workspaces: new.workspaces, ..old })
            &&& plain(cmds)
        },
        AppEvent::AutomationDatasetUpdated(tid, rows) => {
            &&& ws_changed(old.workspaces@, new.workspaces@, old.available_tabs@, tid@,
                |a: TabWorkspace, b: TabWorkspace| b == (TabWorkspace { extracted_data: rows, ..a }))
            &&& new == (AppState { workspaces: new.workspaces, ..old })
            &&& plain(cmds)
        },
        AppEvent::NetworkRequestSent(tid, req) => {
            &&& ws_changed(old.workspaces@, new.workspaces@, old.available_tabs@, tid@,
                |a: TabWorkspace, b: TabWorkspace| b == (TabWorkspace { network_requests: b.network_requests, ..a })
                    && b.network_requests@ == a.network_requests@.push(req))
            &&& new == (AppState { workspaces: new.workspaces, ..old })
            &&& plain(cmds)
        },
        AppEvent::NetworkResponseReceived(tid, rid, status, body) => {
            &&& ws_changed(old.workspaces@, new.workspaces@, old.available_tabs@, tid@,
                |a: TabWorkspace, b: TabWorkspace| b == (TabWorkspace { network_requests: b.network_requests, ..a })
                    && crate::workspace::response_recorded(a.network_requests@, b.network_requests@, rid@, status, body))
            &&& new == (AppState { workspaces: new.workspaces, ..old })
            &&& plain(cmds)
        },
        AppEvent::ScriptFinished(tid, raw) => {
            exists|n: Option<(NotificationLevel, String)>| {
                &&& ws_changed(old.workspaces@, new.workspaces@, old.available_tabs@, tid@,
                    |a: TabWorkspace, b: TabWorkspace| b.js_result@ == raw@ && crate::workspace::inspector_applied(
                        TabWorkspace { js_result: raw, ..a }, b,
                        match crate::cdp::json_string_value(raw@) { Some(v) => v, None => raw@ }, n))
                &&& match n {
                    Some((l, m)) => notify_spec(old, new, l, "Selector Inspector"@, m@),
                    None => new.notifications == old.notifications,
                }
                &&& new == (AppState { workspaces: new.workspaces, notifications: new.notifications, ..old })
                &&& plain(cmds)
            }
        },
        AppEvent::OperationSuccess(msg) => {
            &&& notify_spec(old, new, NotificationLevel::Success, "Success"@, msg@)
            &&& new == (AppState { notifications: new.notifications, ..old })
            &&& plain(cmds)
        },
        AppEvent::OperationError(msg) => {
            &&& notify_spec(old, new, NotificationLevel::Error, "Error"@, msg@)
            &&& new == (AppState { notifications: new.notifications, ..old })
            &&& plain(cmds)
        },
        AppEvent::ScriptingOutput(msg) => {
            &&& logs_view(new.logs@) == capped_push(logs_view(old.logs@), (now, "SCRIPT"@, msg@), MAX_LOGS as nat)
            &&& strs_view(new.script_output@) == capped_push(strs_view(old.script_output@), msg@, MAX_SCRIPT_OUTPUT as nat)
            &&& new == (AppState { logs: new.logs, script_output: new.script_output, ..old })
            &&& plain(cmds)
        },
        AppEvent::ScriptingCheckResult(report) => {
            &&& logs_view(new.logs@) == push_log_pairs(logs_view(old.logs@), now, report.diagnostics@.map_values(
                |d: crate::script_types::ScriptDiagnostic| (crate::dispatch::check_level(d.severity), crate::dispatch::check_message(d))))
            &&& notify_spec(old, new, if report.ok { NotificationLevel::Success } else { NotificationLevel::Error },
                "Scripting Check"@, if report.ok { "Check completed successfully."@ } else { "Check failed. See System Telemetry."@ })
            &&& new == (AppState { logs: new.logs, notifications: new.notifications, ..old })
            &&& plain(cmds)
        },
        AppEvent::ScriptingDryRunResult(lines) => {
            &&& logs_view(new.logs@) == push_log_lines(logs_view(old.logs@), now, "DRYRUN"@,
                strs_view(lines@).map_values(|l: Seq<char>| "[SCRIPT -> ENGINE] "@ + l))
            &&& notify_spec(old, new, NotificationLevel::Info, "Scripting Dry-Run"@, "Dry-run plan generated."@)
            &&& new == (AppState { logs: new.logs, notifications: new.notifications, ..old })
            &&& plain(cmds)
        },
        AppEvent::ScriptingDebugPlanResult(lines) => {
            &&& new.debug_plan == lines
            &&& debug_start(strs_view(lines@), old.break_condition@, new.debug_index as int)
            &&& notify_spec(old, new, NotificationLevel::Success, "Script Debugger"@, "Debug plan generated."@)
            &&& new == (AppState { debug_plan: new.debug_plan, debug_index: new.debug_index, notifications: new.notifications, ..old })
            &&& plain(cmds)
        },
        AppEvent::ScriptingFinished => {
            &&& !new.is_script_running
            &&& notify_spec(old, new, NotificationLevel::Success, "Scripting"@, "Script execution completed."@)
            &&& new == (AppState { is_script_running: false, notifications: new.notifications, ..old })
            &&& cmds == seq![Command::<C>::CancelScript]
        },
        AppEvent::ScriptingError(msg) => {
            &&& !new.is_script_running
            &&& logs_view(new.logs@) == push_log_lines(logs_view(old.logs@), now, "KB"@,
                hints_spec(lower_seq(msg@)).map_values(|h: Seq<char>| "[Hint] "@ + h))
            &&& new.script_error == Some(msg)
            &&& notify_spec(old, new, NotificationLevel::Error, "Scripting"@, msg@)
            &&& new == (AppState { is_script_running: false, logs: new.logs, script_error: new.script_error, notifications: new.notifications, ..old })
            &&& cmds == seq![Command::<C>::CancelScript]
        },
        AppEvent::RequestScriptingStop => {
            &&& notify_spec(old, new, NotificationLevel::Warn, "Scripting"@, "Stop requested."@)
            &&& new == (AppState { is_script_running: false, notifications: new.notifications, ..old })
            &&& cmds == seq![Command::<C>::CancelScript]
        },
        AppEvent::RequestScriptingRun(package, selected) => {
            if old.is_script_running {
                &&& notify_spec(old, new, NotificationLevel::Warn, "Scripting"@, "Another script is already running."@)
                &&& new == (AppState { notifications: new.notifications, ..old })
                &&& plain(cmds)
            } else {
                &&& new == (AppState { is_script_running: true, script_error: None, ..old })
                &&& cmds.len() == 1
                &&& (cmds[0] matches Command::RunScript(req) && request_for(old, package, selected, req))
            }
        },
        AppEvent::RequestScriptingCheck(package, selected) => {
            &&& new == old
            &&& cmds == seq![Command::<C>::CheckScript(package, target_or_selected(old, selected), old.check_preflight)]
        },
        AppEvent::RequestScriptingDryRun(package, selected) => {
            &&& new == old
            &&& cmds.len() == 1
            &&& (cmds[0] matches Command::DryRun(req) && request_for(old, package, target_or_selected(old, selected), req))
        },
        AppEvent::RequestScriptingDebugPlan(package, selected) => {
            &&& new == old
            &&& cmds.len() == 1
            &&& (cmds[0] matches Command::DebugPlan(req) && request_for(old, package, target_or_selected(old, selected), req))
        },
        AppEvent::RequestNetworkToggle(tid, active) => {
            if !active {
                &&& ids_kept(old.workspaces@, new.workspaces@)
                &&& forall|k: int| 0 <= k < new.workspaces.len() ==> (#[trigger] new.workspaces@[k]).1 == if old.workspaces@[k].0@ == tid@ {
                    TabWorkspace { sniffer_active: false, ..old.workspaces@[k].1 }
                } else {
                    old.workspaces@[k].1
                }
                &&& new == (AppState { workspaces: new.workspaces, ..old })
                &&& cmds == seq![Command::<C>::StopSniffer(tid)]
            } else {
                &&& new == (AppState { workspaces: new.workspaces, ..old })
                &&& {
                    ||| ws_changed(old.workspaces@, new.workspaces@, old.available_tabs@, tid@,
                        |a: TabWorkspace, b: TabWorkspace| !a.sniffer_active && b == (TabWorkspace { sniffer_active: true, ..a }))
                        && cmds == seq![Command::<C>::StartSniffer(tid)]
                    ||| ws_changed(old.workspaces@, new.workspaces@, old.available_tabs@, tid@,
                        |a: TabWorkspace, b: TabWorkspace| a.sniffer_active && b == a)
                        && cmds.len() == 0
                }
            }
        },
        AppEvent::RequestUrlBlock(tid, pattern) => url_block_effect(old, tid, pattern, new, cmds, true),
        AppEvent::RequestUrlUnblock(tid, pattern) => url_block_effect(old, tid, pattern, new, cmds, false),
        AppEvent::RequestAutomationRun(tid, dsl, config) => {
            &&& ws_changed(old.workspaces@, new.workspaces@, old.available_tabs@, tid@,
                |a: TabWorkspace, b: TabWorkspace| b == (TabWorkspace { auto_status: AutomationStatus::Running(0), ..a }))
            &&& new == (AppState { workspaces: new.workspaces, ..old })
            &&& cmds == seq![Command::<C>::RunAutomation(tid, dsl, config)]
        },
        AppEvent::RequestCookies(tid) => new == old && cmds == seq![Command::<C>::FetchCookies(tid)],
        AppEvent::RequestCookieDelete(tid, name, domain) => new == old && cmds == seq![Command::<C>::DeleteCookie(tid, name, domain)],
        AppEvent::RequestCookieAdd(tid, c) => new == old && cmds == seq![Command::<C>::AddCookie(tid, c)],
        AppEvent::RequestPageReload(tid) => new == old && cmds == seq![Command::<C>::ReloadPage(tid)],
        AppEvent::RequestTabRefresh => new == old && cmds == seq![Command::<C>::ListTabs],
        AppEvent::RequestScriptExecution(tid, script) => new == old && cmds == seq![Command::<C>::ExecuteScript(tid, script)],
        AppEvent::RequestPageSelectors(tid) => new == old && cmds == seq![Command::<C>::ScanSelectors(tid)],
        AppEvent::RequestCapture(tid, mode) => new == old && cmds == seq![Command::<C>::Capture(tid, mode)],
        AppEvent::RequestVideoDownload(_tid, url, name) => new == old && cmds == seq![Command::<C>::DownloadVideo(url, name)],
        AppEvent::RequestBlobDemask(tid) => new == old && cmds == seq![Command::<C>::DemaskBlobs(tid)],
    }
}

/// What any event does: one that needs the browser while it is down is
/// refused with a warning and nothing else; any other does what `arm_effect`
/// says.
pub open spec fn event_effect<C>(old: AppState, e: AppEvent<C>, new: AppState, cmds: Seq<Command<C>>, now: Seq<char>) -> bool {
    if !old.is_browser_running && browser_commands().contains(event_name(e)) {
        &&& cmds.len() == 0
        &&& notify_spec(old, new, NotificationLevel::Warn, "Denied"@, denied_message())
        &&& new == (AppState { notifications: new.notifications, ..old })
    } else {
        arm_effect(old, e, new, cmds, now)
    }
}

/// The media list of the tab's workspace, empty where it has none yet.
pub open spec fn media_before(ws: Seq<(String, TabWorkspace)>, tid: Seq<char>) -> Seq<MediaAsset>
    decreases ws.len(),
{
    if ws.len() == 0 {
        Seq::empty()
    } else if ws[0].0@ == tid {
        ws[0].1.media_assets@
    } else {
        media_before(ws.drop_first(), tid)
    }
}

proof fn lemma_media_before(ws: Seq<(String, TabWorkspace)>, tid: Seq<char>, i: int)
    requires
        no_repeats(workspace_ids(ws)),
        0 <= i < ws.len(),
        ws[i].0@ == tid,
    ensures
        media_before(ws, tid) == ws[i].1.media_assets@,
    decreases ws.len(),
{
    if i > 0 {
        assert(workspace_ids(ws)[0] != workspace_ids(ws)[i]);
        let d = ws.drop_first();
        assert(workspace_ids(d) =~= workspace_ids(ws).drop_first());
        assert(d[i - 1] == ws[i]);
        lemma_media_before(d, tid, i - 1);
    }
}

proof fn lemma_media_before_none(ws: Seq<(String, TabWorkspace)>, tid: Seq<char>)
    requires
        !workspace_ids(ws).contains(tid),
    ensures
        media_before(ws, tid) == Seq::<MediaAsset>::empty(),
    decreases ws.len(),
{
    if ws.len() > 0 {
        assert(workspace_ids(ws)[0] == ws[0].0@);
        let d = ws.drop_first();
        assert(workspace_ids(d) =~= workspace_ids(ws).drop_first());
        if workspace_ids(d).contains(tid) {
            let k = choose|k: int| 0 <= k < workspace_ids(d).len() && workspace_ids(d)[k] == tid;
            assert(workspace_ids(ws)[k + 1] == tid);
        }
        lemma_media_before_none(d, tid);
    }
}

/// What the de-masker makes of a tab's media list and its findings.
pub open spec fn demask_of(assets: Seq<MediaAsset>, maps: Seq<(String, String, String)>) -> crate::workspace::DemaskState {
    crate::workspace::demask_upto(
        crate::workspace::DemaskState { assets: crate::workspace::medias_view(assets), logs: Seq::empty(), added: 0 },
        maps,
        maps.len() as nat,
    )
}

/// The log after appending (level, message) pairs in order at `now`.
pub open spec fn push_log_pairs(
    logs: Seq<(Seq<char>, Seq<char>, Seq<char>)>,
    now: Seq<char>,
    pairs: Seq<(Seq<char>, Seq<char>)>,
) -> Seq<(Seq<char>, Seq<char>, Seq<char>)>
    decreases pairs.len(),
{
    if pairs.len() == 0 {
        logs
    } else {
        capped_push(push_log_pairs(logs, now, pairs.drop_last()), (now, pairs.last().0, pairs.last().1), MAX_LOGS as nat)
    }
}


// ---------------------------------------------------------------------------
// Handling
// ---------------------------------------------------------------------------

proof fn lemma_edit_keeps_wf(before: AppState, after: AppState, i: int)
    requires
        before.wf(),
        0 <= i < before.workspaces.len(),
        after.workspaces.len() == before.workspaces.len(),
        after.workspaces@[i].0 == before.workspaces@[i].0,
        no_repeats(strs_view(after.workspaces@[i].1.blocked_urls@)),
        forall|k: int| 0 <= k < before.workspaces.len() && k != i ==> after.workspaces@[k] == before.workspaces@[k],
    ensures
        after.wf(),
{
    assert(workspace_ids(after.workspaces@) =~= workspace_ids(before.workspaces@)) by {
        assert forall|k: int| 0 <= k < before.workspaces.len() implies after.workspaces@[k].0 == before.workspaces@[k].0 by {
            if k != i {
                assert(after.workspaces@[k] == before.workspaces@[k]);
            }
        }
    }
    assert forall|k: int| 0 <= k < after.workspaces@.len() implies no_repeats(
        strs_view((#[trigger] after.workspaces@[k]).1.blocked_urls@),
    ) by {
        if k != i {
            assert(after.workspaces@[k] == before.workspaces@[k]);
        }
    }
}

/// The request a script run, dry run or debug plan on `selected` gets.
pub fn script_request(state: &AppState, package: ScriptPackage, selected: Option<String>) -> (r: ScriptExecutionRequest)
    ensures
        request_for(*state, package, selected, r),
{
    let mut console: Vec<String> = Vec::new();
    let mut pairs: Vec<(String, String)> = Vec::new();
    match &selected {
        Some(t) => {
            let mut k: usize = 0;
            while k < state.workspaces.len()
                invariant
                    k <= state.workspaces.len(),
                decreases state.workspaces.len() - k,
            {
                if state.workspaces[k].0 == *t {
                    console = crate::text::clone_strings(&state.workspaces[k].1.console_logs);
                    break;
                }
                k += 1;
            }
            let mut c: usize = 0;
            while c < state.cookies.len()
                invariant
                    c <= state.cookies.len(),
                decreases state.cookies.len() - c,
            {
                if state.cookies[c].0 == *t {
                    pairs = clone_pairs(&state.cookies[c].1);
                    break;
                }
                c += 1;
            }
        },
        None => {},
    }
    ScriptExecutionRequest {
        package,
        selected_tab_id: selected,
        selected_tab_console_logs: console,
        selected_tab_cookies: StrMap::from_pairs(&pairs),
        break_condition: run_break_condition(state.break_condition.as_str()),
        emit_step_timing: true,
        apply_stealth: false,
        port: state.config.remote_debug_port,
        output_dir: state.config.output_dir.clone(),
    }
}

fn clone_pairs(v: &Vec<(String, String)>) -> (r: Vec<(String, String)>)
    ensures
        r@.len() == v@.len(),
{
    let mut out: Vec<(String, String)> = Vec::new();
    let mut i: usize = 0;
    while i < v.len()
        invariant
            i <= v.len(),
            out@.len() == i,
        decreases v.len() - i,
    {
        out.push((v[i].0.clone(), v[i].1.clone()));
        i += 1;
    }
    out
}

/// Applies one event at the host's clock reading `now` and returns the work
/// to start.
pub fn handle_event<C>(state: &mut AppState, event: AppEvent<C>, now: &str) -> (cmds: Vec<Command<C>>)
    requires
        old(state).wf(),
    ensures
        final(state).wf(),
        event_effect(*old(state), event, *final(state), cmds@, now@),
{
    if !command_allowed(event.name(), state.is_browser_running) {
        state.notify_level(NotificationLevel::Warn, "Denied", "Action Denied: Browser instance is not active.");
        return Vec::new();
    }
    handle_rest(state, event, now)
}

fn handle_rest<C>(state: &mut AppState, event: AppEvent<C>, now: &str) -> (cmds: Vec<Command<C>>)
    requires
        old(state).wf(),
    ensures
        final(state).wf(),
        arm_effect(*old(state), event, *final(state), cmds@, now@),
{
    match event {
        AppEvent::TabsUpdated(tabs) => on_tabs_updated(state, tabs, now),
        AppEvent::ConsoleLogAdded(tid, msg) => on_console_log_added(state, tid, msg, now),
        AppEvent::SelectorsReceived(tid, sels) => on_selectors_received(state, tid, sels, now),
        AppEvent::MediaCaptured(tid, asset) => on_media_captured(state, tid, asset, now),
        AppEvent::BlobDemaskResult(tid, maps) => on_blob_demask_result(state, tid, maps, now),
        AppEvent::CookiesReceived(tid, pairs) => on_cookies_received(state, tid, pairs, now),
        AppEvent::AutomationProgress(tid, step) => on_automation_progress(state, tid, step, now),
        AppEvent::AutomationFinished(tid) => on_automation_finished(state, tid, now),
        AppEvent::AutomationError(tid, err) => on_automation_error(state, tid, err, now),
        AppEvent::AutomationDatasetUpdated(tid, rows) => on_automation_dataset_updated(state, tid, rows, now),
        AppEvent::NetworkRequestSent(tid, req) => on_network_request_sent(state, tid, req, now),
        AppEvent::NetworkResponseReceived(tid, rid, status, body) => on_network_response_received(state, tid, rid, status, body, now),
        AppEvent::ScriptFinished(tid, raw) => on_script_finished(state, tid, raw, now),
        AppEvent::ScriptingOutput(msg) => on_scripting_output(state, msg, now),
        AppEvent::ScriptingCheckResult(report) => on_scripting_check_result(state, report, now),
        AppEvent::ScriptingDryRunResult(lines) => on_scripting_dry_run_result(state, lines, now),
        AppEvent::ScriptingDebugPlanResult(lines) => on_scripting_debug_plan_result(state, lines, now),
        AppEvent::ScriptingFinished => on_scripting_finished(state, now),
        AppEvent::ScriptingError(msg) => on_scripting_error(state, msg, now),
        AppEvent::RequestScriptingStop => on_request_scripting_stop(state, now),
        AppEvent::RequestScriptingRun(package, selected) => on_request_scripting_run(state, package, selected, now),
        AppEvent::RequestScriptingCheck(package, selected) => on_request_scripting_check(state, package, selected, now),
        AppEvent::RequestScriptingDryRun(package, selected) => on_request_scripting_dry_run(state, package, selected, now),
        AppEvent::RequestScriptingDebugPlan(package, selected) => on_request_scripting_debug_plan(state, package, selected, now),
        AppEvent::RequestNetworkToggle(tid, active) => on_request_network_toggle(state, tid, active, now),
        AppEvent::RequestUrlBlock(tid, pattern) => on_request_url_block(state, tid, pattern, now),
        AppEvent::RequestUrlUnblock(tid, pattern) => on_request_url_unblock(state, tid, pattern, now),
        AppEvent::RequestAutomationRun(tid, dsl, config) => on_request_automation_run(state, tid, dsl, config, now),
        AppEvent::BrowserTerminated => on_browser_lost(state, true, now),
        AppEvent::TerminateBrowser => on_browser_lost(state, false, now),
        other => on_simple(state, other, now),
    }
}

fn on_browser_lost<C>(state: &mut AppState, reported: bool, now: &str) -> (cmds: Vec<Command<C>>)
    requires
        old(state).wf(),
    ensures
        final(state).wf(),
        arm_effect(*old(state), if reported { AppEvent::<C>::BrowserTerminated } else { AppEvent::<C>::TerminateBrowser },
            *final(state), cmds@, now@),
{
    let mut cmds: Vec<Command<C>> = Vec::new();
    cmds.push(Command::TerminateBrowser);
    cmds.push(Command::StopAllSniffers);
    let ghost s0 = *state;
    state.browser_lost();
    proof {
        assert(ids_kept(s0.workspaces@, state.workspaces@));
        lemma_ids_kept(s0.workspaces@, state.workspaces@);
        assert forall|k: int| 0 <= k < state.workspaces@.len() implies no_repeats(
            strs_view((#[trigger] state.workspaces@[k]).1.blocked_urls@),
        ) by {
            assert(state.workspaces@[k].1.blocked_urls == s0.workspaces@[k].1.blocked_urls);
        }
    }
    state.notify_level(NotificationLevel::Error, "System", "Browser disconnected.");
    proof {
        let old = s0;
        let new = *state;
        assert(!new.is_browser_running);
        assert(new.available_tabs@.len() == 0);
        assert(ids_kept(old.workspaces@, new.workspaces@));
        assert(forall|k: int| 0 <= k < new.workspaces.len() ==> (#[trigger] new.workspaces@[k]).1 == (TabWorkspace {
                sniffer_active: false,
                ..old.workspaces@[k].1
            }));
        assert(new == (AppState {
                is_browser_running: false,
                available_tabs: new.available_tabs,
                selected_tab_id: None,
                workspaces: new.workspaces,
                notifications: new.notifications,
                ..old
            }));
        assert(notify_spec(old, new, NotificationLevel::Error, "System"@, "Browser disconnected."@));
        assert(cmds@ == seq![Command::<C>::TerminateBrowser, Command::<C>::StopAllSniffers]);
    }
    cmds
}

/// Events that only notify or only ask the host for work.
fn on_simple<C>(state: &mut AppState, event: AppEvent<C>, now: &str) -> (cmds: Vec<Command<C>>)
    requires
        old(state).wf(),
        event is RequestLogPathSet || event is BrowserStarted || event is OperationSuccess || event is OperationError
            || event is RequestCookies || event is RequestCookieDelete || event is RequestCookieAdd
            || event is RequestPageReload || event is RequestTabRefresh || event is RequestScriptExecution
            || event is RequestPageSelectors || event is RequestCapture || event is RequestVideoDownload
            || event is RequestBlobDemask,
    ensures
        final(state).wf(),
        arm_effect(*old(state), event, *final(state), cmds@, now@),
{
    let mut cmds: Vec<Command<C>> = Vec::new();
    match event {
        AppEvent::RequestLogPathSet(path) => cmds.push(Command::SetLogPath(path)),
        AppEvent::BrowserStarted => {
            state.is_browser_running = true;
            state.notify_level(NotificationLevel::Success, "System", "Browser connected.");
        },
        AppEvent::OperationSuccess(msg) => state.notify_level(NotificationLevel::Success, "Success", msg.as_str()),
        AppEvent::OperationError(msg) => state.notify_level(NotificationLevel::Error, "Error", msg.as_str()),
        AppEvent::RequestCookies(tid) => cmds.push(Command::FetchCookies(tid)),
        AppEvent::RequestCookieDelete(tid, name, domain) => cmds.push(Command::DeleteCookie(tid, name, domain)),
        AppEvent::RequestCookieAdd(tid, c) => cmds.push(Command::AddCookie(tid, c)),
        AppEvent::RequestPageReload(tid) => cmds.push(Command::ReloadPage(tid)),
        AppEvent::RequestTabRefresh => cmds.push(Command::ListTabs),
        AppEvent::RequestScriptExecution(tid, script) => cmds.push(Command::ExecuteScript(tid, script)),
        AppEvent::RequestPageSelectors(tid) => cmds.push(Command::ScanSelectors(tid)),
        AppEvent::RequestCapture(tid, mode) => cmds.push(Command::Capture(tid, mode)),
        AppEvent::RequestVideoDownload(_tid, url, name) => cmds.push(Command::DownloadVideo(url, name)),
        AppEvent::RequestBlobDemask(tid) => cmds.push(Command::DemaskBlobs(tid)),
        _ => {},
    }
    cmds
}

fn on_tabs_updated<C>(state: &mut AppState, tabs: Vec<ChromeTabInfo>, now: &str) -> (cmds: Vec<Command<C>>)
    requires
        old(state).wf(),
    ensures
        final(state).wf(),
        arm_effect(*old(state), AppEvent::<C>::TabsUpdated(tabs), *final(state), cmds@, now@),
{
    let mut cmds: Vec<Command<C>> = Vec::new();
    let ghost s0 = *state;
        state.available_tabs = tabs;
        let mut i: usize = 0;
        while i < state.workspaces.len()
            invariant
                i <= state.workspaces.len(),
                state.workspaces.len() == s0.workspaces.len(),
                *state == (AppState { available_tabs: state.available_tabs, workspaces: state.workspaces, ..s0 }),
                state.available_tabs == tabs,
                forall|k: int| 0 <= k < state.workspaces.len() ==> {
                    &&& (#[trigger] state.workspaces@[k]).0 == s0.workspaces@[k].0
                    &&& state.workspaces@[k].1 == (if k < i {
                        TabWorkspace { auto_reload_triggered: false, ..s0.workspaces@[k].1 }
                    } else {
                        s0.workspaces@[k].1
                    })
                },
            decreases state.workspaces.len() - i,
        {
            state.workspaces[i].1.auto_reload_triggered = false;
            i += 1;
        }
        proof {
            lemma_ids_kept(s0.workspaces@, state.workspaces@);
            assert forall|k: int| 0 <= k < state.workspaces@.len() implies no_repeats(
                strs_view((#[trigger] state.workspaces@[k]).1.blocked_urls@),
            ) by {
                assert(state.workspaces@[k].1.blocked_urls == s0.workspaces@[k].1.blocked_urls);
            }
        }
    cmds
}

fn on_console_log_added<C>(state: &mut AppState, tid: String, msg: String, now: &str) -> (cmds: Vec<Command<C>>)
    requires
        old(state).wf(),
    ensures
        final(state).wf(),
        arm_effect(*old(state), AppEvent::<C>::ConsoleLogAdded(tid, msg), *final(state), cmds@, now@),
{
    let mut cmds: Vec<Command<C>> = Vec::new();
    let ghost s0 = *state;
        let i = state.ensure_workspace(tid.as_str());
        let ghost s1 = *state;
        state.workspaces[i].1.console_logs.push(msg.clone());
        proof {
            assert(strs_view(state.workspaces@[i as int].1.console_logs@) =~= strs_view(
                s1.workspaces@[i as int].1.console_logs@,
            ).push(msg@));
            lemma_edit_keeps_wf(s1, *state, i as int);
            lemma_ws_changed(s0.workspaces@, s1.workspaces@, state.workspaces@, s0.available_tabs@, tid@, i as int,
                |a: TabWorkspace, b: TabWorkspace| b == (TabWorkspace { console_logs: b.console_logs, ..a })
                    && strs_view(b.console_logs@) == strs_view(a.console_logs@).push(msg@));
        }
        let a = concat3("[", tid.as_str(), "] ");
        let line = concat(a.as_str(), msg.as_str());
        state.log(now, "CHROME", line.clone());
        cmds.push(Command::WriteChromeLog(line));
    cmds
}

fn on_selectors_received<C>(state: &mut AppState, tid: String, sels: Vec<String>, now: &str) -> (cmds: Vec<Command<C>>)
    requires
        old(state).wf(),
    ensures
        final(state).wf(),
        arm_effect(*old(state), AppEvent::<C>::SelectorsReceived(tid, sels), *final(state), cmds@, now@),
{
    let mut cmds: Vec<Command<C>> = Vec::new();
    let ghost s0 = *state;
        let i = state.ensure_workspace(tid.as_str());
        let ghost s1 = *state;
        let ghost sv = sels;
        state.workspaces[i].1.discovered_selectors = sels;
        proof {
            lemma_edit_keeps_wf(s1, *state, i as int);
            lemma_ws_changed(s0.workspaces@, s1.workspaces@, state.workspaces@, s0.available_tabs@, tid@, i as int,
                |a: TabWorkspace, b: TabWorkspace| b == (TabWorkspace { discovered_selectors: sv, ..a }));
        }
    cmds
}

fn on_media_captured<C>(state: &mut AppState, tid: String, asset: MediaAsset, now: &str) -> (cmds: Vec<Command<C>>)
    requires
        old(state).wf(),
    ensures
        final(state).wf(),
        arm_effect(*old(state), AppEvent::<C>::MediaCaptured(tid, asset), *final(state), cmds@, now@),
{
    let mut cmds: Vec<Command<C>> = Vec::new();
    let ghost s0 = *state;
        let i = state.ensure_workspace(tid.as_str());
        let ghost s1 = *state;
        let ghost av = asset;
        state.workspaces[i].1.upsert_media(asset);
        proof {
            lemma_edit_keeps_wf(s1, *state, i as int);
            lemma_ws_changed(s0.workspaces@, s1.workspaces@, state.workspaces@, s0.available_tabs@, tid@, i as int,
                |a: TabWorkspace, b: TabWorkspace| b == (TabWorkspace { media_assets: b.media_assets, ..a })
                    && b.media_assets@ == if crate::workspace::urls_of(crate::workspace::medias_view(a.media_assets@)).contains(av.url@) {
                        a.media_assets@
                    } else {
                        a.media_assets@.push(av)
                    });
        }
    cmds
}

fn on_blob_demask_result<C>(state: &mut AppState, tid: String, maps: Vec<(String, String, String)>, now: &str) -> (cmds: Vec<Command<C>>)
    requires
        old(state).wf(),
    ensures
        final(state).wf(),
        arm_effect(*old(state), AppEvent::<C>::BlobDemaskResult(tid, maps), *final(state), cmds@, now@),
{
    let mut cmds: Vec<Command<C>> = Vec::new();
    let ghost s0 = *state;
    let i = state.ensure_workspace(tid.as_str());
    let ghost s1 = *state;
    proof {
        if workspace_ids(s0.workspaces@).contains(tid@) {
            lemma_media_before(s0.workspaces@, tid@, i as int);
        } else {
            lemma_media_before_none(s0.workspaces@, tid@);
            assert(s1.workspaces@[i as int].1.media_assets@.len() == 0);
            assert(s1.workspaces@[i as int].1.media_assets@ =~= Seq::<MediaAsset>::empty());
        }
        assert(s1.workspaces@[i as int].1.media_assets@ == media_before(s0.workspaces@, tid@));
    }
    let (lines, added) = state.workspaces[i].1.apply_blob_demask(&maps);
    proof {
        lemma_edit_keeps_wf(s1, *state, i as int);
        lemma_ws_changed(s0.workspaces@, s1.workspaces@, state.workspaces@, s0.available_tabs@, tid@, i as int,
            |a: TabWorkspace, b: TabWorkspace| b == (TabWorkspace { media_assets: b.media_assets, ..a })
                && crate::workspace::medias_view(b.media_assets@) == demask_of(media_before(s0.workspaces@, tid@), maps@).assets);
    }
    state.log_lines(now, "BLOB", lines);
    let (level, msg) = crate::workspace::demask_notice(added);
    state.notify_level(level, "De-Masker", msg.as_str());
    cmds
}

fn on_cookies_received<C>(state: &mut AppState, tid: String, pairs: Vec<(String, String)>, now: &str) -> (cmds: Vec<Command<C>>)
    requires
        old(state).wf(),
    ensures
        final(state).wf(),
        arm_effect(*old(state), AppEvent::<C>::CookiesReceived(tid, pairs), *final(state), cmds@, now@),
{
    let mut cmds: Vec<Command<C>> = Vec::new();
    let ghost s0 = *state;
        let ghost pv = pairs;
        match cookie_index(&state.cookies, &tid) {
            Some(k) => {
                state.cookies.set(k, (tid, pairs));
                assert(state.cookies@[k as int].1 == pv);
            },
            None => {
                state.cookies.push((tid, pairs));
                assert(state.cookies@[state.cookies.len() - 1].1 == pv);
            },
        }
    cmds
}

fn on_automation_progress<C>(state: &mut AppState, tid: String, step: usize, now: &str) -> (cmds: Vec<Command<C>>)
    requires
        old(state).wf(),
    ensures
        final(state).wf(),
        arm_effect(*old(state), AppEvent::<C>::AutomationProgress(tid, step), *final(state), cmds@, now@),
{
    let mut cmds: Vec<Command<C>> = Vec::new();
    let ghost s0 = *state;
        let i = state.ensure_workspace(tid.as_str());
        let ghost s1 = *state;
        state.workspaces[i].1.auto_status = AutomationStatus::Running(step);
        proof {
            lemma_edit_keeps_wf(s1, *state, i as int);
            lemma_ws_changed(s0.workspaces@, s1.workspaces@, state.workspaces@, s0.available_tabs@, tid@, i as int,
                |a: TabWorkspace, b: TabWorkspace| b == (TabWorkspace { auto_status: AutomationStatus::Running(step), ..a }));
        }
    cmds
}

fn on_automation_finished<C>(state: &mut AppState, tid: String, now: &str) -> (cmds: Vec<Command<C>>)
    requires
        old(state).wf(),
    ensures
        final(state).wf(),
        arm_effect(*old(state), AppEvent::<C>::AutomationFinished(tid), *final(state), cmds@, now@),
{
    let mut cmds: Vec<Command<C>> = Vec::new();
    let ghost s0 = *state;
        let i = state.ensure_workspace(tid.as_str());
        let ghost s1 = *state;
        state.workspaces[i].1.auto_status = AutomationStatus::Finished;
        proof {
            lemma_edit_keeps_wf(s1, *state, i as int);
            lemma_ws_changed(s0.workspaces@, s1.workspaces@, state.workspaces@, s0.available_tabs@, tid@, i as int,
                |a: TabWorkspace, b: TabWorkspace| b == (TabWorkspace { auto_status: AutomationStatus::Finished, ..a }));
        }
    cmds
}

fn on_automation_error<C>(state: &mut AppState, tid: String, err: String, now: &str) -> (cmds: Vec<Command<C>>)
    requires
        old(state).wf(),
    ensures
        final(state).wf(),
        arm_effect(*old(state), AppEvent::<C>::AutomationError(tid, err), *final(state), cmds@, now@),
{
    let mut cmds: Vec<Command<C>> = Vec::new();
    let ghost s0 = *state;
        let i = state.ensure_workspace(tid.as_str());
        let ghost s1 = *state;
        let ghost ev = err;
        state.workspaces[i].1.auto_status = AutomationStatus::Error(err);
        proof {
            lemma_edit_keeps_wf(s1, *state, i as int);
            lemma_ws_changed(s0.workspaces@, s1.workspaces@, state.workspaces@, s0.available_tabs@, tid@, i as int,
                |a: TabWorkspace, b: TabWorkspace| b == (TabWorkspace { auto_status: AutomationStatus::Error(ev), ..a }));
        }
    cmds
}

fn on_automation_dataset_updated<C>(state: &mut AppState, tid: String, rows: Vec<StrMap>, now: &str) -> (cmds: Vec<Command<C>>)
    requires
        old(state).wf(),
    ensures
        final(state).wf(),
        arm_effect(*old(state), AppEvent::<C>::AutomationDatasetUpdated(tid, rows), *final(state), cmds@, now@),
{
    let mut cmds: Vec<Command<C>> = Vec::new();
    let ghost s0 = *state;
        let i = state.ensure_workspace(tid.as_str());
        let ghost s1 = *state;
        let ghost rv = rows;
        state.workspaces[i].1.extracted_data = rows;
        proof {
            lemma_edit_keeps_wf(s1, *state, i as int);
            lemma_ws_changed(s0.workspaces@, s1.workspaces@, state.workspaces@, s0.available_tabs@, tid@, i as int,
                |a: TabWorkspace, b: TabWorkspace| b == (TabWorkspace { extracted_data: rv, ..a }));
        }
    cmds
}

fn on_network_request_sent<C>(state: &mut AppState, tid: String, req: NetworkRequest, now: &str) -> (cmds: Vec<Command<C>>)
    requires
        old(state).wf(),
    ensures
        final(state).wf(),
        arm_effect(*old(state), AppEvent::<C>::NetworkRequestSent(tid, req), *final(state), cmds@, now@),
{
    let mut cmds: Vec<Command<C>> = Vec::new();
    let ghost s0 = *state;
        let i = state.ensure_workspace(tid.as_str());
        let ghost s1 = *state;
        let ghost rq = req;
        state.workspaces[i].1.network_requests.push(req);
        proof {
            lemma_edit_keeps_wf(s1, *state, i as int);
            lemma_ws_changed(s0.workspaces@, s1.workspaces@, state.workspaces@, s0.available_tabs@, tid@, i as int,
                |a: TabWorkspace, b: TabWorkspace| b == (TabWorkspace { network_requests: b.network_requests, ..a })
                    && b.network_requests@ == a.network_requests@.push(rq));
        }
    cmds
}

fn on_network_response_received<C>(state: &mut AppState, tid: String, rid: String, status: u16, body: Option<String>, now: &str) -> (cmds: Vec<Command<C>>)
    requires
        old(state).wf(),
    ensures
        final(state).wf(),
        arm_effect(*old(state), AppEvent::<C>::NetworkResponseReceived(tid, rid, status, body), *final(state), cmds@, now@),
{
    let mut cmds: Vec<Command<C>> = Vec::new();
    let ghost s0 = *state;
        let i = state.ensure_workspace(tid.as_str());
        let ghost s1 = *state;
        let ghost bv = body;
        state.workspaces[i].1.record_response(rid.as_str(), status, body);
        proof {
            lemma_edit_keeps_wf(s1, *state, i as int);
            lemma_ws_changed(s0.workspaces@, s1.workspaces@, state.workspaces@, s0.available_tabs@, tid@, i as int,
                |a: TabWorkspace, b: TabWorkspace| b == (TabWorkspace { network_requests: b.network_requests, ..a })
                    && crate::workspace::response_recorded(a.network_requests@, b.network_requests@, rid@, status, bv));
        }
    cmds
}

fn on_script_finished<C>(state: &mut AppState, tid: String, raw: String, now: &str) -> (cmds: Vec<Command<C>>)
    requires
        old(state).wf(),
    ensures
        final(state).wf(),
        arm_effect(*old(state), AppEvent::<C>::ScriptFinished(tid, raw), *final(state), cmds@, now@),
{
    let mut cmds: Vec<Command<C>> = Vec::new();
    let ghost s0 = *state;
        let i = state.ensure_workspace(tid.as_str());
        let ghost s1 = *state;
        let ghost rv = raw;
        let notice = state.workspaces[i].1.script_finished(raw);
        proof {
            lemma_edit_keeps_wf(s1, *state, i as int);
            lemma_ws_changed(s0.workspaces@, s1.workspaces@, state.workspaces@, s0.available_tabs@, tid@, i as int,
                |a: TabWorkspace, b: TabWorkspace| b.js_result@ == rv@ && crate::workspace::inspector_applied(
                    TabWorkspace { js_result: rv, ..a }, b,
                    match crate::cdp::json_string_value(rv@) { Some(v) => v, None => rv@ }, notice));
        }
        let ghost s2 = *state;
        match &notice {
            Some((level, msg)) => state.notify_level(*level, "Selector Inspector", msg.as_str()),
            None => {},
        }
        proof {
            assert(ws_changed(s0.workspaces@, state.workspaces@, s0.available_tabs@, tid@,
                |a: TabWorkspace, b: TabWorkspace| b.js_result@ == rv@ && crate::workspace::inspector_applied(
                    TabWorkspace { js_result: rv, ..a }, b,
                    match crate::cdp::json_string_value(rv@) { Some(v) => v, None => rv@ }, notice)));
        }
    cmds
}

fn on_scripting_output<C>(state: &mut AppState, msg: String, now: &str) -> (cmds: Vec<Command<C>>)
    requires
        old(state).wf(),
    ensures
        final(state).wf(),
        arm_effect(*old(state), AppEvent::<C>::ScriptingOutput(msg), *final(state), cmds@, now@),
{
    let mut cmds: Vec<Command<C>> = Vec::new();
    let ghost s0 = *state;
        state.log(now, "SCRIPT", msg.clone());
        let ghost before = state.script_output@;
        push_capped(&mut state.script_output, msg, MAX_SCRIPT_OUTPUT);
        proof {
            assert(strs_view(state.script_output@) =~= capped_push(strs_view(before), msg@, MAX_SCRIPT_OUTPUT as nat));
        }
    cmds
}

fn on_scripting_check_result<C>(state: &mut AppState, report: ScriptingCheckReport, now: &str) -> (cmds: Vec<Command<C>>)
    requires
        old(state).wf(),
    ensures
        final(state).wf(),
        arm_effect(*old(state), AppEvent::<C>::ScriptingCheckResult(report), *final(state), cmds@, now@),
{
    let mut cmds: Vec<Command<C>> = Vec::new();
    let ghost s0 = *state;
        let lines = check_lines(&report);
        let ghost dv = report.diagnostics@.map_values(
            |d: crate::script_types::ScriptDiagnostic| (crate::dispatch::check_level(d.severity), crate::dispatch::check_message(d)));
        let mut k: usize = 0;
        while k < lines.len()
            invariant
                k <= lines.len(),
                lines.len() == report.diagnostics.len(),
                forall|j: int| 0 <= j < lines.len() ==> (#[trigger] lines@[j]).0@ == dv[j].0 && lines@[j].1@ == dv[j].1,
                dv.len() == report.diagnostics.len(),
                logs_view(state.logs@) == push_log_pairs(logs_view(s0.logs@), now@, dv.take(k as int)),
                *state == (AppState { logs: state.logs, ..s0 }),
            decreases lines.len() - k,
        {
            assert(dv.take(k + 1).drop_last() =~= dv.take(k as int));
            state.log(now, lines[k].0.as_str(), lines[k].1.clone());
            k += 1;
        }
        assert(dv.take(lines.len() as int) =~= dv);
        let (level, msg) = check_notice(report.ok);
        state.notify_level(level, "Scripting Check", msg.as_str());
    cmds
}

fn on_scripting_dry_run_result<C>(state: &mut AppState, lines: Vec<String>, now: &str) -> (cmds: Vec<Command<C>>)
    requires
        old(state).wf(),
    ensures
        final(state).wf(),
        arm_effect(*old(state), AppEvent::<C>::ScriptingDryRunResult(lines), *final(state), cmds@, now@),
{
    let mut cmds: Vec<Command<C>> = Vec::new();
    let ghost s0 = *state;
        let ghost lv = strs_view(lines@).map_values(|l: Seq<char>| "[SCRIPT -> ENGINE] "@ + l);
        let mut out: Vec<String> = Vec::new();
        let mut k: usize = 0;
        while k < lines.len()
            invariant
                k <= lines.len(),
                lv == strs_view(lines@).map_values(|l: Seq<char>| "[SCRIPT -> ENGINE] "@ + l),
                strs_view(out@) == lv.take(k as int),
            decreases lines.len() - k,
        {
            let ghost before = out@;
            out.push(concat("[SCRIPT -> ENGINE] ", lines[k].as_str()));
            proof {
                assert(lv[k as int] == "[SCRIPT -> ENGINE] "@ + lines@[k as int]@);
                assert(strs_view(out@) =~= strs_view(before).push(lv[k as int]));
                assert(lv.take(k + 1) =~= lv.take(k as int).push(lv[k as int]));
            }
            k += 1;
        }
        assert(lv.take(lines.len() as int) =~= lv);
        state.log_lines(now, "DRYRUN", out);
        state.notify_level(NotificationLevel::Info, "Scripting Dry-Run", "Dry-run plan generated.");
    cmds
}

fn on_scripting_debug_plan_result<C>(state: &mut AppState, lines: Vec<String>, now: &str) -> (cmds: Vec<Command<C>>)
    requires
        old(state).wf(),
    ensures
        final(state).wf(),
        arm_effect(*old(state), AppEvent::<C>::ScriptingDebugPlanResult(lines), *final(state), cmds@, now@),
{
    let mut cmds: Vec<Command<C>> = Vec::new();
    let ghost s0 = *state;
        state.debug_index = debug_plan_start(&lines, state.break_condition.as_str());
        state.debug_plan = lines;
        state.notify_level(NotificationLevel::Success, "Script Debugger", "Debug plan generated.");
    cmds
}

fn on_scripting_finished<C>(state: &mut AppState, now: &str) -> (cmds: Vec<Command<C>>)
    requires
        old(state).wf(),
    ensures
        final(state).wf(),
        arm_effect(*old(state), AppEvent::<C>::ScriptingFinished, *final(state), cmds@, now@),
{
    let mut cmds: Vec<Command<C>> = Vec::new();
    let ghost s0 = *state;
        state.is_script_running = false;
        cmds.push(Command::CancelScript);
        state.notify_level(NotificationLevel::Success, "Scripting", "Script execution completed.");
    cmds
}

fn on_scripting_error<C>(state: &mut AppState, msg: String, now: &str) -> (cmds: Vec<Command<C>>)
    requires
        old(state).wf(),
    ensures
        final(state).wf(),
        arm_effect(*old(state), AppEvent::<C>::ScriptingError(msg), *final(state), cmds@, now@),
{
    let mut cmds: Vec<Command<C>> = Vec::new();
    let ghost s0 = *state;
        state.is_script_running = false;
        cmds.push(Command::CancelScript);
        let hints = hint_lines(msg.as_str());
        state.log_lines(now, "KB", hints);
        state.script_error = Some(msg.clone());
        state.notify_level(NotificationLevel::Error, "Scripting", msg.as_str());
    cmds
}

fn on_request_scripting_stop<C>(state: &mut AppState, now: &str) -> (cmds: Vec<Command<C>>)
    requires
        old(state).wf(),
    ensures
        final(state).wf(),
        arm_effect(*old(state), AppEvent::<C>::RequestScriptingStop, *final(state), cmds@, now@),
{
    let mut cmds: Vec<Command<C>> = Vec::new();
    let ghost s0 = *state;
        state.is_script_running = false;
        cmds.push(Command::CancelScript);
        state.notify_level(NotificationLevel::Warn, "Scripting", "Stop requested.");
    cmds
}

fn on_request_scripting_run<C>(state: &mut AppState, package: ScriptPackage, selected: Option<String>, now: &str) -> (cmds: Vec<Command<C>>)
    requires
        old(state).wf(),
    ensures
        final(state).wf(),
        arm_effect(*old(state), AppEvent::<C>::RequestScriptingRun(package, selected), *final(state), cmds@, now@),
{
    let mut cmds: Vec<Command<C>> = Vec::new();
    let ghost s0 = *state;
        if state.is_script_running {
            state.notify_level(NotificationLevel::Warn, "Scripting", "Another script is already running.");
        } else {
            let req = script_request(state, package, selected);
            state.is_script_running = true;
            state.script_error = None;
            cmds.push(Command::RunScript(req));
        }
    cmds
}

fn on_request_scripting_check<C>(state: &mut AppState, package: ScriptPackage, selected: Option<String>, now: &str) -> (cmds: Vec<Command<C>>)
    requires
        old(state).wf(),
    ensures
        final(state).wf(),
        arm_effect(*old(state), AppEvent::<C>::RequestScriptingCheck(package, selected), *final(state), cmds@, now@),
{
    let mut cmds: Vec<Command<C>> = Vec::new();
    let ghost s0 = *state;
        let target = match selected {
            Some(t) => Some(t),
            None => clone_opt_string(&state.selected_tab_id),
        };
        cmds.push(Command::CheckScript(package, target, state.check_preflight));
    cmds
}

fn on_request_scripting_dry_run<C>(state: &mut AppState, package: ScriptPackage, selected: Option<String>, now: &str) -> (cmds: Vec<Command<C>>)
    requires
        old(state).wf(),
    ensures
        final(state).wf(),
        arm_effect(*old(state), AppEvent::<C>::RequestScriptingDryRun(package, selected), *final(state), cmds@, now@),
{
    let mut cmds: Vec<Command<C>> = Vec::new();
    let ghost s0 = *state;
        let target = match selected {
            Some(t) => Some(t),
            None => clone_opt_string(&state.selected_tab_id),
        };
        let req = script_request(state, package, target);
        cmds.push(Command::DryRun(req));
    cmds
}

fn on_request_scripting_debug_plan<C>(state: &mut AppState, package: ScriptPackage, selected: Option<String>, now: &str) -> (cmds: Vec<Command<C>>)
    requires
        old(state).wf(),
    ensures
        final(state).wf(),
        arm_effect(*old(state), AppEvent::<C>::RequestScriptingDebugPlan(package, selected), *final(state), cmds@, now@),
{
    let mut cmds: Vec<Command<C>> = Vec::new();
    let ghost s0 = *state;
        let target = match selected {
            Some(t) => Some(t),
            None => clone_opt_string(&state.selected_tab_id),
        };
        let req = script_request(state, package, target);
        cmds.push(Command::DebugPlan(req));
    cmds
}

fn on_request_network_toggle<C>(state: &mut AppState, tid: String, active: bool, now: &str) -> (cmds: Vec<Command<C>>)
    requires
        old(state).wf(),
    ensures
        final(state).wf(),
        arm_effect(*old(state), AppEvent::<C>::RequestNetworkToggle(tid, active), *final(state), cmds@, now@),
{
    let mut cmds: Vec<Command<C>> = Vec::new();
    let ghost s0 = *state;
        if !active {
            let mut k: usize = 0;
            while k < state.workspaces.len()
                invariant
                    k <= state.workspaces.len(),
                    state.workspaces.len() == s0.workspaces.len(),
                    *state == (AppState { workspaces: state.workspaces, ..s0 }),
                    forall|j: int| 0 <= j < state.workspaces.len() ==> {
                        &&& (#[trigger] state.workspaces@[j]).0 == s0.workspaces@[j].0
                        &&& state.workspaces@[j].1 == (if j < k && s0.workspaces@[j].0@ == tid@ {
                            TabWorkspace { sniffer_active: false, ..s0.workspaces@[j].1 }
                        } else {
                            s0.workspaces@[j].1
                        })
                    },
                decreases state.workspaces.len() - k,
            {
                if state.workspaces[k].0 == tid {
                    state.workspaces[k].1.toggle_sniffer(false);
                }
                k += 1;
            }
            proof {
                lemma_ids_kept(s0.workspaces@, state.workspaces@);
                assert forall|j: int| 0 <= j < state.workspaces@.len() implies no_repeats(
                    strs_view((#[trigger] state.workspaces@[j]).1.blocked_urls@),
                ) by {
                    assert(state.workspaces@[j].1.blocked_urls == s0.workspaces@[j].1.blocked_urls);
                }
            }
            cmds.push(Command::StopSniffer(tid));
        } else {
            let i = state.ensure_workspace(tid.as_str());
            let ghost s1 = *state;
            let start = state.workspaces[i].1.toggle_sniffer(true);
            proof {
                lemma_edit_keeps_wf(s1, *state, i as int);
                if start {
                    lemma_ws_changed(s0.workspaces@, s1.workspaces@, state.workspaces@, s0.available_tabs@, tid@, i as int,
                        |a: TabWorkspace, b: TabWorkspace| !a.sniffer_active && b == (TabWorkspace { sniffer_active: true, ..a }));
                } else {
                    assert(state.workspaces@[i as int].1 == s1.workspaces@[i as int].1);
                    lemma_ws_changed(s0.workspaces@, s1.workspaces@, state.workspaces@, s0.available_tabs@, tid@, i as int,
                        |a: TabWorkspace, b: TabWorkspace| a.sniffer_active && b == a);
                }
            }
            if start {
                cmds.push(Command::StartSniffer(tid));
            }
        }
    cmds
}

fn on_request_url_block<C>(state: &mut AppState, tid: String, pattern: String, now: &str) -> (cmds: Vec<Command<C>>)
    requires
        old(state).wf(),
    ensures
        final(state).wf(),
        url_block_effect(*old(state), tid, pattern, *final(state), cmds@, true),
{
    let mut cmds: Vec<Command<C>> = Vec::new();
    let ghost s0 = *state;
    let i = state.ensure_workspace(tid.as_str());
    let ghost s1 = *state;
    let list = state.workspaces[i].1.block_url(pattern.clone());
    proof {
        lemma_edit_keeps_wf(s1, *state, i as int);
        lemma_ws_changed(s0.workspaces@, s1.workspaces@, state.workspaces@, s0.available_tabs@, tid@, i as int,
            |a: TabWorkspace, b: TabWorkspace| b == (TabWorkspace { blocked_urls: b.blocked_urls, ..a })
                && strs_view(b.blocked_urls@).to_set() == block_list_after(strs_view(a.blocked_urls@).to_set(), pattern@, true));
        assert(ws_at(state.workspaces@, tid@, i as int));
    }
    cmds.push(Command::SetUrlBlocking(tid, list, pattern, true));
    cmds
}

fn on_request_url_unblock<C>(state: &mut AppState, tid: String, pattern: String, now: &str) -> (cmds: Vec<Command<C>>)
    requires
        old(state).wf(),
    ensures
        final(state).wf(),
        url_block_effect(*old(state), tid, pattern, *final(state), cmds@, false),
{
    let mut cmds: Vec<Command<C>> = Vec::new();
    let ghost s0 = *state;
    let i = state.ensure_workspace(tid.as_str());
    let ghost s1 = *state;
    let list = state.workspaces[i].1.unblock_url(pattern.as_str());
    proof {
        lemma_edit_keeps_wf(s1, *state, i as int);
        lemma_ws_changed(s0.workspaces@, s1.workspaces@, state.workspaces@, s0.available_tabs@, tid@, i as int,
            |a: TabWorkspace, b: TabWorkspace| b == (TabWorkspace { blocked_urls: b.blocked_urls, ..a })
                && strs_view(b.blocked_urls@).to_set() == block_list_after(strs_view(a.blocked_urls@).to_set(), pattern@, false));
        assert(ws_at(state.workspaces@, tid@, i as int));
    }
    cmds.push(Command::SetUrlBlocking(tid, list, pattern, false));
    cmds
}

fn on_request_automation_run<C>(state: &mut AppState, tid: String, dsl: AutomationDsl, config: ExecutionConfig, now: &str) -> (cmds: Vec<Command<C>>)
    requires
        old(state).wf(),
    ensures
        final(state).wf(),
        arm_effect(*old(state), AppEvent::<C>::RequestAutomationRun(tid, dsl, config), *final(state), cmds@, now@),
{
    let mut cmds: Vec<Command<C>> = Vec::new();
    let ghost s0 = *state;
        let i = state.ensure_workspace(tid.as_str());
        let ghost s1 = *state;
        state.workspaces[i].1.auto_status = AutomationStatus::Running(0);
        proof {
            lemma_edit_keeps_wf(s1, *state, i as int);
            lemma_ws_changed(s0.workspaces@, s1.workspaces@, state.workspaces@, s0.available_tabs@, tid@, i as int,
                |a: TabWorkspace, b: TabWorkspace| b == (TabWorkspace { auto_status: AutomationStatus::Running(0), ..a }));
        }
        cmds.push(Command::RunAutomation(tid, dsl, config));
    cmds
}

fn cookie_index(v: &Vec<(String, Vec<(String, String)>)>, tid: &String) -> (r: Option<usize>)
    ensures
        match r {
            Some(k) => k < v.len() && v@[k as int].0@ == tid@,
            None => true,
        },
{
    let mut k: usize = 0;
    while k < v.len()
        invariant
            k <= v.len(),
        decreases v.len() - k,
    {
        if v[k].0 == *tid {
            return Some(k);
        }
        k += 1;
    }
    None
}

fn clone_opt_string(o: &Option<String>) -> (r: Option<String>)
    ensures
        r == *o,
{
    match o {
        Some(s) => Some(s.clone()),
        None => None,
    }
}

} // verus!
