//! The state of the whole studio: the settings, the tabs the browser lists,
//! one workspace per tab, the log and the notification on show.
use vstd::prelude::*;
use crate::state::{AppConfig, ChromeTabInfo, LogEntry, Notification, NotificationLevel, Tab};
use crate::dispatch::{capped_push, push_capped, MAX_LOGS};
use crate::text::{own, strs_view};
use crate::workspace::{fresh_workspace, no_repeats, tab_title, workspace_title, TabWorkspace};

verus! {

broadcast use vstd::std_specs::vec::group_vec_axioms;

/// How many notifications are shown at once.
pub const MAX_NOTIFICATIONS: usize = 8;

pub struct AppState {
    pub active_tab: Tab,
    pub config: AppConfig,
    pub is_browser_running: bool,
    pub available_tabs: Vec<ChromeTabInfo>,
    pub selected_tab_id: Option<String>,
    /// The workspace of each tab, by tab id; no id occurs twice.
    pub workspaces: Vec<(String, TabWorkspace)>,
    pub logs: Vec<LogEntry>,
    pub session_timestamp: String,
    /// The notifications on show, oldest first; at most `MAX_NOTIFICATIONS`.
    pub notifications: Vec<Notification>,
    /// When the tab list was last refreshed, in milliseconds of the window's clock.
    pub last_tab_refresh_ms: u64,
    pub is_translating: bool,
    /// Setup steps the user has confirmed.
    pub output_confirmed: bool,
    pub profile_confirmed: bool,
    pub use_custom_profile: bool,
    /// The (name, value) cookies last read from each tab, by tab id.
    pub cookies: Vec<(String, Vec<(String, String)>)>,
    /// The latest script output lines, oldest first.
    pub script_output: Vec<String>,
    pub script_error: Option<String>,
    pub is_script_running: bool,
    /// The debugger's break condition as typed.
    pub break_condition: String,
    /// Whether `Check` also probes the script's selectors on the tab.
    pub check_preflight: bool,
    pub debug_plan: Vec<String>,
    pub debug_index: usize,
}

/// A notification as values.
pub open spec fn note_view(n: Notification) -> (NotificationLevel, Seq<char>, Seq<char>) {
    (n.level, n.title@, n.message@)
}

pub open spec fn notes_view(s: Seq<Notification>) -> Seq<(NotificationLevel, Seq<char>, Seq<char>)> {
    s.map_values(|n: Notification| note_view(n))
}

/// A log entry as values: time, level, message.
pub open spec fn log_view(e: LogEntry) -> (Seq<char>, Seq<char>, Seq<char>) {
    (e.timestamp@, e.level@, e.message@)
}

pub open spec fn logs_view(s: Seq<LogEntry>) -> Seq<(Seq<char>, Seq<char>, Seq<char>)> {
    s.map_values(|e: LogEntry| log_view(e))
}

/// The log after appending `lines` in order, each at `level` and `now`.
pub open spec fn push_log_lines(
    logs: Seq<(Seq<char>, Seq<char>, Seq<char>)>,
    now: Seq<char>,
    level: Seq<char>,
    lines: Seq<Seq<char>>,
) -> Seq<(Seq<char>, Seq<char>, Seq<char>)>
    decreases lines.len(),
{
    if lines.len() == 0 {
        logs
    } else {
        capped_push(push_log_lines(logs, now, level, lines.drop_last()), (now, level, lines.last()), MAX_LOGS as nat)
    }
}

/// Position `i` holds the workspace of tab `tid` (with no id repeated, the
/// only one).
pub open spec fn ws_at(ws: Seq<(String, TabWorkspace)>, tid: Seq<char>, i: int) -> bool {
    0 <= i < ws.len() && ws[i].0@ == tid
}

/// The tab ids that have a workspace, in order.
pub open spec fn workspace_ids(ws: Seq<(String, TabWorkspace)>) -> Seq<Seq<char>> {
    ws.map_values(|p: (String, TabWorkspace)| p.0@)
}

impl AppState {
    /// Each tab has at most one workspace.
    pub open spec fn wf(&self) -> bool {
        &&& no_repeats(workspace_ids(self.workspaces@))
        &&& forall|k: int| 0 <= k < self.workspaces@.len() ==> no_repeats(
            strs_view((#[trigger] self.workspaces@[k]).1.blocked_urls@),
        )
    }

    /// The state at start-up: the first page shown, no browser, no tabs, no
    /// workspaces, nothing logged or notified, setup not yet confirmed.
    pub fn new(config: AppConfig, session_ts: String) -> (r: Self)
        ensures
            r.wf(),
            r.active_tab == Tab::Scrape,
            r.config == config,
            !r.is_browser_running,
            r.available_tabs@.len() == 0,
            r.selected_tab_id is None,
            r.workspaces@.len() == 0,
            r.logs@.len() == 0,
            r.session_timestamp@ == session_ts@,
            r.notifications@.len() == 0,
            r.last_tab_refresh_ms == 0,
            !r.is_translating,
            !r.output_confirmed,
            !r.profile_confirmed,
            r.use_custom_profile,
            r.cookies@.len() == 0,
            r.script_output@.len() == 0,
            r.script_error is None,
            !r.is_script_running,
            r.break_condition@.len() == 0,
            r.check_preflight,
            r.debug_plan@.len() == 0,
            r.debug_index == 0,
    {
        AppState {
            active_tab: Tab::Scrape,
            config,
            is_browser_running: false,
            available_tabs: Vec::new(),
            selected_tab_id: None,
            workspaces: Vec::new(),
            logs: Vec::new(),
            session_timestamp: session_ts,
            notifications: Vec::new(),
            last_tab_refresh_ms: 0,
            is_translating: false,
            output_confirmed: false,
            profile_confirmed: false,
            use_custom_profile: true,
            cookies: Vec::new(),
            script_output: Vec::new(),
            script_error: None,
            is_script_running: false,
            break_condition: String::new(),
            check_preflight: true,
            debug_plan: Vec::new(),
            debug_index: 0,
        }
    }

    /// Queues a notification after the ones on show; where the queue is full,
    /// the oldest one goes. The flag marks errors.
    pub fn notify(&mut self, title: &str, message: &str, is_error: bool)
        ensures
            notes_view(final(self).notifications@) == capped_push(
                notes_view(old(self).notifications@),
                (if is_error { NotificationLevel::Error } else { NotificationLevel::Info }, title@, message@),
                MAX_NOTIFICATIONS as nat,
            ),
            *final(self) == (AppState { notifications: final(self).notifications, ..*old(self) }),
    {
        let level = if is_error { NotificationLevel::Error } else { NotificationLevel::Info };
        self.notify_level(level, title, message);
    }

    /// Queues a notification of the given level.
    pub fn notify_level(&mut self, level: NotificationLevel, title: &str, message: &str)
        ensures
            notes_view(final(self).notifications@) == capped_push(
                notes_view(old(self).notifications@),
                (level, title@, message@),
                MAX_NOTIFICATIONS as nat,
            ),
            *final(self) == (AppState { notifications: final(self).notifications, ..*old(self) }),
    {
        let n = Notification { level, title: own(title), message: own(message) };
        let ghost before = self.notifications@;
        push_capped(&mut self.notifications, n, MAX_NOTIFICATIONS);
        proof {
            assert(notes_view(self.notifications@) =~= capped_push(
                notes_view(before),
                (level, title@, message@),
                MAX_NOTIFICATIONS as nat,
            ));
        }
    }

    /// Appends a line to the system log.
    pub fn log(&mut self, now: &str, level: &str, message: String)
        ensures
            logs_view(final(self).logs@) == capped_push(
                logs_view(old(self).logs@),
                (now@, level@, message@),
                MAX_LOGS as nat,
            ),
            *final(self) == (AppState { logs: final(self).logs, ..*old(self) }),
    {
        let ghost m = message@;
        let e = LogEntry { timestamp: own(now), level: own(level), message };
        let ghost before = self.logs@;
        push_capped(&mut self.logs, e, MAX_LOGS);
        proof {
            assert(logs_view(self.logs@) =~= capped_push(logs_view(before), (now@, level@, m), MAX_LOGS as nat));
        }
    }

    /// Appends lines to the system log in order.
    pub fn log_lines(&mut self, now: &str, level: &str, lines: Vec<String>)
        ensures
            logs_view(final(self).logs@) == push_log_lines(logs_view(old(self).logs@), now@, level@, strs_view(lines@)),
            *final(self) == (AppState { logs: final(self).logs, ..*old(self) }),
    {
        let mut i: usize = 0;
        let ghost lv = strs_view(lines@);
        while i < lines.len()
            invariant
                i <= lines.len(),
                lv == strs_view(lines@),
                logs_view(self.logs@) == push_log_lines(logs_view(old(self).logs@), now@, level@, lv.take(i as int)),
                *self == (AppState { logs: self.logs, ..*old(self) }),
            decreases lines.len() - i,
        {
            let line = lines[i].clone();
            assert(lv.take(i + 1).drop_last() =~= lv.take(i as int));
            self.log(now, level, line);
            i += 1;
        }
        assert(lv.take(lines.len() as int) =~= lv);
    }

    /// Closes the notification at `index`, leaving the others in order.
    pub fn close_notification(&mut self, index: usize)
        ensures
            index < old(self).notifications.len() ==> final(self).notifications@ == old(self).notifications@.remove(
                index as int,
            ),
            index >= old(self).notifications.len() ==> final(self).notifications@ == old(self).notifications@,
            *final(self) == (AppState { notifications: final(self).notifications, ..*old(self) }),
    {
        if index < self.notifications.len() {
            self.notifications.remove(index);
        }
    }

    /// The browser went away (or was terminated): it is marked down, the tab
    /// list and the selection are cleared, and every tab's listener is off.
    pub fn browser_lost(&mut self)
        ensures
            !final(self).is_browser_running,
            final(self).available_tabs@.len() == 0,
            final(self).selected_tab_id is None,
            final(self).workspaces.len() == old(self).workspaces.len(),
            forall|k: int| 0 <= k < final(self).workspaces.len() ==> {
                &&& (#[trigger] final(self).workspaces@[k]).0 == old(self).workspaces@[k].0
                &&& final(self).workspaces@[k].1 == (TabWorkspace {
                    sniffer_active: false,
                    ..old(self).workspaces@[k].1
                })
            },
            *final(self) == (AppState {
                is_browser_running: false,
                available_tabs: final(self).available_tabs,
                selected_tab_id: None,
                workspaces: final(self).workspaces,
                ..*old(self)
            }),
    {
        self.is_browser_running = false;
        self.available_tabs = Vec::new();
        self.selected_tab_id = None;
        let mut i: usize = 0;
        while i < self.workspaces.len()
            invariant
                i <= self.workspaces.len(),
                self.workspaces.len() == old(self).workspaces.len(),
                !self.is_browser_running,
                self.available_tabs@.len() == 0,
                self.selected_tab_id is None,
                *self == (AppState {
                    is_browser_running: false,
                    available_tabs: self.available_tabs,
                    selected_tab_id: None,
                    workspaces: self.workspaces,
                    ..*old(self)
                }),
                forall|k: int| 0 <= k < self.workspaces.len() ==> {
                    &&& (#[trigger] self.workspaces@[k]).0 == old(self).workspaces@[k].0
                    &&& self.workspaces@[k].1 == (if k < i {
                        TabWorkspace { sniffer_active: false, ..old(self).workspaces@[k].1 }
                    } else {
                        old(self).workspaces@[k].1
                    })
                },
            decreases self.workspaces.len() - i,
        {
            self.workspaces[i].1.sniffer_active = false;
            i += 1;
        }
    }

    fn workspace_index(&self, tid: &str) -> (r: Option<usize>)
        ensures
            match r {
                Some(i) => i < self.workspaces.len() && self.workspaces@[i as int].0@ == tid@,
                None => !workspace_ids(self.workspaces@).contains(tid@),
            },
    {
        let want = own(tid);
        let mut i: usize = 0;
        while i < self.workspaces.len()
            invariant
                i <= self.workspaces.len(),
                want@ == tid@,
                forall|k: int| 0 <= k < i ==> #[trigger] self.workspaces@[k].0@ != tid@,
            decreases self.workspaces.len() - i,
        {
            if self.workspaces[i].0 == want {
                return Some(i);
            }
            i += 1;
        }
        proof {
            if workspace_ids(self.workspaces@).contains(tid@) {
                let k = choose|k: int|
                    0 <= k < workspace_ids(self.workspaces@).len() && workspace_ids(self.workspaces@)[k] == tid@;
                assert(self.workspaces@[k].0@ == tid@);
            }
        }
        None
    }

    /// Where the workspace of a tab stands, made on first use: titled after
    /// the first listed tab with that id, or `New Tab`.
    pub fn ensure_workspace(&mut self, tid: &str) -> (r: usize)
        requires
            old(self).wf(),
        ensures
            final(self).wf(),
            r < final(self).workspaces.len(),
            final(self).workspaces@[r as int].0@ == tid@,
            workspace_ids(old(self).workspaces@).contains(tid@) ==> *final(self) == *old(self),
            !workspace_ids(old(self).workspaces@).contains(tid@) ==> {
                &&& r == old(self).workspaces.len()
                &&& final(self).workspaces@.drop_last() == old(self).workspaces@
                &&& tab_title(old(self).available_tabs@, tid@, "New Tab"@, final(self).workspaces@[r as int].1.title@)
                &&& fresh_workspace(
                    final(self).workspaces@[r as int].1,
                    final(self).workspaces@[r as int].1.title@,
                )
                &&& *final(self) == (AppState { workspaces: final(self).workspaces, ..*old(self) })
            },
    {
        match self.workspace_index(tid) {
            Some(i) => {
                assert(workspace_ids(self.workspaces@)[i as int] == tid@);
                i
            },
            None => {
                let title = workspace_title(&self.available_tabs, tid, "New Tab");
                let ws = TabWorkspace::new(title);
                let ghost before = self.workspaces@;
                self.workspaces.push((own(tid), ws));
                proof {
                    assert(self.workspaces@.drop_last() =~= before);
                    assert(workspace_ids(self.workspaces@) =~= workspace_ids(before).push(tid@));
                    assert forall|a: int, b: int|
                        0 <= a < b < workspace_ids(self.workspaces@).len() implies workspace_ids(
                        self.workspaces@,
                    )[a] != workspace_ids(self.workspaces@)[b] by {
                        if b == before.len() {
                            assert(workspace_ids(before)[a] == workspace_ids(self.workspaces@)[a]);
                        }
                    }
                }
                self.workspaces.len() - 1
            },
        }
    }
}

} // verus!
