use sniper_studio::app_state::AppState;
use sniper_studio::state::{AppConfig, ChromeTabInfo, MediaAsset, NetworkRequest, NotificationLevel, Tab};
use sniper_studio::workspace::{demask_notice, workspace_title, Panel, PanelRequest, TabWorkspace};

fn asset(url: &str, name: &str) -> MediaAsset {
    MediaAsset { name: name.to_string(), url: url.to_string(), mime_type: "image/png".to_string(), size_bytes: 3, data: None }
}

fn req(id: &str) -> NetworkRequest {
    NetworkRequest {
        request_id: id.to_string(),
        url: format!("https://x/{}", id),
        method: "GET".to_string(),
        resource_type: "Fetch".to_string(),
        status: None,
        request_body: Some("q".to_string()),
        response_body: None,
    }
}

#[test]
fn new_workspace_is_empty() {
    let ws = TabWorkspace::new("Title".to_string());
    assert_eq!(ws.title, "Title");
    assert!(ws.media_assets.is_empty());
    assert_eq!(ws.media_sort_col, "name");
    assert!(ws.media_sort_asc);
    assert!(!ws.sniffer_active);
}

#[test]
fn media_urls_stay_unique() {
    let mut ws = TabWorkspace::new("t".to_string());
    assert!(ws.upsert_media(asset("https://a/1.png", "1.png")));
    assert!(ws.upsert_media(asset("https://a/2.png", "2.png")));
    assert!(!ws.upsert_media(asset("https://a/1.png", "other")));
    assert_eq!(ws.media_assets.len(), 2);
    assert_eq!(ws.media_assets[0].name, "1.png");
}

#[test]
fn response_fills_first_matching_request() {
    let mut ws = TabWorkspace::new("t".to_string());
    ws.network_requests.push(req("r1"));
    ws.network_requests.push(req("r2"));
    ws.record_response("r2", 404, Some("nope".to_string()));
    assert_eq!(ws.network_requests[1].status, Some(404));
    assert_eq!(ws.network_requests[1].response_body, Some("nope".to_string()));
    assert_eq!(ws.network_requests[1].request_body, Some("q".to_string()));
    assert_eq!(ws.network_requests[0].status, None);
    ws.record_response("missing", 200, None);
    assert_eq!(ws.network_requests[0].status, None);
}

#[test]
fn sniffer_starts_once() {
    let mut ws = TabWorkspace::new("t".to_string());
    assert!(ws.toggle_sniffer(true));
    assert!(!ws.toggle_sniffer(true));
    assert!(!ws.toggle_sniffer(false));
    assert!(!ws.sniffer_active);
    assert!(ws.toggle_sniffer(true));
}

#[test]
fn block_list_behaves_as_a_set() {
    let mut ws = TabWorkspace::new("t".to_string());
    let l = ws.block_url("*.ads.com".to_string());
    assert_eq!(l, vec!["*.ads.com".to_string()]);
    let l = ws.block_url("*.ads.com".to_string());
    assert_eq!(l.len(), 1);
    let l = ws.block_url("track".to_string());
    assert_eq!(l.len(), 2);
    let l = ws.unblock_url("*.ads.com");
    assert_eq!(l, vec!["track".to_string()]);
    let l = ws.unblock_url("absent");
    assert_eq!(l, vec!["track".to_string()]);
}

#[test]
fn blob_demask_adds_new_urls_only() {
    let mut ws = TabWorkspace::new("t".to_string());
    ws.upsert_media(asset("https://cdn/known.mp4", "known.mp4"));
    let maps = vec![
        ("blob:a".to_string(), "".to_string(), "unresolved".to_string()),
        ("blob:b".to_string(), "https://cdn/known.mp4".to_string(), "recent_fallback".to_string()),
        ("blob:c".to_string(), "https://cdn/v/seg.m3u8?tok=1".to_string(), "recent_same_type".to_string()),
    ];
    let (logs, added) = ws.apply_blob_demask(&maps);
    assert_eq!(added, 1);
    assert_eq!(logs, vec![
        "Unresolved blob: blob:a (unresolved)".to_string(),
        "Resolved blob:c -> https://cdn/v/seg.m3u8?tok=1 (recent_same_type)".to_string(),
    ]);
    assert_eq!(ws.media_assets.len(), 2);
    assert_eq!(ws.media_assets[1].name, "seg.m3u8");
    assert_eq!(ws.media_assets[1].mime_type, "video/blob-demasked");
    assert_eq!(ws.media_assets[1].size_bytes, 0);
    let (level, msg) = demask_notice(added);
    assert_eq!(level, NotificationLevel::Success);
    assert_eq!(msg, "Blob de-mask completed. Added 1 resolved URL(s).");
    assert_eq!(demask_notice(0).0, NotificationLevel::Warn);
}

#[test]
fn inspector_reports() {
    let mut ws = TabWorkspace::new("t".to_string());
    let r = ws.script_finished("\"SNIPER_SELECTOR_ARMED\"".to_string());
    assert!(ws.selector_inspector_armed);
    assert_eq!(ws.js_result, "\"SNIPER_SELECTOR_ARMED\"");
    assert_eq!(r.unwrap().1, "Inspector armed. Click any element on the page, then Fetch.");
    let r = ws.script_finished("\"SNIPER_SELECTOR_VALUE:  #main > a  \"".to_string());
    assert!(!ws.selector_inspector_armed);
    assert_eq!(ws.selector_search, "#main > a");
    assert_eq!(ws.discovered_selectors, vec!["#main > a".to_string()]);
    let (level, msg) = r.unwrap();
    assert_eq!(level, NotificationLevel::Success);
    assert_eq!(msg, "Captured selector: #main > a");
    ws.script_finished("SNIPER_SELECTOR_VALUE:.b".to_string());
    ws.script_finished("SNIPER_SELECTOR_VALUE:#main > a".to_string());
    assert_eq!(ws.discovered_selectors, vec![".b".to_string(), "#main > a".to_string()]);
    let r = ws.script_finished("SNIPER_SELECTOR_VALUE: NONE".to_string());
    assert_eq!(r.unwrap(), (NotificationLevel::Warn, "No selector captured yet.".to_string()));
    let r = ws.script_finished("SNIPER_SELECTOR_CLEARED".to_string());
    assert_eq!(r.unwrap().1, "Inspector state cleared.");
    assert!(ws.script_finished("42".to_string()).is_none());
}

#[test]
fn panels_and_titles() {
    let mut ws = TabWorkspace::new("t".to_string());
    assert_eq!(ws.open_panel(Panel::Cookie), PanelRequest::FetchCookies);
    assert!(ws.show_storage);
    assert_eq!(ws.open_panel(Panel::Media), PanelRequest::ListenNetwork);
    assert!(ws.show_media);
    let tabs = vec![ChromeTabInfo {
        id: "T1".to_string(),
        title: "Home".to_string(),
        url: "https://x".to_string(),
        tab_type: "page".to_string(),
    }];
    assert_eq!(workspace_title(&tabs, "T1", "New Tab"), "Home");
    assert_eq!(workspace_title(&tabs, "T2", "New Tab"), "New Tab");
}

#[test]
fn unblock_after_block_restores_list() {
    let mut ws = TabWorkspace::new("t".to_string());
    ws.block_url("*.ads.example/*".to_string());
    let before = ws.blocked_urls.clone();
    ws.block_url("*.tracker.example/*".to_string());
    ws.block_url("*.tracker.example/*".to_string());
    assert_eq!(ws.blocked_urls.len(), 2);
    let after = ws.unblock_url("*.tracker.example/*");
    assert_eq!(after, before);
}

#[test]
fn app_state_workspaces_and_notifications() {
    let mut st = AppState::new(AppConfig::default(), "20240101_000000".to_string());
    assert!(matches!(st.active_tab, Tab::Scrape));
    assert!(st.notifications.is_empty());
    assert!(st.use_custom_profile);
    st.available_tabs.push(ChromeTabInfo {
        id: "A".to_string(),
        title: "Alpha".to_string(),
        url: "https://a".to_string(),
        tab_type: "page".to_string(),
    });
    let a = st.ensure_workspace("A");
    let b = st.ensure_workspace("B");
    assert_eq!(st.ensure_workspace("A"), a);
    assert_eq!(st.workspaces.len(), 2);
    assert_eq!(st.workspaces[a].1.title, "Alpha");
    assert_eq!(st.workspaces[b].1.title, "New Tab");
    st.notify("System", "Browser connected.", false);
    st.notify("Error", "Script failed", true);
    assert_eq!(st.notifications.len(), 2);
    let n = &st.notifications[0];
    assert_eq!((n.title.as_str(), n.message.as_str()), ("System", "Browser connected."));
    for k in 0..10 {
        st.notify("Info", &format!("note {}", k), false);
    }
    assert_eq!(st.notifications.len(), sniper_studio::app_state::MAX_NOTIFICATIONS);
    assert_eq!(st.notifications.last().unwrap().message, "note 9");
    st.close_notification(0);
    assert_eq!(st.notifications.len(), sniper_studio::app_state::MAX_NOTIFICATIONS - 1);
}
