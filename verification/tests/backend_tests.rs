use sniper_studio::backend::{Downloader, Scraper};
use sniper_studio::sniffer::{body_bytes, captured_asset, console_text, media_to_capture, request_sent, ResponseTable};
use sniper_studio::state::ChromeTabInfo;
use sniper_studio::templates::library_at;

fn tab(id: &str, t: &str, url: &str) -> ChromeTabInfo {
    ChromeTabInfo { id: id.to_string(), title: id.to_string(), url: url.to_string(), tab_type: t.to_string() }
}

#[test]
fn scraper_command_line() {
    let a = Scraper::launch_args("https://x.org", "/p", 9333);
    assert_eq!(a[1], "--remote-debugging-port=9333");
    assert_eq!(a[7], "--user-data-dir=/p");
    assert_eq!(a.last().unwrap(), "https://x.org");
    assert_eq!(a.len(), 9);
    assert_eq!(Scraper::chrome_log_path("123"), "logs/chrome.123.log");
}

#[test]
fn scraper_lists_real_pages() {
    let tabs = vec![tab("a", "page", "https://x"), tab("b", "page", "about:blank"), tab("c", "iframe", "https://y"), tab("d", "page", "")];
    let pages = Scraper::page_tabs(&tabs);
    assert_eq!(pages.len(), 1);
    assert_eq!(pages[0].id, "a");
}

#[test]
fn scraper_capture_target() {
    assert_eq!(Scraper::capture_target("https://site.com/user/profil"), Some(("site.com".to_string(), "user.profil.html".to_string())));
    assert_eq!(Scraper::capture_target("https://site.com/"), Some(("site.com".to_string(), "index.html".to_string())));
    assert_eq!(Scraper::capture_target("data:text/plain,hi"), Some(("unknown_site".to_string(), "text.plain.hi.html".to_string())));
    assert_eq!(Scraper::capture_target("not a url"), None);
}

#[test]
fn download_status() {
    assert!(Downloader::status_check("u", 204, "204 No Content").is_ok());
    assert_eq!(Downloader::status_check("https://a/b", 404, "404 Not Found"), Err("Failed to download: https://a/b (Status: 404 Not Found)".to_string()));
}

#[test]
fn listener_rows_and_console() {
    let r = request_sent("1".into(), "https://a".into(), "GET".into(), None);
    assert_eq!(r.resource_type, "Other");
    assert_eq!(r.status, None);
    assert_eq!(console_text(&vec![Some("a".into()), None, Some("3".into())]), "a undefined 3");
    assert_eq!(console_text(&vec![]), "");
}

#[test]
fn finished_responses() {
    let mut t = ResponseTable::new();
    t.insert("r1".into(), "https://a/x.css".into(), "text/css".into());
    t.insert("r2".into(), "https://a/page".into(), "text/html".into());
    t.insert("r3".into(), "https://a/v.m3u8".into(), "application/vnd.apple.mpegurl".into());
    let (u, m, c) = media_to_capture(&mut t, "r1").unwrap();
    assert_eq!((u.as_str(), m.as_str()), ("https://a/x.css", "text/css"));
    assert!(c.sniffable && !c.is_video);
    assert!(media_to_capture(&mut t, "r1").is_none());
    assert!(media_to_capture(&mut t, "r2").is_none());
    let (_, _, c) = media_to_capture(&mut t, "r3").unwrap();
    assert!(c.is_video && c.wants_thumbnail);
    assert!(t.take("r2").is_none());
}

#[test]
fn bodies_and_assets() {
    assert_eq!(body_bytes("aGk=", true), Some(b"hi".to_vec()));
    assert_eq!(body_bytes("***", true), None);
    assert_eq!(body_bytes("hé", false), Some("hé".as_bytes().to_vec()));
    let a = captured_asset("https://a/b/c.png".into(), "image/png".into(), vec![1, 2, 3]);
    assert_eq!(a.name, "c.png");
    assert_eq!(a.size_bytes, 3);
}

#[test]
fn template_library() {
    let lib = library_at(77);
    assert_eq!(lib.len(), 10);
    assert_eq!(lib[0].id, "quick_capture");
    assert_eq!(lib[0].title, "Quick Capture");
    assert_eq!(lib[0].package.name, "quick_capture");
    assert_eq!(lib[0].package.entry, "main");
    assert_eq!(lib[0].package.created_at, 77);
    assert_eq!(lib[0].package.tags, vec!["template".to_string(), "capture".to_string(), "starter".to_string()]);
    assert_eq!(lib[9].id, "api_surface_reference");
    assert!(lib.iter().all(|t| t.package.code.contains("fn main()")));
}
