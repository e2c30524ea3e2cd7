//! The stand-alone scraper: how it launches Chromium, which targets it
//! lists, and where it saves a captured page; and the asset downloader's
//! verdict on a response.
use vstd::prelude::*;
use crate::browser::{filter_page_tabs, keep, keeps_tab, page_file_name, page_file_spec};
use crate::dom::{host_and_path, url_host_and_path};
use crate::state::ChromeTabInfo;
use crate::text::{concat, concat3, dec_seq, own, push_str, strs_view, u64_to_string};

verus! {

/// Launches Chromium, lists its pages and captures a page's HTML.
pub struct Scraper;

impl Scraper {
    /// The Chromium command line: a sandbox-less, quiet instance with remote
    /// debugging on `port`, the given profile, opening `target_url`.
    pub fn launch_args(target_url: &str, profile: &str, port: u16) -> (r: Vec<String>)
        ensures
            strs_view(r@) == seq![
                "--no-sandbox"@,
                "--remote-debugging-port="@ + dec_seq(port as nat),
                "--remote-allow-origins=*"@,
                "--disable-features=OptimizationGuideModelDownloading,OnDeviceModel"@,
                "--disable-background-networking"@,
                "--disable-sync"@,
                "--no-first-run"@,
                "--user-data-dir="@ + profile@,
                target_url@,
            ],
    {
        let mut v: Vec<String> = Vec::new();
        push_str(&mut v, own("--no-sandbox"));
        push_str(&mut v, concat("--remote-debugging-port=", u64_to_string(port as u64).as_str()));
        push_str(&mut v, own("--remote-allow-origins=*"));
        push_str(&mut v, own("--disable-features=OptimizationGuideModelDownloading,OnDeviceModel"));
        push_str(&mut v, own("--disable-background-networking"));
        push_str(&mut v, own("--disable-sync"));
        push_str(&mut v, own("--no-first-run"));
        push_str(&mut v, concat("--user-data-dir=", profile));
        push_str(&mut v, own(target_url));
        assert(strs_view(v@) =~= seq![
            "--no-sandbox"@,
            "--remote-debugging-port="@ + dec_seq(port as nat),
            "--remote-allow-origins=*"@,
            "--disable-features=OptimizationGuideModelDownloading,OnDeviceModel"@,
            "--disable-background-networking"@,
            "--disable-sync"@,
            "--no-first-run"@,
            "--user-data-dir="@ + profile@,
            target_url@,
        ]);
        v
    }

    /// Where Chromium's output goes: `logs/chrome.<timestamp>.log`.
    pub fn chrome_log_path(timestamp: &str) -> (r: String)
        ensures
            r@ == "logs/chrome."@ + timestamp@ + ".log"@,
    {
        concat3("logs/chrome.", timestamp, ".log")
    }

    /// The targets worth listing: pages with a real URL (not blank), in order.
    pub fn page_tabs(tabs: &Vec<ChromeTabInfo>) -> (r: Vec<ChromeTabInfo>)
        ensures
            r@ == keep(tabs@, |t: ChromeTabInfo| keeps_tab(t, true)),
    {
        filter_page_tabs(tabs, true)
    }

    /// Where a captured page is saved below the chosen root: a folder named
    /// after the page's host (`unknown_site` without one) and a file named
    /// after its path. `None` where the page's URL does not parse.
    pub fn capture_target(current_url: &str) -> (r: Option<(String, String)>)
        ensures
            match url_host_and_path(current_url@) {
                None => r is None,
                Some((host, path)) => r matches Some((d, f)) && d@ == (match host {
                    Some(h) => h,
                    None => "unknown_site"@,
                }) && f@ == page_file_spec(path),
            },
    {
        match host_and_path(current_url) {
            None => None,
            Some((host, path)) => {
                let domain = match host {
                    Some(h) => h,
                    None => own("unknown_site"),
                };
                let file = page_file_name(path.as_str());
                Some((domain, file))
            },
        }
    }
}

/// Fetches single assets into files.
pub struct Downloader;

impl Downloader {
    /// The verdict on a download's HTTP status: success for 2xx, otherwise
    /// the message naming the URL and the status as the client shows it.
    pub fn status_check(url: &str, status: u16, status_text: &str) -> (r: Result<(), String>)
        ensures
            (200 <= status < 300) ==> r is Ok,
            !(200 <= status < 300) ==> (r matches Err(m) && m@ == "Failed to download: "@ + url@ + " (Status: "@
                + status_text@ + ")"@),
    {
        if 200 <= status && status < 300 {
            Ok(())
        } else {
            let a = concat3("Failed to download: ", url, " (Status: ");
            Err(concat3(a.as_str(), status_text, ")"))
        }
    }
}

} // verus!
