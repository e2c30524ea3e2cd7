use sniper_studio::panels::{asset_matches, asset_name, request_matches};
use sniper_studio::pipeline_editor::{
    add_function, add_variable, can_start, category_title, new_step, remove_function, run_label, step_category,
    NewStepKind, StepCategory,
};
use sniper_studio::state::{AutomationStatus, AutomationStep, MediaAsset, NetworkRequest, UiFunction};
use sniper_studio::strmap::StrMap;
use sniper_studio::studio::find_template;
use sniper_studio::templates::library;

fn request(url: &str, kind: &str, status: Option<u16>) -> NetworkRequest {
    NetworkRequest {
        request_id: "1".to_string(),
        url: url.to_string(),
        method: "GET".to_string(),
        resource_type: kind.to_string(),
        status,
        request_body: None,
        response_body: None,
    }
}

fn media(name: &str, url: &str, mime: &str, size: usize) -> MediaAsset {
    MediaAsset { name: name.to_string(), url: url.to_string(), mime_type: mime.to_string(), size_bytes: size, data: None }
}

#[test]
fn network_filters() {
    let none: Vec<String> = Vec::new();
    let all = String::new();
    let r = request("https://Example.com/API/items", "Fetch", Some(200));
    assert!(request_matches(&r, "api", &all, &none));
    assert!(!request_matches(&r, "missing", &all, &none));
    assert!(request_matches(&r, "", &"ok".to_string(), &none));
    assert!(!request_matches(&r, "", &"error".to_string(), &none));
    assert!(request_matches(&request("https://x/y", "Document", Some(404)), "", &"error".to_string(), &none));
    assert!(!request_matches(&request("https://x/y", "Document", None), "", &"ok".to_string(), &none));
    assert!(request_matches(&r, "", &all, &vec!["XHR".to_string()]));
    assert!(!request_matches(&r, "", &all, &vec!["JS".to_string()]));
    assert!(request_matches(&r, "", &all, &vec!["OTHER".to_string()]));
    assert!(request_matches(&request("https://x/a.js", "Script", None), "", &all, &vec!["JS".to_string()]));
}

#[test]
fn media_filters() {
    let none: Vec<String> = Vec::new();
    let img = media("logo.png", "https://x/logo.png", "image/png", 4096);
    assert!(asset_matches(&img, "LOGO", 0, &none));
    assert!(asset_matches(&img, "", 4, &none));
    assert!(!asset_matches(&img, "", 5, &none));
    assert!(asset_matches(&img, "", 0, &vec!["IMAGE".to_string()]));
    assert!(!asset_matches(&img, "", 0, &vec!["VIDEO".to_string()]));
    let hls = media("index.m3u8", "https://x/Index.M3U8", "application/octet-stream", 10);
    assert!(asset_matches(&hls, "", 0, &vec!["VIDEO".to_string()]));
    assert_eq!(asset_name("https://cdn.x/a/b/clip.mp4"), "clip.mp4");
    assert_eq!(asset_name("no-slash"), "no-slash");
}

#[test]
fn block_categories_and_new_blocks() {
    assert_eq!(step_category(&AutomationStep::Click("#a".to_string())), StepCategory::Act);
    assert_eq!(step_category(&AutomationStep::Wait(2)), StepCategory::Wait);
    assert_eq!(step_category(&AutomationStep::CallFunction("f".to_string())), StepCategory::Control);
    assert_eq!(step_category(&AutomationStep::NewRow), StepCategory::Data);
    assert_eq!(category_title(StepCategory::Act), "ACT");
    assert_eq!(category_title(StepCategory::Wait), "W8");
    assert_eq!(category_title(StepCategory::Control), "CTRL");
    assert_eq!(category_title(StepCategory::Data), "DATA");
    assert!(matches!(new_step(NewStepKind::Navigate), AutomationStep::Navigate(u) if u == "https://"));
    assert!(matches!(new_step(NewStepKind::WaitSelector), AutomationStep::WaitSelector { timeout_ms: 5000, .. }));
    assert!(matches!(
        new_step(NewStepKind::Extract),
        AutomationStep::Extract { as_key, add_to_dataset: true, .. } if as_key == "data"
    ));
    assert!(matches!(new_step(NewStepKind::Dataset), AutomationStep::ImportDataset(f) if f == "data.csv"));
}

#[test]
fn functions_keep_unique_names() {
    let mut funcs: Vec<UiFunction> = Vec::new();
    let a = add_function(&mut funcs);
    assert_eq!(a, "func_1");
    let b = add_function(&mut funcs);
    assert_eq!(b, "func_2");
    remove_function(&mut funcs, "func_1");
    let names: Vec<String> = funcs.iter().map(|f| f.name.clone()).collect();
    assert_eq!(names, vec!["func_2".to_string()]);
    let c = add_function(&mut funcs);
    let mut names: Vec<String> = funcs.iter().map(|f| f.name.clone()).collect();
    names.sort();
    names.dedup();
    assert_eq!(names.len(), funcs.len());
    assert!(names.contains(&c));
}

#[test]
fn variables_and_run_button() {
    let mut vars = StrMap::new();
    let mut key = String::new();
    let mut value = "v".to_string();
    add_variable(&mut vars, &mut key, &mut value);
    assert!(vars.is_empty());
    assert_eq!(value, "v");
    let mut key = "k".to_string();
    add_variable(&mut vars, &mut key, &mut value);
    assert_eq!(vars.get(&"k".to_string()), Some("v".to_string()));
    assert!(key.is_empty() && value.is_empty());
    assert_eq!(run_label(&AutomationStatus::Idle), "▶ START EXECUTION");
    assert_eq!(run_label(&AutomationStatus::Running(2)), "🏃 RUNNING STEP 3...");
    assert_eq!(run_label(&AutomationStatus::Finished), "✅ FINISHED (RUN AGAIN)");
    assert_eq!(run_label(&AutomationStatus::Error("x".to_string())), "❌ ERROR (RETRY)");
    assert!(can_start(&AutomationStatus::Idle, 1));
    assert!(!can_start(&AutomationStatus::Idle, 0));
    assert!(!can_start(&AutomationStatus::Running(0), 3));
}

#[test]
fn templates_by_id() {
    let lib = library();
    let first = lib[0].id.clone();
    assert_eq!(find_template(&lib, &first), Some(0));
    assert_eq!(find_template(&lib, "no-such-template"), None);
}
