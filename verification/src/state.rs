//! Plain data shared between the panels and the engine.
use vstd::prelude::*;

verus! {

broadcast use vstd::std_specs::vec::group_vec_axioms;

/// The user's home directory (`dirs::home_dir`), as text. Nothing is promised
/// of the value: it comes from the environment of the process.
#[verifier::external_body]
fn home_dir() -> (r: Option<String>) {
    match dirs::home_dir() {
        Some(p) => Some(p.to_string_lossy().into_owned()),
        None => None,
    }
}

/// `name` appended to the directory `base`, with a separator where `base`
/// does not end in one (`PathBuf::push` with a relative name).
pub open spec fn join_path(base: Seq<char>, name: Seq<char>) -> Seq<char> {
    if base.len() == 0 || base.last() == '/' {
        base + name
    } else {
        base + "/"@ + name
    }
}

/// Global settings of the main window.
pub struct AppConfig {
    /// Root directory where captures, logs and datasets are saved.
    pub output_dir: String,
    /// Path of the Chrome/Chromium executable.
    pub chrome_binary_path: String,
    /// The browser's user data directory.
    pub chrome_profile_path: String,
    /// The remote debugging (CDP) port.
    pub remote_debug_port: u16,
    /// The URL the browser opens when launched.
    pub default_launch_url: String,
    /// API key for the AI-backed features.
    pub gemini_api_key: String,
}

impl AppConfig {
    /// The defaults, with output under `SniperOutput` in the given home
    /// directory (or in the working directory where there is none).
    pub fn with_home(home: Option<String>) -> (r: Self)
        ensures
            r.output_dir@ == join_path(
                match home {
                    Some(h) => h@,
                    None => "."@,
                },
                "SniperOutput"@,
            ),
            r.chrome_binary_path@.len() == 0,
            r.chrome_profile_path@.len() == 0,
            r.remote_debug_port == 9222,
            r.default_launch_url@ == "https://www.google.com"@,
            r.gemini_api_key@.len() == 0,
    {
        proof {
            reveal_strlit("/");
            reveal_strlit(".");
        }
        let base = match home {
            Some(h) => h,
            None => String::from_str("."),
        };
        let b = crate::text::chars_of(base.as_str());
        let mut out = base;
        if b.len() > 0 && b[b.len() - 1] != '/' {
            out.append("/");
        }
        out.append("SniperOutput");
        AppConfig {
            output_dir: out,
            chrome_binary_path: String::new(),
            chrome_profile_path: String::new(),
            remote_debug_port: 9222,
            default_launch_url: String::from_str("https://www.google.com"),
            gemini_api_key: String::new(),
        }
    }
}

impl Default for AppConfig {
    fn default() -> (r: Self)
        ensures
            r.remote_debug_port == 9222,
            r.default_launch_url@ == "https://www.google.com"@,
            r.chrome_binary_path@.len() == 0,
            r.chrome_profile_path@.len() == 0,
            r.gemini_api_key@.len() == 0,
    {
        AppConfig::with_home(home_dir())
    }
}

/// The primary views of the main window.
#[derive(Clone, Copy, PartialEq, Eq, Debug)]
pub enum Tab {
    Scrape,
    Automation,
    Translate,
    Media,
    Network,
    Storage,
    Settings,
    Logs,
}

/// A structured system log message.
pub struct LogEntry {
    pub timestamp: String,
    pub level: String,
    pub message: String,
}

/// Execution state of the automation engine for one browser tab.
pub enum AutomationStatus {
    Idle,
    /// Currently executing the step at this index.
    Running(usize),
    Finished,
    Error(String),
}

/// A pipeline block as the automation panel edits it.
pub enum AutomationStep {
    Navigate(String),
    Click(String),
    RightClick(String),
    Hover(String),
    Type { selector: String, value: String, is_variable: bool },
    Wait(u64),
    WaitSelector { selector: String, timeout_ms: u64 },
    WaitUntilIdle { timeout_ms: u64 },
    WaitNetworkIdle { timeout_ms: u64, min_idle_ms: u64 },
    Extract { selector: String, as_key: String, add_to_dataset: bool },
    NewRow,
    Export(String),
    Screenshot(String),
    SetVariable { key: String, value: String },
    ScrollBottom,
    SwitchFrame(String),
    If { selector: String, then_steps: Vec<AutomationStep> },
    ForEach { selector: String, body: Vec<AutomationStep> },
    CallFunction(String),
    ImportDataset(String),
}

/// The mathematical value of a pipeline block.
pub ghost enum AutomationStepV {
    Navigate(Seq<char>),
    Click(Seq<char>),
    RightClick(Seq<char>),
    Hover(Seq<char>),
    Type { selector: Seq<char>, value: Seq<char>, is_variable: bool },
    Wait(u64),
    WaitSelector { selector: Seq<char>, timeout_ms: u64 },
    WaitUntilIdle { timeout_ms: u64 },
    WaitNetworkIdle { timeout_ms: u64, min_idle_ms: u64 },
    Extract { selector: Seq<char>, as_key: Seq<char>, add_to_dataset: bool },
    NewRow,
    Export(Seq<char>),
    Screenshot(Seq<char>),
    SetVariable { key: Seq<char>, value: Seq<char> },
    ScrollBottom,
    SwitchFrame(Seq<char>),
    If { selector: Seq<char>, then_steps: Seq<AutomationStepV> },
    ForEach { selector: Seq<char>, body: Seq<AutomationStepV> },
    CallFunction(Seq<char>),
    ImportDataset(Seq<char>),
}

pub open spec fn ui_step_view(s: AutomationStep) -> AutomationStepV
    decreases s, 1nat,
{
    match s {
        AutomationStep::Navigate(u) => AutomationStepV::Navigate(u@),
        AutomationStep::Click(u) => AutomationStepV::Click(u@),
        AutomationStep::RightClick(u) => AutomationStepV::RightClick(u@),
        AutomationStep::Hover(u) => AutomationStepV::Hover(u@),
        AutomationStep::Type { selector, value, is_variable } => AutomationStepV::Type {
            selector: selector@,
            value: value@,
            is_variable,
        },
        AutomationStep::Wait(n) => AutomationStepV::Wait(n),
        AutomationStep::WaitSelector { selector, timeout_ms } => AutomationStepV::WaitSelector {
            selector: selector@,
            timeout_ms,
        },
        AutomationStep::WaitUntilIdle { timeout_ms } => AutomationStepV::WaitUntilIdle {
            timeout_ms,
        },
        AutomationStep::WaitNetworkIdle { timeout_ms, min_idle_ms } =>
            AutomationStepV::WaitNetworkIdle { timeout_ms, min_idle_ms },
        AutomationStep::Extract { selector, as_key, add_to_dataset } => AutomationStepV::Extract {
            selector: selector@,
            as_key: as_key@,
            add_to_dataset,
        },
        AutomationStep::NewRow => AutomationStepV::NewRow,
        AutomationStep::Export(f) => AutomationStepV::Export(f@),
        AutomationStep::Screenshot(f) => AutomationStepV::Screenshot(f@),
        AutomationStep::SetVariable { key, value } => AutomationStepV::SetVariable {
            key: key@,
            value: value@,
        },
        AutomationStep::ScrollBottom => AutomationStepV::ScrollBottom,
        AutomationStep::SwitchFrame(f) => AutomationStepV::SwitchFrame(f@),
        AutomationStep::If { selector, then_steps } => AutomationStepV::If {
            selector: selector@,
            then_steps: ui_steps_view(then_steps@),
        },
        AutomationStep::ForEach { selector, body } => AutomationStepV::ForEach {
            selector: selector@,
            body: ui_steps_view(body@),
        },
        AutomationStep::CallFunction(n) => AutomationStepV::CallFunction(n@),
        AutomationStep::ImportDataset(f) => AutomationStepV::ImportDataset(f@),
    }
}

pub open spec fn ui_steps_view(v: Seq<AutomationStep>) -> Seq<AutomationStepV>
    decreases v, 0nat,
{
    if v.len() == 0 {
        Seq::empty()
    } else {
        seq![ui_step_view(v[0])] + ui_steps_view(v.subrange(1, v.len() as int))
    }
}

impl View for AutomationStep {
    type V = AutomationStepV;

    open spec fn view(&self) -> AutomationStepV {
        ui_step_view(*self)
    }
}

pub proof fn lemma_ui_steps_view(v: Seq<AutomationStep>)
    ensures
        ui_steps_view(v).len() == v.len(),
        forall|i: int| 0 <= i < v.len() ==> #[trigger] ui_steps_view(v)[i] == ui_step_view(v[i]),
    decreases v.len(),
{
    if v.len() > 0 {
        lemma_ui_steps_view(v.subrange(1, v.len() as int));
    }
}

/// Global execution rules for automation pipelines.
pub struct AutomationConfig {
    pub retry_attempts: u32,
    pub screenshot_on_error: bool,
    pub step_timeout_ms: u64,
}

impl AutomationConfig {
    /// No retries, a screenshot on error, and a 30 s step timeout.
    pub fn default() -> (r: Self)
        ensures
            r.retry_attempts == 0,
            r.screenshot_on_error,
            r.step_timeout_ms == 30000,
    {
        AutomationConfig { retry_attempts: 0, screenshot_on_error: true, step_timeout_ms: 30000 }
    }
}

/// Metadata of a browser tab as the debugging endpoint lists it.
pub struct ChromeTabInfo {
    pub id: String,
    pub title: String,
    pub url: String,
    pub tab_type: String,
}

/// A sniffed resource with optional binary data.
pub struct MediaAsset {
    pub name: String,
    pub url: String,
    pub mime_type: String,
    pub size_bytes: usize,
    pub data: Option<Vec<u8>>,
}

/// An intercepted HTTP request and, once it arrives, its response.
pub struct NetworkRequest {
    pub request_id: String,
    pub url: String,
    pub method: String,
    pub resource_type: String,
    pub status: Option<u16>,
    pub request_body: Option<String>,
    pub response_body: Option<String>,
}

/// How a notification is coloured.
#[derive(PartialEq, Eq, Structural, Clone, Copy, Debug)]
pub enum NotificationLevel {
    /// Shown green: what was asked for went through.
    Success,
    Error,
    Warn,
    Info,
}

/// A toast-style notification.
pub struct Notification {
    pub level: NotificationLevel,
    pub title: String,
    pub message: String,
}

} // verus!

verus! {

/// A named block list that the pipeline can call.
pub struct UiFunction {
    pub name: String,
    pub steps: Vec<AutomationStep>,
}

} // verus!
