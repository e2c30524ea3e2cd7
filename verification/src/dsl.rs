//! The automation DSL: the steps that the engine executes.
use vstd::prelude::*;

verus! {

broadcast use vstd::std_specs::vec::group_vec_axioms;

/// Optional descriptive data carried by a DSL document.
pub struct ScriptMetadata {
    pub name: String,
    pub description: String,
    pub author: String,
    pub created_at: u64,
}

/// One automation step.
pub enum Step {
    Navigate { url: String },
    Click { selector: String },
    RightClick { selector: String },
    Hover { selector: String },
    Type { selector: String, value: String, is_variable: bool },
    Wait { seconds: u64 },
    WaitSelector { selector: String, timeout_ms: u64 },
    WaitUntilIdle { timeout_ms: u64 },
    WaitNetworkIdle { timeout_ms: u64, min_idle_ms: u64 },
    Extract { selector: String, as_key: String, add_to_row: bool },
    NewRow,
    Export { filename: String },
    Screenshot { filename: String },
    SetVariable { key: String, value: String },
    ScrollBottom,
    /// Controlled scrolling for lazily loaded pages.
    SmartScroll { until_selector: Option<String>, max_rounds: u32, settle_ms: u64 },
    SwitchFrame { selector: String },
    If { selector: String, then_steps: Vec<Step> },
    ForEach { selector: String, body: Vec<Step> },
    CallFunction { name: String },
    /// Import a dataset (CSV/JSON) and run subsequent steps for each row.
    ImportDataset { filename: String },
}

/// The mathematical value of a step: texts as character sequences, nested steps as sequences.
pub ghost enum StepV {
    Navigate { url: Seq<char> },
    Click { selector: Seq<char> },
    RightClick { selector: Seq<char> },
    Hover { selector: Seq<char> },
    Type { selector: Seq<char>, value: Seq<char>, is_variable: bool },
    Wait { seconds: u64 },
    WaitSelector { selector: Seq<char>, timeout_ms: u64 },
    WaitUntilIdle { timeout_ms: u64 },
    WaitNetworkIdle { timeout_ms: u64, min_idle_ms: u64 },
    Extract { selector: Seq<char>, as_key: Seq<char>, add_to_row: bool },
    NewRow,
    Export { filename: Seq<char> },
    Screenshot { filename: Seq<char> },
    SetVariable { key: Seq<char>, value: Seq<char> },
    ScrollBottom,
    SmartScroll { until_selector: Option<Seq<char>>, max_rounds: u32, settle_ms: u64 },
    SwitchFrame { selector: Seq<char> },
    If { selector: Seq<char>, then_steps: Seq<StepV> },
    ForEach { selector: Seq<char>, body: Seq<StepV> },
    CallFunction { name: Seq<char> },
    ImportDataset { filename: Seq<char> },
}

pub open spec fn opt_view(o: Option<String>) -> Option<Seq<char>> {
    match o {
        Some(s) => Some(s@),
        None => None,
    }
}

pub open spec fn step_view(s: Step) -> StepV
    decreases s, 1nat,
{
    match s {
        Step::Navigate { url } => StepV::Navigate { url: url@ },
        Step::Click { selector } => StepV::Click { selector: selector@ },
        Step::RightClick { selector } => StepV::RightClick { selector: selector@ },
        Step::Hover { selector } => StepV::Hover { selector: selector@ },
        Step::Type { selector, value, is_variable } => StepV::Type {
            selector: selector@,
            value: value@,
            is_variable,
        },
        Step::Wait { seconds } => StepV::Wait { seconds },
        Step::WaitSelector { selector, timeout_ms } => StepV::WaitSelector {
            selector: selector@,
            timeout_ms,
        },
        Step::WaitUntilIdle { timeout_ms } => StepV::WaitUntilIdle { timeout_ms },
        Step::WaitNetworkIdle { timeout_ms, min_idle_ms } => StepV::WaitNetworkIdle {
            timeout_ms,
            min_idle_ms,
        },
        Step::Extract { selector, as_key, add_to_row } => StepV::Extract {
            selector: selector@,
            as_key: as_key@,
            add_to_row,
        },
        Step::NewRow => StepV::NewRow,
        Step::Export { filename } => StepV::Export { filename: filename@ },
        Step::Screenshot { filename } => StepV::Screenshot { filename: filename@ },
        Step::SetVariable { key, value } => StepV::SetVariable { key: key@, value: value@ },
        Step::ScrollBottom => StepV::ScrollBottom,
        Step::SmartScroll { until_selector, max_rounds, settle_ms } => StepV::SmartScroll {
            until_selector: opt_view(until_selector),
            max_rounds,
            settle_ms,
        },
        Step::SwitchFrame { selector } => StepV::SwitchFrame { selector: selector@ },
        Step::If { selector, then_steps } => StepV::If {
            selector: selector@,
            then_steps: steps_view(then_steps@),
        },
        Step::ForEach { selector, body } => StepV::ForEach {
            selector: selector@,
            body: steps_view(body@),
        },
        Step::CallFunction { name } => StepV::CallFunction { name: name@ },
        Step::ImportDataset { filename } => StepV::ImportDataset { filename: filename@ },
    }
}

pub open spec fn steps_view(v: Seq<Step>) -> Seq<StepV>
    decreases v, 0nat,
{
    if v.len() == 0 {
        Seq::empty()
    } else {
        seq![step_view(v[0])] + steps_view(v.subrange(1, v.len() as int))
    }
}

impl View for Step {
    type V = StepV;

    open spec fn view(&self) -> StepV {
        step_view(*self)
    }
}

} // verus!

verus! {

pub proof fn lemma_steps_view(v: Seq<Step>)
    ensures
        steps_view(v).len() == v.len(),
        forall|i: int| 0 <= i < v.len() ==> #[trigger] steps_view(v)[i] == step_view(v[i]),
    decreases v.len(),
{
    if v.len() > 0 {
        lemma_steps_view(v.subrange(1, v.len() as int));
    }
}

} // verus!

verus! {

/// A named, reusable list of steps.
pub struct DslFunction {
    pub name: String,
    pub steps: Vec<Step>,
}

/// A complete automation document: main steps plus named functions.
pub struct AutomationDsl {
    pub dsl_version: u32,
    pub metadata: Option<ScriptMetadata>,
    pub functions: Vec<DslFunction>,
    pub steps: Vec<Step>,
}

impl AutomationDsl {
    /// An empty version-1 document.
    pub fn default() -> (r: Self)
        ensures
            r.dsl_version == 1,
            r.metadata is None,
            r.functions@.len() == 0,
            r.steps@.len() == 0,
    {
        AutomationDsl { dsl_version: 1, metadata: None, functions: Vec::new(), steps: Vec::new() }
    }
}

/// Step conditions (element presence or text content).
pub enum Condition {
    ElementExists { selector: String },
    TextContains { selector: String, text: String },
}

} // verus!
