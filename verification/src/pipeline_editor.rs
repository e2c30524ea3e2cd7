//! Decisions of the automation panel's block editor: block colours, the
//! blocks the "add" menu creates, function bookkeeping, variables and the
//! run button.
use vstd::prelude::*;
use crate::state::{AutomationStatus, AutomationStep, AutomationStepV, UiFunction};
use crate::strmap::StrMap;
use crate::text::{concat, dec_seq, own, u64_to_string};

verus! {

/// How a block is coloured and titled.
#[derive(PartialEq, Eq, Structural, Clone, Copy, Debug)]
pub enum StepCategory {
    /// Page actions.
    Act,
    /// Waits.
    Wait,
    /// Control flow and data sources.
    Control,
    /// Everything else (extraction, variables, rows, output).
    Data,
}

pub open spec fn category_of(s: AutomationStepV) -> StepCategory {
    match s {
        AutomationStepV::Navigate(_) | AutomationStepV::Click(_) | AutomationStepV::RightClick(_)
        | AutomationStepV::Hover(_) | AutomationStepV::Type { .. } => StepCategory::Act,
        AutomationStepV::Wait(_) | AutomationStepV::WaitSelector { .. } | AutomationStepV::WaitUntilIdle { .. }
        | AutomationStepV::WaitNetworkIdle { .. } => StepCategory::Wait,
        AutomationStepV::If { .. } | AutomationStepV::ForEach { .. } | AutomationStepV::SwitchFrame(_)
        | AutomationStepV::CallFunction(_) | AutomationStepV::ImportDataset(_) => StepCategory::Control,
        _ => StepCategory::Data,
    }
}

pub fn step_category(step: &AutomationStep) -> (r: StepCategory)
    ensures
        r == category_of(step@),
{
    match step {
        AutomationStep::Navigate(_) | AutomationStep::Click(_) | AutomationStep::RightClick(_)
        | AutomationStep::Hover(_) | AutomationStep::Type { .. } => StepCategory::Act,
        AutomationStep::Wait(_) | AutomationStep::WaitSelector { .. } | AutomationStep::WaitUntilIdle { .. }
        | AutomationStep::WaitNetworkIdle { .. } => StepCategory::Wait,
        AutomationStep::If { .. } | AutomationStep::ForEach { .. } | AutomationStep::SwitchFrame(_)
        | AutomationStep::CallFunction(_) | AutomationStep::ImportDataset(_) => StepCategory::Control,
        _ => StepCategory::Data,
    }
}

/// The short title on a block of a category.
pub fn category_title(c: StepCategory) -> (r: &'static str)
    ensures
        r@ == match c {
            StepCategory::Act => "ACT"@,
            StepCategory::Wait => "W8"@,
            StepCategory::Control => "CTRL"@,
            StepCategory::Data => "DATA"@,
        },
{
    match c {
        StepCategory::Act => "ACT",
        StepCategory::Wait => "W8",
        StepCategory::Control => "CTRL",
        StepCategory::Data => "DATA",
    }
}

/// The entries of the "add" menu.
#[derive(PartialEq, Eq, Structural, Clone, Copy, Debug)]
pub enum NewStepKind {
    Navigate,
    Click,
    Type,
    Wait,
    WaitSelector,
    Extract,
    Loop,
    If,
    Call,
    Dataset,
    Scroll,
}

/// The block an entry of the "add" menu appends.
pub open spec fn new_step_view(kind: NewStepKind) -> AutomationStepV {
    match kind {
        NewStepKind::Navigate => AutomationStepV::Navigate("https://"@),
        NewStepKind::Click => AutomationStepV::Click(Seq::empty()),
        NewStepKind::Type => AutomationStepV::Type {
            selector: Seq::empty(),
            value: Seq::empty(),
            is_variable: false,
        },
        NewStepKind::Wait => AutomationStepV::Wait(1),
        NewStepKind::WaitSelector => AutomationStepV::WaitSelector { selector: Seq::empty(), timeout_ms: 5000 },
        NewStepKind::Extract => AutomationStepV::Extract {
            selector: Seq::empty(),
            as_key: "data"@,
            add_to_dataset: true,
        },
        NewStepKind::Loop => AutomationStepV::ForEach { selector: Seq::empty(), body: Seq::empty() },
        NewStepKind::If => AutomationStepV::If { selector: Seq::empty(), then_steps: Seq::empty() },
        NewStepKind::Call => AutomationStepV::CallFunction(Seq::empty()),
        NewStepKind::Dataset => AutomationStepV::ImportDataset("data.csv"@),
        NewStepKind::Scroll => AutomationStepV::ScrollBottom,
    }
}

pub fn new_step(kind: NewStepKind) -> (r: AutomationStep)
    ensures
        r@ == new_step_view(kind),
{
    let r = match kind {
        NewStepKind::Navigate => AutomationStep::Navigate(own("https://")),
        NewStepKind::Click => AutomationStep::Click(String::new()),
        NewStepKind::Type => AutomationStep::Type { selector: String::new(), value: String::new(), is_variable: false },
        NewStepKind::Wait => AutomationStep::Wait(1),
        NewStepKind::WaitSelector => AutomationStep::WaitSelector { selector: String::new(), timeout_ms: 5000 },
        NewStepKind::Extract => AutomationStep::Extract { selector: String::new(), as_key: own("data"), add_to_dataset: true },
        NewStepKind::Loop => AutomationStep::ForEach { selector: String::new(), body: Vec::new() },
        NewStepKind::If => AutomationStep::If { selector: String::new(), then_steps: Vec::new() },
        NewStepKind::Call => AutomationStep::CallFunction(String::new()),
        NewStepKind::Dataset => AutomationStep::ImportDataset(own("data.csv")),
        NewStepKind::Scroll => AutomationStep::ScrollBottom,
    };
    proof {
        crate::state::lemma_ui_steps_view(Seq::<AutomationStep>::empty());
    }
    r
}

// ---------------------------------------------------------------------------
// Functions
// ---------------------------------------------------------------------------

/// The names of the pipeline's functions.
pub open spec fn fn_names(funcs: Seq<UiFunction>) -> Seq<Seq<char>> {
    funcs.map_values(|f: UiFunction| f.name@)
}

/// No two functions share a name (they are keyed by name).
pub open spec fn names_unique(funcs: Seq<UiFunction>) -> bool {
    forall|i: int, j: int| 0 <= i < j < funcs.len() ==> funcs[i].name@ != funcs[j].name@
}

fn fn_index(funcs: &Vec<UiFunction>, name: &String) -> (r: Option<usize>)
    ensures
        match r {
            Some(i) => i < funcs.len() && funcs@[i as int].name@ == name@,
            None => forall|k: int| 0 <= k < funcs.len() ==> #[trigger] funcs@[k].name@ != name@,
        },
{
    let mut i: usize = 0;
    while i < funcs.len()
        invariant
            i <= funcs.len(),
            forall|k: int| 0 <= k < i ==> #[trigger] funcs@[k].name@ != name@,
        decreases funcs.len() - i,
    {
        if funcs[i].name == *name {
            return Some(i);
        }
        i += 1;
    }
    None
}

/// "+ NEW FN": an empty function named `func_<count + 1>`, replacing the
/// steps of a function that already has that name.
pub fn add_function(funcs: &mut Vec<UiFunction>) -> (name: String)
    requires
        names_unique(old(funcs)@),
        old(funcs).len() < u64::MAX,
    ensures
        name@ == "func_"@ + dec_seq((old(funcs).len() + 1) as nat),
        names_unique(final(funcs)@),
        fn_names(final(funcs)@).to_set() == fn_names(old(funcs)@).to_set().insert(name@),
        forall|k: int|
            0 <= k < final(funcs).len() ==> (#[trigger] final(funcs)@[k]).name@ == name@ ==> final(funcs)@[k].steps@.len() == 0,
        forall|k: int|
            0 <= k < final(funcs).len() ==> (#[trigger] final(funcs)@[k]).name@ != name@ ==> old(funcs)@.contains(
                final(funcs)@[k],
            ),
{
    let n = funcs.len() as u64 + 1;
    let name = concat("func_", u64_to_string(n).as_str());
    match fn_index(funcs, &name) {
        Some(i) => {
            let ghost before = funcs@;
            funcs.set(i, UiFunction { name: name.clone(), steps: Vec::new() });
            proof {
                assert(fn_names(funcs@) =~= fn_names(before));
                assert(fn_names(before)[i as int] == name@);
                assert(fn_names(before).to_set() =~= fn_names(before).to_set().insert(name@));
                assert forall|k: int| 0 <= k < funcs.len() && (#[trigger] funcs@[k]).name@ != name@ implies before.contains(
                    funcs@[k],
                ) by {
                    assert(k != i);
                    assert(before[k] == funcs@[k]);
                }
            }
        },
        None => {
            let ghost before = funcs@;
            funcs.push(UiFunction { name: name.clone(), steps: Vec::new() });
            proof {
                assert(fn_names(funcs@) =~= fn_names(before).push(name@));
                crate::text::lemma_push_to_set(fn_names(before), name@);
                assert forall|k: int| 0 <= k < funcs.len() && (#[trigger] funcs@[k]).name@ != name@ implies before.contains(
                    funcs@[k],
                ) by {
                    assert(before[k] == funcs@[k]);
                }
            }
        },
    }
    name
}

/// "x" on a function: the function with that name leaves the list.
pub fn remove_function(funcs: &mut Vec<UiFunction>, name: &str)
    requires
        names_unique(old(funcs)@),
    ensures
        names_unique(final(funcs)@),
        fn_names(final(funcs)@).to_set() == fn_names(old(funcs)@).to_set().remove(name@),
        forall|k: int| 0 <= k < final(funcs).len() ==> old(funcs)@.contains(#[trigger] final(funcs)@[k]),
{
    let n = own(name);
    match fn_index(funcs, &n) {
        Some(i) => {
            let ghost before = funcs@;
            funcs.remove(i);
            proof {
                let names = fn_names(before);
                assert(fn_names(funcs@) =~= names.remove(i as int));
                assert forall|x: Seq<char>| #[trigger] fn_names(funcs@).to_set().contains(x)
                    == names.to_set().remove(name@).contains(x) by {
                    assert(names[i as int] == name@);
                    if fn_names(funcs@).contains(x) {
                        let j = choose|j: int| 0 <= j < fn_names(funcs@).len() && fn_names(funcs@)[j] == x;
                        if j < i {
                            assert(names[j] == x);
                            assert(before[j].name@ != before[i as int].name@);
                        } else {
                            assert(names[j + 1] == x);
                            assert(before[i as int].name@ != before[j + 1].name@);
                        }
                        assert(names.contains(x));
                    }
                    if names.contains(x) && x != name@ {
                        let j = choose|j: int| 0 <= j < names.len() && names[j] == x;
                        if j < i {
                            assert(fn_names(funcs@)[j] == x);
                        } else {
                            assert(j != i);
                            assert(fn_names(funcs@)[j - 1] == x);
                        }
                    }
                }
                assert(fn_names(funcs@).to_set() =~= names.to_set().remove(name@));
                assert forall|k: int| 0 <= k < funcs.len() implies before.contains(#[trigger] funcs@[k]) by {
                    if k < i {
                        assert(before[k] == funcs@[k]);
                    } else {
                        assert(before[k + 1] == funcs@[k]);
                    }
                }
            }
        },
        None => {
            proof {
                assert forall|x: Seq<char>| #[trigger] fn_names(funcs@).to_set().contains(x)
                    == fn_names(funcs@).to_set().remove(name@).contains(x) by {
                    if fn_names(funcs@).contains(x) {
                        let j = choose|j: int| 0 <= j < fn_names(funcs@).len() && fn_names(funcs@)[j] == x;
                        assert(funcs@[j].name@ != name@);
                    }
                }
                assert(fn_names(funcs@).to_set() =~= fn_names(funcs@).to_set().remove(name@));
                assert forall|k: int| 0 <= k < funcs.len() implies funcs@.contains(#[trigger] funcs@[k]) by {
                    assert(funcs@[k] == funcs@[k]);
                }
            }
        },
    }
}

// ---------------------------------------------------------------------------
// Variables
// ---------------------------------------------------------------------------

/// "+" beside the variable fields: a non-empty key is stored with its value
/// and both fields are cleared; an empty key changes nothing.
pub fn add_variable(vars: &mut StrMap, key: &mut String, value: &mut String)
    requires
        old(vars).wf(),
    ensures
        final(vars).wf(),
        old(key)@.len() == 0 ==> final(vars)@ == old(vars)@ && final(key)@ == old(key)@ && final(value)@ == old(value)@,
        old(key)@.len() > 0 ==> final(vars)@ == old(vars)@.insert(old(key)@, old(value)@) && final(key)@.len() == 0
            && final(value)@.len() == 0,
{
    let k = crate::text::chars_of(key.as_str());
    if k.len() > 0 {
        vars.insert(key.clone(), value.clone());
        *key = String::new();
        *value = String::new();
    }
}

// ---------------------------------------------------------------------------
// Run button
// ---------------------------------------------------------------------------

/// The run button's caption for the pipeline's state.
pub open spec fn run_caption(status: AutomationStatus) -> Seq<char> {
    match status {
        AutomationStatus::Running(i) => "🏃 RUNNING STEP "@ + dec_seq((i + 1) as nat) + "..."@,
        AutomationStatus::Finished => "✅ FINISHED (RUN AGAIN)"@,
        AutomationStatus::Error(_) => "❌ ERROR (RETRY)"@,
        AutomationStatus::Idle => "▶ START EXECUTION"@,
    }
}

pub fn run_label(status: &AutomationStatus) -> (r: String)
    requires
        status matches AutomationStatus::Running(i) ==> i < usize::MAX,
    ensures
        r@ == run_caption(*status),
{
    match status {
        AutomationStatus::Running(i) => {
            let n = u64_to_string((*i + 1) as u64);
            let mut out = own("🏃 RUNNING STEP ");
            out.append(n.as_str());
            out.append("...");
            out
        },
        AutomationStatus::Finished => own("✅ FINISHED (RUN AGAIN)"),
        AutomationStatus::Error(_) => own("❌ ERROR (RETRY)"),
        AutomationStatus::Idle => own("▶ START EXECUTION"),
    }
}

/// A run can start when none is in progress and the pipeline has blocks.
pub fn can_start(status: &AutomationStatus, step_count: usize) -> (r: bool)
    ensures
        r == (!(status is Running) && step_count > 0),
{
    match status {
        AutomationStatus::Running(_) => false,
        _ => step_count > 0,
    }
}

} // verus!
