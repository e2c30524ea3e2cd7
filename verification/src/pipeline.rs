//! Conversions between the automation panel's blocks and DSL steps.
use vstd::prelude::*;
use crate::dsl::{Step, StepV, step_view, steps_view, lemma_steps_view, AutomationDsl, DslFunction};
use crate::state::{UiFunction, AutomationStep, AutomationStepV, ui_step_view, ui_steps_view, lemma_ui_steps_view};

verus! {

broadcast use vstd::std_specs::vec::group_vec_axioms;

/// Full, structure-preserving translation of a block into a DSL step.
pub open spec fn ui_to_dsl(u: AutomationStepV) -> StepV
    decreases u, 1nat,
{
    match u {
        AutomationStepV::Navigate(x) => StepV::Navigate { url: x },
        AutomationStepV::Click(x) => StepV::Click { selector: x },
        AutomationStepV::RightClick(x) => StepV::RightClick { selector: x },
        AutomationStepV::Hover(x) => StepV::Hover { selector: x },
        AutomationStepV::Type { selector, value, is_variable } => StepV::Type {
            selector,
            value,
            is_variable,
        },
        AutomationStepV::Wait(n) => StepV::Wait { seconds: n },
        AutomationStepV::WaitSelector { selector, timeout_ms } => StepV::WaitSelector {
            selector,
            timeout_ms,
        },
        AutomationStepV::WaitUntilIdle { timeout_ms } => StepV::WaitUntilIdle { timeout_ms },
        AutomationStepV::WaitNetworkIdle { timeout_ms, min_idle_ms } => StepV::WaitNetworkIdle {
            timeout_ms,
            min_idle_ms,
        },
        AutomationStepV::ScrollBottom => StepV::ScrollBottom,
        AutomationStepV::Extract { selector, as_key, add_to_dataset } => StepV::Extract {
            selector,
            as_key,
            add_to_row: add_to_dataset,
        },
        AutomationStepV::SetVariable { key, value } => StepV::SetVariable { key, value },
        AutomationStepV::NewRow => StepV::NewRow,
        AutomationStepV::Export(f) => StepV::Export { filename: f },
        AutomationStepV::Screenshot(f) => StepV::Screenshot { filename: f },
        AutomationStepV::SwitchFrame(s) => StepV::SwitchFrame { selector: s },
        AutomationStepV::If { selector, then_steps } => StepV::If {
            selector,
            then_steps: ui_seq_to_dsl(then_steps),
        },
        AutomationStepV::ForEach { selector, body } => StepV::ForEach {
            selector,
            body: ui_seq_to_dsl(body),
        },
        AutomationStepV::CallFunction(n) => StepV::CallFunction { name: n },
        AutomationStepV::ImportDataset(f) => StepV::ImportDataset { filename: f },
    }
}

pub open spec fn ui_seq_to_dsl(s: Seq<AutomationStepV>) -> Seq<StepV>
    decreases s, 0nat,
{
    if s.len() == 0 {
        Seq::empty()
    } else {
        seq![ui_to_dsl(s[0])] + ui_seq_to_dsl(s.subrange(1, s.len() as int))
    }
}

pub proof fn lemma_ui_seq_to_dsl(s: Seq<AutomationStepV>)
    ensures
        ui_seq_to_dsl(s).len() == s.len(),
        forall|i: int| 0 <= i < s.len() ==> #[trigger] ui_seq_to_dsl(s)[i] == ui_to_dsl(s[i]),
    decreases s.len(),
{
    if s.len() > 0 {
        lemma_ui_seq_to_dsl(s.subrange(1, s.len() as int));
    }
}

pub proof fn lemma_seq_eq_by_index(a: Seq<StepV>, b: Seq<StepV>)
    requires
        a.len() == b.len(),
        forall|i: int| 0 <= i < a.len() ==> a[i] == b[i],
    ensures
        a == b,
{
    assert(a =~= b);
}

/// Translates one block, nested blocks included.
pub fn map_ui_step_to_dsl(u: &AutomationStep) -> (r: Step)
    ensures
        r@ == ui_to_dsl(u@),
    decreases u, 1nat,
{
    match u {
        AutomationStep::Navigate(x) => Step::Navigate { url: x.clone() },
        AutomationStep::Click(x) => Step::Click { selector: x.clone() },
        AutomationStep::RightClick(x) => Step::RightClick { selector: x.clone() },
        AutomationStep::Hover(x) => Step::Hover { selector: x.clone() },
        AutomationStep::Type { selector, value, is_variable } => Step::Type {
            selector: selector.clone(),
            value: value.clone(),
            is_variable: *is_variable,
        },
        AutomationStep::Wait(n) => Step::Wait { seconds: *n },
        AutomationStep::WaitSelector { selector, timeout_ms } => Step::WaitSelector {
            selector: selector.clone(),
            timeout_ms: *timeout_ms,
        },
        AutomationStep::WaitUntilIdle { timeout_ms } => Step::WaitUntilIdle {
            timeout_ms: *timeout_ms,
        },
        AutomationStep::WaitNetworkIdle { timeout_ms, min_idle_ms } => Step::WaitNetworkIdle {
            timeout_ms: *timeout_ms,
            min_idle_ms: *min_idle_ms,
        },
        AutomationStep::ScrollBottom => Step::ScrollBottom,
        AutomationStep::Extract { selector, as_key, add_to_dataset } => Step::Extract {
            selector: selector.clone(),
            as_key: as_key.clone(),
            add_to_row: *add_to_dataset,
        },
        AutomationStep::SetVariable { key, value } => Step::SetVariable {
            key: key.clone(),
            value: value.clone(),
        },
        AutomationStep::NewRow => Step::NewRow,
        AutomationStep::Export(f) => Step::Export { filename: f.clone() },
        AutomationStep::Screenshot(f) => Step::Screenshot { filename: f.clone() },
        AutomationStep::SwitchFrame(s) => Step::SwitchFrame { selector: s.clone() },
        AutomationStep::If { selector, then_steps } => {
            let inner = map_ui_steps_to_dsl(then_steps);
            Step::If { selector: selector.clone(), then_steps: inner }
        },
        AutomationStep::ForEach { selector, body } => {
            let inner = map_ui_steps_to_dsl(body);
            Step::ForEach { selector: selector.clone(), body: inner }
        },
        AutomationStep::CallFunction(n) => Step::CallFunction { name: n.clone() },
        AutomationStep::ImportDataset(f) => Step::ImportDataset { filename: f.clone() },
    }
}

/// Translates a list of panel blocks into engine DSL steps, nested blocks included.
pub fn map_ui_steps_to_dsl(steps: &Vec<AutomationStep>) -> (r: Vec<Step>)
    ensures
        steps_view(r@) == ui_seq_to_dsl(ui_steps_view(steps@)),
    decreases steps, 0nat,
{
    let mut out: Vec<Step> = Vec::new();
    let mut i: usize = 0;
    while i < steps.len()
        invariant
            i <= steps.len(),
            out.len() == i,
            forall|j: int| 0 <= j < i ==> (#[trigger] out@[j])@ == ui_to_dsl(steps@[j]@),
        decreases steps.len() - i,
    {
        assert(decreases_to!(steps => steps@[i as int]));
        let s = map_ui_step_to_dsl(&steps[i]);
        out.push(s);
        i += 1;
    }
    proof {
        lemma_steps_view(out@);
        lemma_ui_steps_view(steps@);
        lemma_ui_seq_to_dsl(ui_steps_view(steps@));
        lemma_seq_eq_by_index(steps_view(out@), ui_seq_to_dsl(ui_steps_view(steps@)));
    }
    out
}

} // verus!

verus! {

/// Loading a DSL step into the panel: every step becomes the block of the same
/// name, nested steps included. `SmartScroll`, which has no block, loads as a
/// scroll to the bottom.
pub open spec fn dsl_to_ui(d: StepV) -> AutomationStepV
    decreases d, 1nat,
{
    match d {
        StepV::Navigate { url } => AutomationStepV::Navigate(url),
        StepV::Click { selector } => AutomationStepV::Click(selector),
        StepV::RightClick { selector } => AutomationStepV::RightClick(selector),
        StepV::Hover { selector } => AutomationStepV::Hover(selector),
        StepV::Type { selector, value, is_variable } => AutomationStepV::Type { selector, value, is_variable },
        StepV::Wait { seconds } => AutomationStepV::Wait(seconds),
        StepV::WaitSelector { selector, timeout_ms } => AutomationStepV::WaitSelector { selector, timeout_ms },
        StepV::WaitUntilIdle { timeout_ms } => AutomationStepV::WaitUntilIdle { timeout_ms },
        StepV::WaitNetworkIdle { timeout_ms, min_idle_ms } => AutomationStepV::WaitNetworkIdle {
            timeout_ms,
            min_idle_ms,
        },
        StepV::Extract { selector, as_key, add_to_row } => AutomationStepV::Extract {
            selector,
            as_key,
            add_to_dataset: add_to_row,
        },
        StepV::NewRow => AutomationStepV::NewRow,
        StepV::Export { filename } => AutomationStepV::Export(filename),
        StepV::Screenshot { filename } => AutomationStepV::Screenshot(filename),
        StepV::SetVariable { key, value } => AutomationStepV::SetVariable { key, value },
        StepV::ScrollBottom => AutomationStepV::ScrollBottom,
        StepV::SmartScroll { .. } => AutomationStepV::ScrollBottom,
        StepV::SwitchFrame { selector } => AutomationStepV::SwitchFrame(selector),
        StepV::If { selector, then_steps } => AutomationStepV::If {
            selector,
            then_steps: dsl_seq_to_ui(then_steps),
        },
        StepV::ForEach { selector, body } => AutomationStepV::ForEach { selector, body: dsl_seq_to_ui(body) },
        StepV::CallFunction { name } => AutomationStepV::CallFunction(name),
        StepV::ImportDataset { filename } => AutomationStepV::ImportDataset(filename),
    }
}

pub open spec fn dsl_seq_to_ui(s: Seq<StepV>) -> Seq<AutomationStepV>
    decreases s, 0nat,
{
    if s.len() == 0 {
        Seq::empty()
    } else {
        seq![dsl_to_ui(s[0])] + dsl_seq_to_ui(s.subrange(1, s.len() as int))
    }
}

pub proof fn lemma_dsl_seq_to_ui(s: Seq<StepV>)
    ensures
        dsl_seq_to_ui(s).len() == s.len(),
        forall|i: int| 0 <= i < s.len() ==> #[trigger] dsl_seq_to_ui(s)[i] == dsl_to_ui(s[i]),
    decreases s.len(),
{
    if s.len() > 0 {
        lemma_dsl_seq_to_ui(s.subrange(1, s.len() as int));
    }
}

/// Saving a block and loading it back gives the same block, for every block,
/// nested blocks included.
pub proof fn lemma_save_load_round_trip(u: AutomationStepV)
    ensures
        dsl_to_ui(ui_to_dsl(u)) == u,
    decreases u, 1nat,
{
    match u {
        AutomationStepV::If { selector, then_steps } => lemma_save_load_round_trip_seq(then_steps),
        AutomationStepV::ForEach { selector, body } => lemma_save_load_round_trip_seq(body),
        _ => {},
    }
}

/// Saving a pipeline and loading it back gives the same pipeline, for every
/// sequence of blocks.
pub proof fn lemma_save_load_round_trip_seq(s: Seq<AutomationStepV>)
    ensures
        dsl_seq_to_ui(ui_seq_to_dsl(s)) == s,
    decreases s, 0nat,
{
    if s.len() > 0 {
        let rest = s.subrange(1, s.len() as int);
        lemma_save_load_round_trip(s[0]);
        lemma_save_load_round_trip_seq(rest);
        let d = ui_seq_to_dsl(s);
        assert(d == seq![ui_to_dsl(s[0])] + ui_seq_to_dsl(rest));
        assert(d[0] == ui_to_dsl(s[0]));
        assert(d.subrange(1, d.len() as int) =~= ui_seq_to_dsl(rest));
        assert(dsl_seq_to_ui(d) =~= seq![s[0]] + rest);
        assert(seq![s[0]] + rest =~= s);
    }
}

/// A step with no `SmartScroll` in it, at any depth.
pub open spec fn has_block(d: StepV) -> bool
    decreases d, 1nat,
{
    match d {
        StepV::SmartScroll { .. } => false,
        StepV::If { then_steps, .. } => all_have_blocks(then_steps),
        StepV::ForEach { body, .. } => all_have_blocks(body),
        _ => true,
    }
}

pub open spec fn all_have_blocks(s: Seq<StepV>) -> bool
    decreases s, 0nat,
{
    s.len() == 0 || (has_block(s[0]) && all_have_blocks(s.subrange(1, s.len() as int)))
}

/// Loading a DSL step into the panel and saving it again gives the same step,
/// for every step that has a block counterpart (all but `SmartScroll`).
pub proof fn lemma_load_save_round_trip(d: StepV)
    requires
        has_block(d),
    ensures
        ui_to_dsl(dsl_to_ui(d)) == d,
    decreases d, 1nat,
{
    match d {
        StepV::If { selector, then_steps } => lemma_load_save_round_trip_seq(then_steps),
        StepV::ForEach { selector, body } => lemma_load_save_round_trip_seq(body),
        _ => {},
    }
}

pub proof fn lemma_load_save_round_trip_seq(s: Seq<StepV>)
    requires
        all_have_blocks(s),
    ensures
        ui_seq_to_dsl(dsl_seq_to_ui(s)) == s,
    decreases s, 0nat,
{
    if s.len() > 0 {
        let rest = s.subrange(1, s.len() as int);
        lemma_load_save_round_trip(s[0]);
        lemma_load_save_round_trip_seq(rest);
        let u = dsl_seq_to_ui(s);
        assert(u == seq![dsl_to_ui(s[0])] + dsl_seq_to_ui(rest));
        assert(u[0] == dsl_to_ui(s[0]));
        assert(u.subrange(1, u.len() as int) =~= dsl_seq_to_ui(rest));
        assert(ui_seq_to_dsl(u) =~= seq![s[0]] + rest);
        assert(seq![s[0]] + rest =~= s);
    }
}

/// `map_single_step`: one block to the DSL step of the same name, nested blocks included.
pub fn map_single_step(s: &AutomationStep) -> (r: Step)
    ensures
        r@ == ui_to_dsl(s@),
{
    map_ui_step_to_dsl(s)
}

/// Builds the version-1 DSL document that the panel saves: every main block and every
/// function block translated by `map_single_step`, functions kept in order.
pub fn map_steps_to_dsl(steps: &Vec<AutomationStep>, functions: &Vec<UiFunction>) -> (r: AutomationDsl)
    ensures
        r.dsl_version == 1,
        r.metadata is None,
        steps_view(r.steps@) == ui_seq_to_dsl(ui_steps_view(steps@)),
        r.functions.len() == functions.len(),
        forall|k: int| 0 <= k < functions.len() ==> {
            &&& (#[trigger] r.functions@[k]).name@ == functions@[k].name@
            &&& steps_view(r.functions@[k].steps@) == ui_seq_to_dsl(ui_steps_view(functions@[k].steps@))
        },
{
    let mut fs: Vec<DslFunction> = Vec::new();
    let mut k: usize = 0;
    while k < functions.len()
        invariant
            k <= functions.len(),
            fs.len() == k,
            forall|j: int| 0 <= j < k ==> {
                &&& (#[trigger] fs@[j]).name@ == functions@[j].name@
                &&& steps_view(fs@[j].steps@) == ui_seq_to_dsl(ui_steps_view(functions@[j].steps@))
            },
        decreases functions.len() - k,
    {
        let f = &functions[k];
        let mapped = map_ui_steps_to_dsl(&f.steps);
        fs.push(DslFunction { name: f.name.clone(), steps: mapped });
        k += 1;
    }
    AutomationDsl { dsl_version: 1, metadata: None, functions: fs, steps: map_ui_steps_to_dsl(steps) }
}

/// `map_dsl_to_steps` for one step: the block of the same name, nested steps included.
pub fn map_dsl_step(s: &Step) -> (r: AutomationStep)
    ensures
        r@ == dsl_to_ui(s@),
    decreases s, 1nat,
{
    match s {
        Step::Navigate { url } => AutomationStep::Navigate(url.clone()),
        Step::Click { selector } => AutomationStep::Click(selector.clone()),
        Step::RightClick { selector } => AutomationStep::RightClick(selector.clone()),
        Step::Hover { selector } => AutomationStep::Hover(selector.clone()),
        Step::Type { selector, value, is_variable } => AutomationStep::Type {
            selector: selector.clone(),
            value: value.clone(),
            is_variable: *is_variable,
        },
        Step::Wait { seconds } => AutomationStep::Wait(*seconds),
        Step::WaitSelector { selector, timeout_ms } => AutomationStep::WaitSelector {
            selector: selector.clone(),
            timeout_ms: *timeout_ms,
        },
        Step::WaitUntilIdle { timeout_ms } => AutomationStep::WaitUntilIdle { timeout_ms: *timeout_ms },
        Step::WaitNetworkIdle { timeout_ms, min_idle_ms } => AutomationStep::WaitNetworkIdle {
            timeout_ms: *timeout_ms,
            min_idle_ms: *min_idle_ms,
        },
        Step::Extract { selector, as_key, add_to_row } => AutomationStep::Extract {
            selector: selector.clone(),
            as_key: as_key.clone(),
            add_to_dataset: *add_to_row,
        },
        Step::NewRow => AutomationStep::NewRow,
        Step::Export { filename } => AutomationStep::Export(filename.clone()),
        Step::Screenshot { filename } => AutomationStep::Screenshot(filename.clone()),
        Step::SetVariable { key, value } => AutomationStep::SetVariable {
            key: key.clone(),
            value: value.clone(),
        },
        Step::ScrollBottom => AutomationStep::ScrollBottom,
        Step::SmartScroll { .. } => AutomationStep::ScrollBottom,
        Step::SwitchFrame { selector } => AutomationStep::SwitchFrame(selector.clone()),
        Step::If { selector, then_steps } => {
            let inner = map_dsl_seq(then_steps);
            AutomationStep::If { selector: selector.clone(), then_steps: inner }
        },
        Step::ForEach { selector, body } => {
            let inner = map_dsl_seq(body);
            AutomationStep::ForEach { selector: selector.clone(), body: inner }
        },
        Step::CallFunction { name } => AutomationStep::CallFunction(name.clone()),
        Step::ImportDataset { filename } => AutomationStep::ImportDataset(filename.clone()),
    }
}

fn map_dsl_seq(steps: &Vec<Step>) -> (r: Vec<AutomationStep>)
    ensures
        ui_steps_view(r@) == dsl_seq_to_ui(steps_view(steps@)),
    decreases steps, 0nat,
{
    let mut out: Vec<AutomationStep> = Vec::new();
    let mut i: usize = 0;
    while i < steps.len()
        invariant
            i <= steps.len(),
            out.len() == i,
            forall|j: int| 0 <= j < i ==> (#[trigger] out@[j])@ == dsl_to_ui(steps@[j]@),
        decreases steps.len() - i,
    {
        assert(decreases_to!(steps => steps@[i as int]));
        out.push(map_dsl_step(&steps[i]));
        i += 1;
    }
    proof {
        lemma_steps_view(steps@);
        lemma_ui_steps_view(out@);
        lemma_dsl_seq_to_ui(steps_view(steps@));
        assert(ui_steps_view(out@) =~= dsl_seq_to_ui(steps_view(steps@)));
    }
    out
}

/// Loads DSL steps into panel blocks, one block per step, nested steps included.
pub fn map_dsl_to_steps(steps: Vec<Step>) -> (r: Vec<AutomationStep>)
    ensures
        ui_steps_view(r@) == dsl_seq_to_ui(steps_view(steps@)),
{
    map_dsl_seq(&steps)
}


/// Saving a block keeps its kind and every field: each block becomes the DSL
/// step of the same name with the same values (for an `Extract` block, the
/// step adds to the dataset row exactly when the block's dataset box is
/// ticked); a nested block keeps its selector and as many children.
pub proof fn lemma_save_keeps_fields(u: AutomationStepV)
    ensures
        u matches AutomationStepV::Navigate(x) ==> ui_to_dsl(u) matches StepV::Navigate { url } && url == x,
        u matches AutomationStepV::Click(x) ==> ui_to_dsl(u) matches StepV::Click { selector } && selector == x,
        u matches AutomationStepV::RightClick(x) ==> ui_to_dsl(u) matches StepV::RightClick { selector } && selector == x,
        u matches AutomationStepV::Hover(x) ==> ui_to_dsl(u) matches StepV::Hover { selector } && selector == x,
        u matches AutomationStepV::Type { selector: s, value: v, is_variable: b } ==> ui_to_dsl(u) matches StepV::Type {
            selector,
            value,
            is_variable,
        } && selector == s && value == v && is_variable == b,
        u matches AutomationStepV::Wait(n) ==> ui_to_dsl(u) matches StepV::Wait { seconds } && seconds == n,
        u matches AutomationStepV::WaitSelector { selector: s, timeout_ms: t } ==> ui_to_dsl(u) matches StepV::WaitSelector {
            selector,
            timeout_ms,
        } && selector == s && timeout_ms == t,
        u matches AutomationStepV::WaitUntilIdle { timeout_ms: t } ==> ui_to_dsl(u) matches StepV::WaitUntilIdle {
            timeout_ms,
        } && timeout_ms == t,
        u matches AutomationStepV::WaitNetworkIdle { timeout_ms: t, min_idle_ms: m } ==> ui_to_dsl(u) matches StepV::WaitNetworkIdle {
            timeout_ms,
            min_idle_ms,
        } && timeout_ms == t && min_idle_ms == m,
        u matches AutomationStepV::Extract { selector: s, as_key: k, add_to_dataset: d } ==> ui_to_dsl(u) matches StepV::Extract {
            selector,
            as_key,
            add_to_row,
        } && selector == s && as_key == k && add_to_row == d,
        u matches AutomationStepV::SetVariable { key: k, value: v } ==> ui_to_dsl(u) matches StepV::SetVariable {
            key,
            value,
        } && key == k && value == v,
        u is NewRow ==> ui_to_dsl(u) is NewRow,
        u is ScrollBottom ==> ui_to_dsl(u) is ScrollBottom,
        u matches AutomationStepV::Export(f) ==> ui_to_dsl(u) matches StepV::Export { filename } && filename == f,
        u matches AutomationStepV::Screenshot(f) ==> ui_to_dsl(u) matches StepV::Screenshot { filename } && filename == f,
        u matches AutomationStepV::SwitchFrame(x) ==> ui_to_dsl(u) matches StepV::SwitchFrame { selector } && selector == x,
        u matches AutomationStepV::If { selector: s, then_steps: t } ==> ui_to_dsl(u) matches StepV::If {
            selector,
            then_steps,
        } && selector == s && then_steps.len() == t.len(),
        u matches AutomationStepV::ForEach { selector: s, body: b } ==> ui_to_dsl(u) matches StepV::ForEach {
            selector,
            body,
        } && selector == s && body.len() == b.len(),
        u matches AutomationStepV::CallFunction(n) ==> ui_to_dsl(u) matches StepV::CallFunction { name } && name == n,
        u matches AutomationStepV::ImportDataset(f) ==> ui_to_dsl(u) matches StepV::ImportDataset { filename } && filename == f,
{
    match u {
        AutomationStepV::If { selector, then_steps } => lemma_ui_seq_to_dsl(then_steps),
        AutomationStepV::ForEach { selector, body } => lemma_ui_seq_to_dsl(body),
        _ => {},
    }
}

/// Loading a step keeps its kind and every field: each DSL step becomes the
/// block of the same name with the same values (an `Extract` step's row flag
/// becomes the block's dataset box); `SmartScroll`, which has no block, loads
/// as a scroll to the bottom.
pub proof fn lemma_load_keeps_fields(d: StepV)
    ensures
        d matches StepV::Navigate { url } ==> dsl_to_ui(d) matches AutomationStepV::Navigate(x) && x == url,
        d matches StepV::Click { selector } ==> dsl_to_ui(d) matches AutomationStepV::Click(x) && x == selector,
        d matches StepV::RightClick { selector } ==> dsl_to_ui(d) matches AutomationStepV::RightClick(x) && x == selector,
        d matches StepV::Hover { selector } ==> dsl_to_ui(d) matches AutomationStepV::Hover(x) && x == selector,
        d matches StepV::Type { selector: s, value: v, is_variable: b } ==> dsl_to_ui(d) matches AutomationStepV::Type {
            selector,
            value,
            is_variable,
        } && selector == s && value == v && is_variable == b,
        d matches StepV::Wait { seconds } ==> dsl_to_ui(d) matches AutomationStepV::Wait(n) && n == seconds,
        d matches StepV::WaitSelector { selector: s, timeout_ms: t } ==> dsl_to_ui(d) matches AutomationStepV::WaitSelector {
            selector,
            timeout_ms,
        } && selector == s && timeout_ms == t,
        d matches StepV::WaitUntilIdle { timeout_ms: t } ==> dsl_to_ui(d) matches AutomationStepV::WaitUntilIdle {
            timeout_ms,
        } && timeout_ms == t,
        d matches StepV::WaitNetworkIdle { timeout_ms: t, min_idle_ms: m } ==> dsl_to_ui(d) matches AutomationStepV::WaitNetworkIdle {
            timeout_ms,
            min_idle_ms,
        } && timeout_ms == t && min_idle_ms == m,
        d matches StepV::Extract { selector: s, as_key: k, add_to_row: r } ==> dsl_to_ui(d) matches AutomationStepV::Extract {
            selector,
            as_key,
            add_to_dataset,
        } && selector == s && as_key == k && add_to_dataset == r,
        d matches StepV::SetVariable { key: k, value: v } ==> dsl_to_ui(d) matches AutomationStepV::SetVariable {
            key,
            value,
        } && key == k && value == v,
        d is NewRow ==> dsl_to_ui(d) is NewRow,
        d is ScrollBottom ==> dsl_to_ui(d) is ScrollBottom,
        d is SmartScroll ==> dsl_to_ui(d) is ScrollBottom,
        d matches StepV::Export { filename } ==> dsl_to_ui(d) matches AutomationStepV::Export(f) && f == filename,
        d matches StepV::Screenshot { filename } ==> dsl_to_ui(d) matches AutomationStepV::Screenshot(f) && f == filename,
        d matches StepV::SwitchFrame { selector } ==> dsl_to_ui(d) matches AutomationStepV::SwitchFrame(x) && x == selector,
        d matches StepV::If { selector: s, then_steps: t } ==> dsl_to_ui(d) matches AutomationStepV::If {
            selector,
            then_steps,
        } && selector == s && then_steps.len() == t.len(),
        d matches StepV::ForEach { selector: s, body: b } ==> dsl_to_ui(d) matches AutomationStepV::ForEach {
            selector,
            body,
        } && selector == s && body.len() == b.len(),
        d matches StepV::CallFunction { name } ==> dsl_to_ui(d) matches AutomationStepV::CallFunction(n) && n == name,
        d matches StepV::ImportDataset { filename } ==> dsl_to_ui(d) matches AutomationStepV::ImportDataset(f) && f == filename,
{
    match d {
        StepV::If { selector, then_steps } => lemma_dsl_seq_to_ui(then_steps),
        StepV::ForEach { selector, body } => lemma_dsl_seq_to_ui(body),
        _ => {},
    }
}

} // verus!
