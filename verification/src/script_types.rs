//! Script packages, check reports and templates.
use vstd::prelude::*;
use crate::clock::local_timestamp;
use crate::strmap::StrMap;

verus! {

/// The JSON package in which scripts are imported and exported.
pub struct ScriptPackage {
    pub version: u32,
    pub name: String,
    pub description: String,
    pub created_at: i64,
    pub updated_at: i64,
    pub entry: String,
    pub code: String,
    pub tags: Vec<String>,
}

/// The code of a new, untitled package.
pub open spec fn starter_code() -> Seq<char> {
    "fn main() {\n    log(\"hello scripting\");\n}\n"@
}

impl ScriptPackage {
    /// The untitled starter package, stamped with `now`.
    pub fn starter(now: i64) -> (r: Self)
        ensures
            r.version == 1,
            r.name@ == "untitled"@,
            r.description@ == Seq::<char>::empty(),
            r.created_at == now,
            r.updated_at == now,
            r.entry@ == "main"@,
            r.code@ == starter_code(),
            r.tags@.len() == 0,
    {
        ScriptPackage {
            version: 1,
            name: String::from_str("untitled"),
            description: String::new(),
            created_at: now,
            updated_at: now,
            entry: String::from_str("main"),
            code: String::from_str("fn main() {\n    log(\"hello scripting\");\n}\n"),
            tags: Vec::new(),
        }
    }
}

impl Default for ScriptPackage {
    /// The untitled starter package, stamped with the current time.
    fn default() -> (r: Self)
        ensures
            r.version == 1,
            r.name@ == "untitled"@,
            r.description@ == Seq::<char>::empty(),
            r.created_at == r.updated_at,
            r.entry@ == "main"@,
            r.code@ == starter_code(),
            r.tags@.len() == 0,
    {
        let now = local_timestamp();
        ScriptPackage::starter(now)
    }
}

#[derive(Clone, Copy, PartialEq, Eq, Debug, Structural)]
pub enum DiagnosticSeverity {
    Error,
    Warn,
    Info,
}

#[derive(Clone, Copy, PartialEq, Eq, Debug, Structural)]
pub enum DiagnosticStage {
    Compile,
    Entry,
    ApiGuard,
    Lint,
    Preflight,
}

/// One finding of a script check.
pub struct ScriptDiagnostic {
    pub code: String,
    pub stage: DiagnosticStage,
    pub severity: DiagnosticSeverity,
    pub message: String,
    pub line: Option<usize>,
    pub column: Option<usize>,
    pub hint: Option<String>,
}

/// The mathematical value of a diagnostic.
pub struct DiagnosticV {
    pub code: Seq<char>,
    pub stage: DiagnosticStage,
    pub severity: DiagnosticSeverity,
    pub message: Seq<char>,
    pub line: Option<usize>,
    pub column: Option<usize>,
    pub hint: Option<Seq<char>>,
}

pub open spec fn opt_str_view(o: Option<String>) -> Option<Seq<char>> {
    match o {
        Some(s) => Some(s@),
        None => None,
    }
}

impl View for ScriptDiagnostic {
    type V = DiagnosticV;

    open spec fn view(&self) -> DiagnosticV {
        DiagnosticV {
            code: self.code@,
            stage: self.stage,
            severity: self.severity,
            message: self.message@,
            line: self.line,
            column: self.column,
            hint: opt_str_view(self.hint),
        }
    }
}

pub open spec fn diags_view(v: Seq<ScriptDiagnostic>) -> Seq<DiagnosticV> {
    v.map_values(|d: ScriptDiagnostic| d@)
}

/// The outcome of a script check.
pub struct ScriptingCheckReport {
    pub ok: bool,
    pub diagnostics: Vec<ScriptDiagnostic>,
}

/// A ready-made script offered in the template picker.
pub struct ScriptTemplate {
    pub id: String,
    pub title: String,
    pub description: String,
    pub package: ScriptPackage,
}


/// What a script run is handed: the package, the tab it targets, what is
/// known of that tab, and how to run.
pub struct ScriptExecutionRequest {
    pub package: ScriptPackage,
    pub selected_tab_id: Option<String>,
    pub selected_tab_console_logs: Vec<String>,
    pub selected_tab_cookies: StrMap,
    pub break_condition: Option<String>,
    pub emit_step_timing: bool,
    pub apply_stealth: bool,
    pub port: u16,
    pub output_dir: String,
}

} // verus!
