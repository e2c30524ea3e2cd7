//! Fix-it hints for known scripting failures.
use vstd::prelude::*;
use crate::text::{chars_of, contains_chars, lower_chars, lower_seq, seq_contains, upper_seq};

verus! {

/// A one-element sequence when `cond` holds, else nothing.
pub open spec fn when(cond: bool, hint: Seq<char>) -> Seq<Seq<char>> {
    if cond { seq![hint] } else { Seq::empty() }
}

/// The number of hint rules.
pub open spec fn rule_count() -> nat {
    18
}

/// Hint rule `k`: when it fires on the lower-cased message `m`, and its text.
pub open spec fn rule(m: Seq<char>, k: nat) -> (bool, Seq<char>) {
    if k == 0 {
        (seq_contains(m, "rhai compile error"@) && seq_contains(m, "inject"@) && seq_contains(m, "expecting ','"@), "Use plain string syntax: tab.console.inject(\"...\") and escape nested quotes."@)
    } else if k == 1 {
        (seq_contains(m, "entry function"@) && seq_contains(m, "not found"@), "Set Entry to an existing function name and ensure code has `fn <entry>()`."@)
    } else if k == 2 {
        (seq_contains(m, "script tab token"@) && seq_contains(m, "not bound"@), "Use Tab.catch() or choose Execution Target from Scripting tab."@)
    } else if k == 3 {
        (seq_contains(m, "path escapes output_dir scope"@) || seq_contains(m, "absolute paths are not allowed"@), "Use relative output paths only, e.g. script_outputs/result.txt."@)
    } else if k == 4 {
        (seq_contains(m, "selector"@) && seq_contains(m, "not found"@), "Try fallback chain selector_a || selector_b and add wait_for_ms before interaction."@)
    } else if k == 5 {
        (seq_contains(m, "timed out"@), "Increase wait time or step timeout; dynamic pages may need WaitSelector/SmartScroll."@)
    } else if k == 6 {
        (seq_contains(m, "api guard failed"@), "Run Check and inspect function names/argument counts for scripting API mismatches."@)
    } else if k == 7 {
        (seq_contains(m, "entry error"@), "Entry function may call unavailable APIs; test with a minimal body and add calls incrementally."@)
    } else if k == 8 {
        (seq_contains(m, "dsl parse error"@), "Validate JSON passed to run_automation_json; trailing commas and quotes are common issues."@)
    } else if k == 9 {
        (seq_contains(m, "tabcatch failed"@) || seq_contains(m, "no selected tab in ui"@), "Select a target tab in Scripting Execution Target before using Tab.catch()/TabCatch()."@)
    } else if k == 10 {
        (seq_contains(m, "unsupported capture mode"@), "Use capture.html(), capture.mirror(), or capture.complete() only."@)
    } else if k == 11 {
        (seq_contains(m, "invalid selector syntax"@), "Fix CSS syntax and test selector in browser devtools querySelector first."@)
    } else if k == 12 {
        (seq_contains(m, "selector not found on selected tab"@), "Page content may be dynamic; add wait_for_ms or navigate before interaction."@)
    } else if k == 13 {
        (seq_contains(m, "failed to start ffmpeg"@), "Install ffmpeg and ensure it is available in PATH."@)
    } else if k == 14 {
        (seq_contains(m, "preflight failed"@), "Keep browser/tab active while running Check preflight or disable preflight option."@)
    } else if k == 15 {
        (seq_contains(m, "cookie"@) && seq_contains(m, "not bound"@), "Cookie APIs require a bound tab token; use Tab(url) or Tab.catch() first."@)
    } else if k == 16 {
        (seq_contains(m, "reserved"@) && seq_contains(m, "var"@), "In Rhai, use 'let' instead of 'var' to declare variables."@)
    } else {
        (seq_contains(m, "console inject failed"@), "Ensure target tab is still open; use Tab.catch() to rebind active tab."@)
    }
}

/// The hints of the first `k` rules that fire, in rule order.
pub open spec fn hints_upto(m: Seq<char>, k: nat) -> Seq<Seq<char>>
    decreases k,
{
    if k == 0 {
        Seq::empty()
    } else {
        hints_upto(m, (k - 1) as nat) + when(rule(m, (k - 1) as nat).0, rule(m, (k - 1) as nat).1)
    }
}

/// The hints for an error message, given the message in ASCII lower case, in rule order.
pub open spec fn hints_spec(m: Seq<char>) -> Seq<Seq<char>> {
    hints_upto(m, rule_count())
}

pub open spec fn views_of(v: Seq<&'static str>) -> Seq<Seq<char>> {
    v.map_values(|s: &'static str| s@)
}

fn has(m: &Vec<char>, needle: &str) -> (r: bool)
    ensures
        r == seq_contains(m@, needle@),
{
    let n = chars_of(needle);
    contains_chars(m, &n)
}

fn add_when(out: &mut Vec<&'static str>, cond: bool, hint: &'static str)
    ensures
        views_of(final(out)@) == views_of(old(out)@) + when(cond, hint@),
{
    if cond {
        out.push(hint);
        assert(views_of(out@) =~= views_of(old(out)@) + seq![hint@]);
    } else {
        assert(views_of(out@) =~= views_of(old(out)@) + Seq::<Seq<char>>::empty());
    }
}

fn rule_exec(m: &Vec<char>, k: usize) -> (r: (bool, &'static str))
    requires
        k < 18,
    ensures
        r.0 == rule(m@, k as nat).0,
        r.1@ == rule(m@, k as nat).1,
{
    match k {
        0 => (has(m, "rhai compile error") && has(m, "inject") && has(m, "expecting ','"), "Use plain string syntax: tab.console.inject(\"...\") and escape nested quotes."),
        1 => (has(m, "entry function") && has(m, "not found"), "Set Entry to an existing function name and ensure code has `fn <entry>()`."),
        2 => (has(m, "script tab token") && has(m, "not bound"), "Use Tab.catch() or choose Execution Target from Scripting tab."),
        3 => (has(m, "path escapes output_dir scope") || has(m, "absolute paths are not allowed"), "Use relative output paths only, e.g. script_outputs/result.txt."),
        4 => (has(m, "selector") && has(m, "not found"), "Try fallback chain selector_a || selector_b and add wait_for_ms before interaction."),
        5 => (has(m, "timed out"), "Increase wait time or step timeout; dynamic pages may need WaitSelector/SmartScroll."),
        6 => (has(m, "api guard failed"), "Run Check and inspect function names/argument counts for scripting API mismatches."),
        7 => (has(m, "entry error"), "Entry function may call unavailable APIs; test with a minimal body and add calls incrementally."),
        8 => (has(m, "dsl parse error"), "Validate JSON passed to run_automation_json; trailing commas and quotes are common issues."),
        9 => (has(m, "tabcatch failed") || has(m, "no selected tab in ui"), "Select a target tab in Scripting Execution Target before using Tab.catch()/TabCatch()."),
        10 => (has(m, "unsupported capture mode"), "Use capture.html(), capture.mirror(), or capture.complete() only."),
        11 => (has(m, "invalid selector syntax"), "Fix CSS syntax and test selector in browser devtools querySelector first."),
        12 => (has(m, "selector not found on selected tab"), "Page content may be dynamic; add wait_for_ms or navigate before interaction."),
        13 => (has(m, "failed to start ffmpeg"), "Install ffmpeg and ensure it is available in PATH."),
        14 => (has(m, "preflight failed"), "Keep browser/tab active while running Check preflight or disable preflight option."),
        15 => (has(m, "cookie") && has(m, "not bound"), "Cookie APIs require a bound tab token; use Tab(url) or Tab.catch() first."),
        16 => (has(m, "reserved") && has(m, "var"), "In Rhai, use 'let' instead of 'var' to declare variables."),
        _ => (has(m, "console inject failed"), "Ensure target tab is still open; use Tab.catch() to rebind active tab."),
    }
}

/// Returns short, actionable hints for known error patterns in `message`
/// (matched case-insensitively, in a fixed order).
pub fn hints_for_error(message: &str) -> (r: Vec<&'static str>)
    ensures
        views_of(r@) == hints_spec(lower_seq(message@)),
{
    let raw = chars_of(message);
    let m = lower_chars(&raw);
    let mut out: Vec<&'static str> = Vec::new();
    assert(views_of(out@) =~= Seq::<Seq<char>>::empty());
    let mut k: usize = 0;
    while k < 18
        invariant
            k <= 18,
            views_of(out@) == hints_upto(m@, k as nat),
        decreases 18 - k,
    {
        let (c, h) = rule_exec(&m, k);
        add_when(&mut out, c, h);
        k += 1;
    }
    out
}


/// The text of hint rule `k` (it does not depend on the message).
pub open spec fn rule_text(k: nat) -> Seq<char> {
    rule(Seq::empty(), k).1
}

proof fn lemma_rule_texts_distinct()
    ensures
        forall|a: nat, b: nat| a < b < rule_count() ==> #[trigger] rule_text(a) != #[trigger] rule_text(b),
{
    reveal_strlit("Use plain string syntax: tab.console.inject(\"...\") and escape nested quotes.");
    reveal_strlit("Set Entry to an existing function name and ensure code has `fn <entry>()`.");
    reveal_strlit("Use Tab.catch() or choose Execution Target from Scripting tab.");
    reveal_strlit("Use relative output paths only, e.g. script_outputs/result.txt.");
    reveal_strlit("Try fallback chain selector_a || selector_b and add wait_for_ms before interaction.");
    reveal_strlit("Increase wait time or step timeout; dynamic pages may need WaitSelector/SmartScroll.");
    reveal_strlit("Run Check and inspect function names/argument counts for scripting API mismatches.");
    reveal_strlit("Entry function may call unavailable APIs; test with a minimal body and add calls incrementally.");
    reveal_strlit("Validate JSON passed to run_automation_json; trailing commas and quotes are common issues.");
    reveal_strlit("Select a target tab in Scripting Execution Target before using Tab.catch()/TabCatch().");
    reveal_strlit("Use capture.html(), capture.mirror(), or capture.complete() only.");
    reveal_strlit("Fix CSS syntax and test selector in browser devtools querySelector first.");
    reveal_strlit("Page content may be dynamic; add wait_for_ms or navigate before interaction.");
    reveal_strlit("Install ffmpeg and ensure it is available in PATH.");
    reveal_strlit("Keep browser/tab active while running Check preflight or disable preflight option.");
    reveal_strlit("Cookie APIs require a bound tab token; use Tab(url) or Tab.catch() first.");
    reveal_strlit("In Rhai, use 'let' instead of 'var' to declare variables.");
    reveal_strlit("Ensure target tab is still open; use Tab.catch() to rebind active tab.");
    assert forall|a: nat, b: nat| a < b < rule_count() implies #[trigger] rule_text(a) != #[trigger] rule_text(b) by {
        if rule_text(a) == rule_text(b) {
            assert(rule_text(a).len() == rule_text(b).len());
            assert(rule_text(a)[0] == rule_text(b)[0]);
            assert(rule_text(a)[4] == rule_text(b)[4]);
            assert(rule_text(a)[rule_text(a).len() - 2] == rule_text(b)[rule_text(b).len() - 2]);
        }
    }
}

proof fn lemma_hints_upto(m: Seq<char>, n: nat)
    requires
        n <= rule_count(),
    ensures
        hints_upto(m, n).len() <= n,
        hints_upto(m, n).len() == 0 <==> (forall|k: nat| k < n ==> !(#[trigger] rule(m, k)).0),
        forall|i: int| 0 <= i < hints_upto(m, n).len() ==> exists|k: nat|
            k < n && (#[trigger] rule(m, k)).0 && #[trigger] hints_upto(m, n)[i] == rule_text(k),
        hints_upto(m, n).no_duplicates(),
    decreases n,
{
    if n > 0 {
        let k0 = (n - 1) as nat;
        lemma_hints_upto(m, k0);
        lemma_rule_texts_distinct();
        let prev = hints_upto(m, k0);
        let cur = hints_upto(m, n);
        assert(rule(m, k0).1 == rule_text(k0));
        if rule(m, k0).0 {
            assert(cur == prev.push(rule_text(k0)));
            assert forall|i: int| 0 <= i < cur.len() implies exists|k: nat|
                k < n && (#[trigger] rule(m, k)).0 && #[trigger] cur[i] == rule_text(k) by {
                if i < prev.len() {
                    let k = choose|k: nat| k < k0 && (#[trigger] rule(m, k)).0 && prev[i] == rule_text(k);
                    assert(cur[i] == prev[i]);
                    assert(rule(m, k).0);
                } else {
                    assert(rule(m, k0).0);
                }
            }
            assert forall|i: int, j: int| 0 <= i < j < cur.len() implies cur[i] != cur[j] by {
                if j == prev.len() {
                    let k = choose|k: nat| k < k0 && (#[trigger] rule(m, k)).0 && prev[i] == rule_text(k);
                    assert(rule_text(k) != rule_text(k0));
                } else {
                    assert(cur[i] == prev[i] && cur[j] == prev[j]);
                }
            }
        } else {
            assert(cur =~= prev);
        }
        assert((forall|k: nat| k < n ==> !(#[trigger] rule(m, k)).0) <==> ((forall|k: nat| k < k0 ==> !(#[trigger] rule(m, k)).0) && !rule(m, k0).0)) by {
            if (forall|k: nat| k < k0 ==> !(#[trigger] rule(m, k)).0) && !rule(m, k0).0 {
                assert forall|k: nat| k < n implies !(#[trigger] rule(m, k)).0 by {
                    if k == k0 {
                    }
                }
            }
        }
    }
}

/// Hints come in rule order: of two hints, the earlier one is the text of the
/// earlier rule.
proof fn lemma_hints_in_order(m: Seq<char>, n: nat)
    requires
        n <= rule_count(),
    ensures
        forall|i: int, j: int, a: nat, b: nat|
            #![trigger hints_upto(m, n)[i], hints_upto(m, n)[j], rule_text(a), rule_text(b)]
            0 <= i < j < hints_upto(m, n).len() && a < rule_count() && b < rule_count()
                && hints_upto(m, n)[i] == rule_text(a) && hints_upto(m, n)[j] == rule_text(b) ==> a < b,
    decreases n,
{
    if n > 0 {
        let k0 = (n - 1) as nat;
        lemma_hints_in_order(m, k0);
        lemma_hints_upto(m, k0);
        lemma_rule_texts_distinct();
        let prev = hints_upto(m, k0);
        let cur = hints_upto(m, n);
        assert(rule(m, k0).1 == rule_text(k0));
        if rule(m, k0).0 {
            assert(cur == prev.push(rule_text(k0)));
            assert forall|i: int, j: int, a: nat, b: nat|
                #![trigger cur[i], cur[j], rule_text(a), rule_text(b)]
                0 <= i < j < cur.len() && a < rule_count() && b < rule_count()
                    && cur[i] == rule_text(a) && cur[j] == rule_text(b) implies a < b by {
                if j == prev.len() {
                    let k = choose|k: nat| k < k0 && (#[trigger] rule(m, k)).0 && prev[i] == rule_text(k);
                    assert(cur[i] == prev[i]);
                    if a != k {
                        if a < k { assert(rule_text(a) != rule_text(k)); } else { assert(rule_text(k) != rule_text(a)); }
                    }
                    if b != k0 {
                        if b < k0 { assert(rule_text(b) != rule_text(k0)); } else { assert(rule_text(k0) != rule_text(b)); }
                    }
                } else {
                    assert(cur[i] == prev[i] && cur[j] == prev[j]);
                }
            }
        } else {
            assert(cur =~= prev);
        }
    }
}

/// What the hint base gives for a message: at most one hint per rule, none
/// twice, each the text of a rule that fires, listed in rule order, and none
/// at all exactly when no rule fires. Messages that differ only in ASCII case
/// (an upper-cased message among them) get the same hints.
pub proof fn lemma_hints_shape(m: Seq<char>, other: Seq<char>)
    ensures
        hints_spec(lower_seq(m)).len() <= rule_count(),
        hints_spec(lower_seq(m)).no_duplicates(),
        hints_spec(lower_seq(m)).len() == 0 <==> (forall|k: nat| k < rule_count() ==> !(#[trigger] rule(lower_seq(m), k)).0),
        forall|i: int| 0 <= i < hints_spec(lower_seq(m)).len() ==> exists|k: nat|
            k < rule_count() && (#[trigger] rule(lower_seq(m), k)).0 && #[trigger] hints_spec(lower_seq(m))[i] == rule_text(k),
        lower_seq(m) == lower_seq(other) ==> hints_spec(lower_seq(m)) == hints_spec(lower_seq(other)),
        hints_spec(lower_seq(upper_seq(m))) == hints_spec(lower_seq(m)),
        forall|i: int, j: int, a: nat, b: nat|
            #![trigger hints_spec(lower_seq(m))[i], hints_spec(lower_seq(m))[j], rule_text(a), rule_text(b)]
            0 <= i < j < hints_spec(lower_seq(m)).len() && a < rule_count() && b < rule_count()
                && hints_spec(lower_seq(m))[i] == rule_text(a) && hints_spec(lower_seq(m))[j] == rule_text(b) ==> a < b,
{
    lemma_hints_upto(lower_seq(m), rule_count());
    lemma_hints_in_order(lower_seq(m), rule_count());
    crate::text::lemma_lower_upper(m);
}

} // verus!
