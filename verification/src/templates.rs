//! The built-in script templates offered by the studio.
use vstd::prelude::*;
use crate::clock::local_timestamp;
use crate::script_types::{ScriptPackage, ScriptTemplate};
use crate::text::{own, push_str, strs_view};

verus! {

/// The texts of a template: id, title, description, code and tags.
pub struct TemplateText {
    pub id: Seq<char>,
    pub title: Seq<char>,
    pub description: Seq<char>,
    pub code: Seq<char>,
    pub tags: Seq<Seq<char>>,
}

/// A template made from `t` at time `now`: its package is named after the id,
/// starts at `main` and was created and updated at `now`.
pub open spec fn template_is(r: ScriptTemplate, t: TemplateText, now: i64) -> bool {
    &&& r.id@ == t.id
    &&& r.title@ == t.title
    &&& r.description@ == t.description
    &&& r.package.version == 1
    &&& r.package.name@ == t.id
    &&& r.package.description@ == t.description
    &&& r.package.created_at == now
    &&& r.package.updated_at == now
    &&& r.package.entry@ == "main"@
    &&& r.package.code@ == t.code
    &&& strs_view(r.package.tags@) == t.tags
}

/// The number of built-in templates.
pub open spec fn template_count() -> nat {
    10
}

/// The `k`-th built-in template, in the order the studio lists them.
pub open spec fn template_text(k: int) -> TemplateText {
    if k == 0 {
        TemplateText {
            id: "quick_capture"@,
            title: "Quick Capture"@,
            description: "Open page, wait, save HTML, and take named/default screenshots."@,
            code: "fn main() {\n    let tab = Tab(\"https://example.com\");\n    tab.wait_for_ms(1200);\n    tab.capture.html();\n    tab.screenshot();\n    tab.screenshot(\"quick_capture.png\");\n    log(\"quick capture finished\");\n}\n"@,
            tags: seq!["template"@, "capture"@, "starter"@],
        }
    } else if k == 1 {
        TemplateText {
            id: "search_flow"@,
            title: "Search Flow"@,
            description: "Navigate to a search page, type into an input, and click submit."@,
            code: "fn main() {\n    let tab = Tab(\"https://duckduckgo.com\");\n    tab.wait_for_ms(1000);\n    let q = tab.find_el(\"input[name='q']\");\n    q.type(\"sniper studio scripting\");\n    let submit = tab.find_el(\"button[type='submit']\");\n    submit.click();\n}\n"@,
            tags: seq!["template"@, "form"@, "elements"@],
        }
    } else if k == 2 {
        TemplateText {
            id: "query_filters_showcase"@,
            title: "Query Filters Showcase"@,
            description: "Demonstrates find_el, filter_id/class/attr, first_or_none, all, and both query/element actions."@,
            code: "fn main() {\n    let tab = Tab(\"https://example.com\");\n    tab.wait_for_ms(800);\n\n    let query = tab\n        .find_el(\"form\")\n        .filter_id(\"search-form\")\n        .filter_class(\"primary\")\n        .filter_attr(\"data-role\", \"search\");\n\n    query.click();\n    query.type(\"typed through ElementQuery\");\n\n    let first = query.first_or_none();\n    first.click();\n    first.type(\"typed through ElementRef\");\n\n    let items = query.all();\n    log(\"query.all() returns selector-mapped handles in current host\");\n    if items.len > 0 {\n        items[0].click();\n    }\n}\n"@,
            tags: seq!["template"@, "elements"@, "selectors"@],
        }
    } else if k == 3 {
        TemplateText {
            id: "tab_alias_matrix"@,
            title: "Tab Alias Matrix"@,
            description: "Shows every tab constructor/binding alias exposed by the host."@,
            code: "fn main() {\n    let a = Tab();\n    a.navigate(\"https://example.com\");\n\n    let b = TabNew();\n    b.navigate(\"https://example.org\");\n\n    let c = tab_new();\n    c.navigate(\"https://example.net\");\n\n    let selected_a = TabCatch();\n    selected_a.wait_for_ms(1000);\n\n    let selected_b = TabCurrent();\n    selected_b.wait_for_ms(1000);\n\n    let selected_c = tab_catch();\n    selected_c.wait_for_ms(1000);\n\n    let preferred_new = Tab.new();\n    preferred_new.navigate(\"https://example.edu\");\n\n    let preferred_current = Tab.catch();\n    preferred_current.wait_for_ms(1000);\n\n    log(\"All tab constructor/binding aliases were exercised\");\n}\n"@,
            tags: seq!["template"@, "aliases"@, "tabs"@],
        }
    } else if k == 4 {
        TemplateText {
            id: "capture_console_network_cookies"@,
            title: "Capture + Console + Network + Cookies"@,
            description: "Exercises service objects: capture, console.inject/logs, network.start/stop, cookies.set/get_all/delete."@,
            code: "fn main() {\n    let tab = Tab.catch();\n    tab.network.start();\n    tab.navigate(\"https://example.com\");\n    tab.wait_for_ms(1500);\n\n    tab.console.inject(\"console.log('sniper scripting inject ok')\");\n\n    let logs = tab.console.logs();\n    log(\"Selected tab console snapshot count: \" + logs.len);\n\n    tab.cookies.set(\"sniper_demo\", \"active\", true);\n    let cookie_map = tab.cookies.get_all();\n    if cookie_map.contains(\"sniper_demo\") {\n        log(\"cookie sniper_demo is visible in current tab snapshot\");\n    }\n    tab.cookies.delete(\"sniper_demo\", \"example.com\");\n\n    tab.capture.html();\n    tab.capture.complete();\n    tab.capture.mirror();\n    tab.network.stop();\n}\n"@,
            tags: seq!["template"@, "services"@, "network"@, "cookies"@],
        }
    } else if k == 5 {
        TemplateText {
            id: "filesystem_helpers"@,
            title: "Filesystem Helpers"@,
            description: "Shows fs_mkdir_all, fs_write_text, fs_append_text, fs_exists, and telemetry logging."@,
            code: "fn main() {\n    let root = \"script_outputs/api_surface\";\n    let file = root + \"/notes.txt\";\n\n    fs_mkdir_all(root);\n    fs_write_text(file, \"line 1\");\n    fs_append_text(file, \"\\nline 2\");\n\n    if fs_exists(file) {\n        log(\"output file created successfully: \" + file);\n    } else {\n        exit(\"expected output file was not created\");\n    }\n}\n"@,
            tags: seq!["template"@, "filesystem"@, "output"@],
        }
    } else if k == 6 {
        TemplateText {
            id: "automation_bridge"@,
            title: "Automation Bridge"@,
            description: "Run Automation DSL JSON from Rhai script."@,
            code: "fn main() {\n    let tab = Tab.catch();\n    let dsl = `{\n      \"dsl_version\": 1,\n      \"metadata\": null,\n      \"functions\": {},\n      \"steps\": [\n        { \"type\": \"Wait\", \"seconds\": 1 },\n        { \"type\": \"SmartScroll\", \"until_selector\": \"#results\", \"max_rounds\": 8, \"settle_ms\": 400 },\n        { \"type\": \"Screenshot\", \"filename\": \"automation_bridge.png\" }\n      ]\n    }`;\n    tab.run_automation_json(dsl);\n    log(\"Automation DSL invoked from script\");\n}\n"@,
            tags: seq!["template"@, "automation"@, "dsl"@],
        }
    } else if k == 7 {
        TemplateText {
            id: "current_tab_introspection"@,
            title: "Current Tab Introspection"@,
            description: "Reads current-tab console and cookie snapshots and writes them to output files."@,
            code: "fn main() {\n    let tab = Tab.catch();\n    fs_mkdir_all(\"script_outputs/current_tab\");\n\n    let logs = tab.console.logs();\n    fs_write_text(\"script_outputs/current_tab/console_count.txt\", logs.len + \"\");\n\n    let cookies = tab.cookies.get_all();\n    let has_session = cookies.contains(\"session\");\n    fs_write_text(\"script_outputs/current_tab/has_session.txt\", has_session + \"\");\n\n    log(\"Current tab introspection snapshot exported\");\n}\n"@,
            tags: seq!["template"@, "current-tab"@, "introspection"@],
        }
    } else if k == 8 {
        TemplateText {
            id: "fail_fast_exit"@,
            title: "Fail Fast Exit"@,
            description: "Minimal example for the exit() helper when a required condition is missing."@,
            code: "fn main() {\n    if !fs_exists(\"script_outputs/api_surface/notes.txt\") {\n        exit(\"notes.txt missing; run the Filesystem Helpers template first\");\n    }\n    log(\"Fail-fast guard passed\");\n}\n"@,
            tags: seq!["template"@, "exit"@, "guard"@],
        }
    } else {
        TemplateText {
            id: "api_surface_reference"@,
            title: "API Surface Reference"@,
            description: "One larger reference script that touches nearly every host-exposed Rhai helper in a single flow."@,
            code: "fn main() {\n    fs_mkdir_all(\"script_outputs/reference\");\n    fs_write_text(\"script_outputs/reference/run.txt\", \"start\");\n    fs_append_text(\"script_outputs/reference/run.txt\", \"\\ncontinue\");\n\n    let selected = Tab.catch();\n    selected.network.start();\n    selected.console.inject(\"console.log('reference template booted')\");\n    let selected_logs = selected.console.logs();\n    log(\"selected log count: \" + selected_logs.len);\n\n    let selected_cookies = selected.cookies.get_all();\n    if selected_cookies.contains(\"locale\") {\n        log(\"locale cookie exists on selected tab\");\n    }\n\n    let form_query = selected\n        .find_el(\"form\")\n        .filter_class(\"search\")\n        .filter_attr(\"role\", \"search\");\n    let first = form_query.first_or_none();\n    first.click();\n    form_query.type(\"typed by query handle\");\n    let handles = form_query.all();\n    if handles.len > 0 {\n        handles[0].type(\"typed by element handle\");\n    }\n\n    selected.capture.html();\n    selected.capture.mirror();\n    selected.network.stop();\n\n    let fresh = Tab.new();\n    fresh.navigate(\"https://example.com\");\n    fresh.wait_for_ms(1200);\n    fresh.screenshot(\"reference_new_tab.png\");\n\n    let alias_new = TabNew();\n    alias_new.navigate(\"https://example.org\");\n\n    let alias_new_lower = tab_new();\n    alias_new_lower.navigate(\"https://example.net\");\n\n    let attached_a = TabCatch();\n    attached_a.wait_for_ms(1000);\n    let attached_b = TabCurrent();\n    attached_b.wait_for_ms(1000);\n    let attached_c = tab_catch();\n    attached_c.wait_for_ms(1000);\n\n    selected.cookies.set(\"sniper_reference\", \"1\", true);\n    selected.cookies.delete(\"sniper_reference\", \"example.com\");\n\n    let dsl = `{\n      \"dsl_version\": 1,\n      \"metadata\": null,\n      \"functions\": {},\n      \"steps\": [\n        { \"type\": \"Wait\", \"seconds\": 1 },\n        { \"type\": \"Screenshot\", \"filename\": \"reference_dsl.png\" }\n      ]\n    }`;\n    selected.run_automation_json(dsl);\n\n    if !fs_exists(\"script_outputs/reference/run.txt\") {\n        exit(\"reference output file missing\");\n    }\n\n    log(\"API surface reference completed\");\n}\n"@,
            tags: seq!["template"@, "reference"@, "all-features"@],
        }
    }
}

fn make_template(id: &str, title: &str, description: &str, code: &str, tags: Vec<String>, now: i64) -> (r: ScriptTemplate)
    ensures
        template_is(r, TemplateText { id: id@, title: title@, description: description@, code: code@, tags: strs_view(tags@) }, now),
{
    proof {
        reveal_strlit("main");
    }
    ScriptTemplate {
        id: own(id),
        title: own(title),
        description: own(description),
        package: ScriptPackage {
            version: 1,
            name: own(id),
            description: own(description),
            created_at: now,
            updated_at: now,
            entry: own("main"),
            code: own(code),
            tags,
        },
    }
}

fn template_0(now: i64) -> (r: ScriptTemplate)
    ensures
        template_is(r, template_text(0), now),
{
    let mut tags: Vec<String> = Vec::new();
    push_str(&mut tags, own("template"));
    push_str(&mut tags, own("capture"));
    push_str(&mut tags, own("starter"));
    assert(strs_view(tags@) =~= template_text(0).tags);
    make_template(
        "quick_capture",
        "Quick Capture",
        "Open page, wait, save HTML, and take named/default screenshots.",
        "fn main() {\n    let tab = Tab(\"https://example.com\");\n    tab.wait_for_ms(1200);\n    tab.capture.html();\n    tab.screenshot();\n    tab.screenshot(\"quick_capture.png\");\n    log(\"quick capture finished\");\n}\n",
        tags,
        now,
    )
}

fn template_1(now: i64) -> (r: ScriptTemplate)
    ensures
        template_is(r, template_text(1), now),
{
    let mut tags: Vec<String> = Vec::new();
    push_str(&mut tags, own("template"));
    push_str(&mut tags, own("form"));
    push_str(&mut tags, own("elements"));
    assert(strs_view(tags@) =~= template_text(1).tags);
    make_template(
        "search_flow",
        "Search Flow",
        "Navigate to a search page, type into an input, and click submit.",
        "fn main() {\n    let tab = Tab(\"https://duckduckgo.com\");\n    tab.wait_for_ms(1000);\n    let q = tab.find_el(\"input[name='q']\");\n    q.type(\"sniper studio scripting\");\n    let submit = tab.find_el(\"button[type='submit']\");\n    submit.click();\n}\n",
        tags,
        now,
    )
}

fn template_2(now: i64) -> (r: ScriptTemplate)
    ensures
        template_is(r, template_text(2), now),
{
    let mut tags: Vec<String> = Vec::new();
    push_str(&mut tags, own("template"));
    push_str(&mut tags, own("elements"));
    push_str(&mut tags, own("selectors"));
    assert(strs_view(tags@) =~= template_text(2).tags);
    make_template(
        "query_filters_showcase",
        "Query Filters Showcase",
        "Demonstrates find_el, filter_id/class/attr, first_or_none, all, and both query/element actions.",
        "fn main() {\n    let tab = Tab(\"https://example.com\");\n    tab.wait_for_ms(800);\n\n    let query = tab\n        .find_el(\"form\")\n        .filter_id(\"search-form\")\n        .filter_class(\"primary\")\n        .filter_attr(\"data-role\", \"search\");\n\n    query.click();\n    query.type(\"typed through ElementQuery\");\n\n    let first = query.first_or_none();\n    first.click();\n    first.type(\"typed through ElementRef\");\n\n    let items = query.all();\n    log(\"query.all() returns selector-mapped handles in current host\");\n    if items.len > 0 {\n        items[0].click();\n    }\n}\n",
        tags,
        now,
    )
}

fn template_3(now: i64) -> (r: ScriptTemplate)
    ensures
        template_is(r, template_text(3), now),
{
    let mut tags: Vec<String> = Vec::new();
    push_str(&mut tags, own("template"));
    push_str(&mut tags, own("aliases"));
    push_str(&mut tags, own("tabs"));
    assert(strs_view(tags@) =~= template_text(3).tags);
    make_template(
        "tab_alias_matrix",
        "Tab Alias Matrix",
        "Shows every tab constructor/binding alias exposed by the host.",
        "fn main() {\n    let a = Tab();\n    a.navigate(\"https://example.com\");\n\n    let b = TabNew();\n    b.navigate(\"https://example.org\");\n\n    let c = tab_new();\n    c.navigate(\"https://example.net\");\n\n    let selected_a = TabCatch();\n    selected_a.wait_for_ms(1000);\n\n    let selected_b = TabCurrent();\n    selected_b.wait_for_ms(1000);\n\n    let selected_c = tab_catch();\n    selected_c.wait_for_ms(1000);\n\n    let preferred_new = Tab.new();\n    preferred_new.navigate(\"https://example.edu\");\n\n    let preferred_current = Tab.catch();\n    preferred_current.wait_for_ms(1000);\n\n    log(\"All tab constructor/binding aliases were exercised\");\n}\n",
        tags,
        now,
    )
}

fn template_4(now: i64) -> (r: ScriptTemplate)
    ensures
        template_is(r, template_text(4), now),
{
    let mut tags: Vec<String> = Vec::new();
    push_str(&mut tags, own("template"));
    push_str(&mut tags, own("services"));
    push_str(&mut tags, own("network"));
    push_str(&mut tags, own("cookies"));
    assert(strs_view(tags@) =~= template_text(4).tags);
    make_template(
        "capture_console_network_cookies",
        "Capture + Console + Network + Cookies",
        "Exercises service objects: capture, console.inject/logs, network.start/stop, cookies.set/get_all/delete.",
        "fn main() {\n    let tab = Tab.catch();\n    tab.network.start();\n    tab.navigate(\"https://example.com\");\n    tab.wait_for_ms(1500);\n\n    tab.console.inject(\"console.log('sniper scripting inject ok')\");\n\n    let logs = tab.console.logs();\n    log(\"Selected tab console snapshot count: \" + logs.len);\n\n    tab.cookies.set(\"sniper_demo\", \"active\", true);\n    let cookie_map = tab.cookies.get_all();\n    if cookie_map.contains(\"sniper_demo\") {\n        log(\"cookie sniper_demo is visible in current tab snapshot\");\n    }\n    tab.cookies.delete(\"sniper_demo\", \"example.com\");\n\n    tab.capture.html();\n    tab.capture.complete();\n    tab.capture.mirror();\n    tab.network.stop();\n}\n",
        tags,
        now,
    )
}

fn template_5(now: i64) -> (r: ScriptTemplate)
    ensures
        template_is(r, template_text(5), now),
{
    let mut tags: Vec<String> = Vec::new();
    push_str(&mut tags, own("template"));
    push_str(&mut tags, own("filesystem"));
    push_str(&mut tags, own("output"));
    assert(strs_view(tags@) =~= template_text(5).tags);
    make_template(
        "filesystem_helpers",
        "Filesystem Helpers",
        "Shows fs_mkdir_all, fs_write_text, fs_append_text, fs_exists, and telemetry logging.",
        "fn main() {\n    let root = \"script_outputs/api_surface\";\n    let file = root + \"/notes.txt\";\n\n    fs_mkdir_all(root);\n    fs_write_text(file, \"line 1\");\n    fs_append_text(file, \"\\nline 2\");\n\n    if fs_exists(file) {\n        log(\"output file created successfully: \" + file);\n    } else {\n        exit(\"expected output file was not created\");\n    }\n}\n",
        tags,
        now,
    )
}

fn template_6(now: i64) -> (r: ScriptTemplate)
    ensures
        template_is(r, template_text(6), now),
{
    let mut tags: Vec<String> = Vec::new();
    push_str(&mut tags, own("template"));
    push_str(&mut tags, own("automation"));
    push_str(&mut tags, own("dsl"));
    assert(strs_view(tags@) =~= template_text(6).tags);
    make_template(
        "automation_bridge",
        "Automation Bridge",
        "Run Automation DSL JSON from Rhai script.",
        "fn main() {\n    let tab = Tab.catch();\n    let dsl = `{\n      \"dsl_version\": 1,\n      \"metadata\": null,\n      \"functions\": {},\n      \"steps\": [\n        { \"type\": \"Wait\", \"seconds\": 1 },\n        { \"type\": \"SmartScroll\", \"until_selector\": \"#results\", \"max_rounds\": 8, \"settle_ms\": 400 },\n        { \"type\": \"Screenshot\", \"filename\": \"automation_bridge.png\" }\n      ]\n    }`;\n    tab.run_automation_json(dsl);\n    log(\"Automation DSL invoked from script\");\n}\n",
        tags,
        now,
    )
}

fn template_7(now: i64) -> (r: ScriptTemplate)
    ensures
        template_is(r, template_text(7), now),
{
    let mut tags: Vec<String> = Vec::new();
    push_str(&mut tags, own("template"));
    push_str(&mut tags, own("current-tab"));
    push_str(&mut tags, own("introspection"));
    assert(strs_view(tags@) =~= template_text(7).tags);
    make_template(
        "current_tab_introspection",
        "Current Tab Introspection",
        "Reads current-tab console and cookie snapshots and writes them to output files.",
        "fn main() {\n    let tab = Tab.catch();\n    fs_mkdir_all(\"script_outputs/current_tab\");\n\n    let logs = tab.console.logs();\n    fs_write_text(\"script_outputs/current_tab/console_count.txt\", logs.len + \"\");\n\n    let cookies = tab.cookies.get_all();\n    let has_session = cookies.contains(\"session\");\n    fs_write_text(\"script_outputs/current_tab/has_session.txt\", has_session + \"\");\n\n    log(\"Current tab introspection snapshot exported\");\n}\n",
        tags,
        now,
    )
}

fn template_8(now: i64) -> (r: ScriptTemplate)
    ensures
        template_is(r, template_text(8), now),
{
    let mut tags: Vec<String> = Vec::new();
    push_str(&mut tags, own("template"));
    push_str(&mut tags, own("exit"));
    push_str(&mut tags, own("guard"));
    assert(strs_view(tags@) =~= template_text(8).tags);
    make_template(
        "fail_fast_exit",
        "Fail Fast Exit",
        "Minimal example for the exit() helper when a required condition is missing.",
        "fn main() {\n    if !fs_exists(\"script_outputs/api_surface/notes.txt\") {\n        exit(\"notes.txt missing; run the Filesystem Helpers template first\");\n    }\n    log(\"Fail-fast guard passed\");\n}\n",
        tags,
        now,
    )
}

fn template_9(now: i64) -> (r: ScriptTemplate)
    ensures
        template_is(r, template_text(9), now),
{
    let mut tags: Vec<String> = Vec::new();
    push_str(&mut tags, own("template"));
    push_str(&mut tags, own("reference"));
    push_str(&mut tags, own("all-features"));
    assert(strs_view(tags@) =~= template_text(9).tags);
    make_template(
        "api_surface_reference",
        "API Surface Reference",
        "One larger reference script that touches nearly every host-exposed Rhai helper in a single flow.",
        "fn main() {\n    fs_mkdir_all(\"script_outputs/reference\");\n    fs_write_text(\"script_outputs/reference/run.txt\", \"start\");\n    fs_append_text(\"script_outputs/reference/run.txt\", \"\\ncontinue\");\n\n    let selected = Tab.catch();\n    selected.network.start();\n    selected.console.inject(\"console.log('reference template booted')\");\n    let selected_logs = selected.console.logs();\n    log(\"selected log count: \" + selected_logs.len);\n\n    let selected_cookies = selected.cookies.get_all();\n    if selected_cookies.contains(\"locale\") {\n        log(\"locale cookie exists on selected tab\");\n    }\n\n    let form_query = selected\n        .find_el(\"form\")\n        .filter_class(\"search\")\n        .filter_attr(\"role\", \"search\");\n    let first = form_query.first_or_none();\n    first.click();\n    form_query.type(\"typed by query handle\");\n    let handles = form_query.all();\n    if handles.len > 0 {\n        handles[0].type(\"typed by element handle\");\n    }\n\n    selected.capture.html();\n    selected.capture.mirror();\n    selected.network.stop();\n\n    let fresh = Tab.new();\n    fresh.navigate(\"https://example.com\");\n    fresh.wait_for_ms(1200);\n    fresh.screenshot(\"reference_new_tab.png\");\n\n    let alias_new = TabNew();\n    alias_new.navigate(\"https://example.org\");\n\n    let alias_new_lower = tab_new();\n    alias_new_lower.navigate(\"https://example.net\");\n\n    let attached_a = TabCatch();\n    attached_a.wait_for_ms(1000);\n    let attached_b = TabCurrent();\n    attached_b.wait_for_ms(1000);\n    let attached_c = tab_catch();\n    attached_c.wait_for_ms(1000);\n\n    selected.cookies.set(\"sniper_reference\", \"1\", true);\n    selected.cookies.delete(\"sniper_reference\", \"example.com\");\n\n    let dsl = `{\n      \"dsl_version\": 1,\n      \"metadata\": null,\n      \"functions\": {},\n      \"steps\": [\n        { \"type\": \"Wait\", \"seconds\": 1 },\n        { \"type\": \"Screenshot\", \"filename\": \"reference_dsl.png\" }\n      ]\n    }`;\n    selected.run_automation_json(dsl);\n\n    if !fs_exists(\"script_outputs/reference/run.txt\") {\n        exit(\"reference output file missing\");\n    }\n\n    log(\"API surface reference completed\");\n}\n",
        tags,
        now,
    )
}

/// The built-in templates, stamped with the time `now`.
pub fn library_at(now: i64) -> (r: Vec<ScriptTemplate>)
    ensures
        r.len() == template_count(),
        forall|k: int| 0 <= k < r.len() ==> template_is(#[trigger] r@[k], template_text(k), now),
{
    let mut v: Vec<ScriptTemplate> = Vec::new();
    v.push(template_0(now));
    v.push(template_1(now));
    v.push(template_2(now));
    v.push(template_3(now));
    v.push(template_4(now));
    v.push(template_5(now));
    v.push(template_6(now));
    v.push(template_7(now));
    v.push(template_8(now));
    v.push(template_9(now));
    assert forall|k: int| 0 <= k < v.len() implies template_is(#[trigger] v@[k], template_text(k), now) by {
    }
    v
}

/// The built-in templates, all stamped with one reading of the local clock.
pub fn library() -> (r: Vec<ScriptTemplate>)
    ensures
        r.len() == template_count(),
        forall|k: int|
            0 <= k < r.len() ==> template_is(#[trigger] r@[k], template_text(k), r@[0].package.created_at),
{
    let now = local_timestamp();
    library_at(now)
}


/// The built-in template ids are pairwise distinct.
pub proof fn lemma_template_ids_distinct()
    ensures
        forall|a: int, b: int|
            0 <= a < b < template_count() ==> #[trigger] template_text(a).id != #[trigger] template_text(b).id,
{
    reveal_strlit("quick_capture");
    reveal_strlit("search_flow");
    reveal_strlit("query_filters_showcase");
    reveal_strlit("tab_alias_matrix");
    reveal_strlit("capture_console_network_cookies");
    reveal_strlit("filesystem_helpers");
    reveal_strlit("automation_bridge");
    reveal_strlit("current_tab_introspection");
    reveal_strlit("fail_fast_exit");
    reveal_strlit("api_surface_reference");
    assert forall|a: int, b: int| 0 <= a < b < template_count() implies #[trigger] template_text(a).id
        != #[trigger] template_text(b).id by {
        if template_text(a).id == template_text(b).id {
            assert(template_text(a).id.len() == template_text(b).id.len());
            assert(template_text(a).id[0] == template_text(b).id[0]);
            assert(template_text(a).id[1] == template_text(b).id[1]);
            assert(template_text(a).id[2] == template_text(b).id[2]);
            assert(template_text(a).id[6] == template_text(b).id[6]);
        }
    }
}

/// What the template library holds, however often it is built: the built-in
/// templates in their fixed order, ids pairwise distinct, every package named
/// after its template, at version 1, starting at `main`, and all stamped with
/// one shared time.
pub proof fn lemma_library_shape(lib: Seq<ScriptTemplate>)
    requires
        lib.len() == template_count(),
        forall|k: int| 0 <= k < lib.len() ==> template_is(#[trigger] lib[k], template_text(k), lib[0].package.created_at),
    ensures
        forall|a: int, b: int| 0 <= a < b < lib.len() ==> #[trigger] lib[a].id@ != #[trigger] lib[b].id@,
        forall|k: int| 0 <= k < lib.len() ==> {
            &&& (#[trigger] lib[k]).package.name@ == lib[k].id@
            &&& lib[k].package.version == 1
            &&& lib[k].package.entry@ == "main"@
            &&& lib[k].package.created_at == lib[0].package.created_at
            &&& lib[k].package.updated_at == lib[k].package.created_at
        },
{
    lemma_template_ids_distinct();
    assert forall|a: int, b: int| 0 <= a < b < lib.len() implies #[trigger] lib[a].id@ != #[trigger] lib[b].id@ by {
        assert(template_is(lib[a], template_text(a), lib[0].package.created_at));
        assert(template_is(lib[b], template_text(b), lib[0].package.created_at));
    }
}


/// Every built-in template's code defines `fn main()`, the entry it names.
pub proof fn lemma_template_codes_have_main()
    ensures
        forall|k: int| 0 <= k < template_count() ==> crate::text::seq_contains(#[trigger] template_text(k).code, "fn main()"@),
{
    reveal_strlit("fn main()");
    assert forall|k: int| 0 <= k < template_count() implies crate::text::seq_contains(#[trigger] template_text(k).code, "fn main()"@) by {
        reveal_strlit("fn main() {\n    let tab = Tab(\"https://example.com\");\n    tab.wait_for_ms(1200);\n    tab.capture.html();\n    tab.screenshot();\n    tab.screenshot(\"quick_capture.png\");\n    log(\"quick capture finished\");\n}\n");
        reveal_strlit("fn main() {\n    let tab = Tab(\"https://duckduckgo.com\");\n    tab.wait_for_ms(1000);\n    let q = tab.find_el(\"input[name='q']\");\n    q.type(\"sniper studio scripting\");\n    let submit = tab.find_el(\"button[type='submit']\");\n    submit.click();\n}\n");
        reveal_strlit("fn main() {\n    let tab = Tab(\"https://example.com\");\n    tab.wait_for_ms(800);\n\n    let query = tab\n        .find_el(\"form\")\n        .filter_id(\"search-form\")\n        .filter_class(\"primary\")\n        .filter_attr(\"data-role\", \"search\");\n\n    query.click();\n    query.type(\"typed through ElementQuery\");\n\n    let first = query.first_or_none();\n    first.click();\n    first.type(\"typed through ElementRef\");\n\n    let items = query.all();\n    log(\"query.all() returns selector-mapped handles in current host\");\n    if items.len > 0 {\n        items[0].click();\n    }\n}\n");
        reveal_strlit("fn main() {\n    let a = Tab();\n    a.navigate(\"https://example.com\");\n\n    let b = TabNew();\n    b.navigate(\"https://example.org\");\n\n    let c = tab_new();\n    c.navigate(\"https://example.net\");\n\n    let selected_a = TabCatch();\n    selected_a.wait_for_ms(1000);\n\n    let selected_b = TabCurrent();\n    selected_b.wait_for_ms(1000);\n\n    let selected_c = tab_catch();\n    selected_c.wait_for_ms(1000);\n\n    let preferred_new = Tab.new();\n    preferred_new.navigate(\"https://example.edu\");\n\n    let preferred_current = Tab.catch();\n    preferred_current.wait_for_ms(1000);\n\n    log(\"All tab constructor/binding aliases were exercised\");\n}\n");
        reveal_strlit("fn main() {\n    let tab = Tab.catch();\n    tab.network.start();\n    tab.navigate(\"https://example.com\");\n    tab.wait_for_ms(1500);\n\n    tab.console.inject(\"console.log('sniper scripting inject ok')\");\n\n    let logs = tab.console.logs();\n    log(\"Selected tab console snapshot count: \" + logs.len);\n\n    tab.cookies.set(\"sniper_demo\", \"active\", true);\n    let cookie_map = tab.cookies.get_all();\n    if cookie_map.contains(\"sniper_demo\") {\n        log(\"cookie sniper_demo is visible in current tab snapshot\");\n    }\n    tab.cookies.delete(\"sniper_demo\", \"example.com\");\n\n    tab.capture.html();\n    tab.capture.complete();\n    tab.capture.mirror();\n    tab.network.stop();\n}\n");
        reveal_strlit("fn main() {\n    let root = \"script_outputs/api_surface\";\n    let file = root + \"/notes.txt\";\n\n    fs_mkdir_all(root);\n    fs_write_text(file, \"line 1\");\n    fs_append_text(file, \"\\nline 2\");\n\n    if fs_exists(file) {\n        log(\"output file created successfully: \" + file);\n    } else {\n        exit(\"expected output file was not created\");\n    }\n}\n");
        reveal_strlit("fn main() {\n    let tab = Tab.catch();\n    let dsl = `{\n      \"dsl_version\": 1,\n      \"metadata\": null,\n      \"functions\": {},\n      \"steps\": [\n        { \"type\": \"Wait\", \"seconds\": 1 },\n        { \"type\": \"SmartScroll\", \"until_selector\": \"#results\", \"max_rounds\": 8, \"settle_ms\": 400 },\n        { \"type\": \"Screenshot\", \"filename\": \"automation_bridge.png\" }\n      ]\n    }`;\n    tab.run_automation_json(dsl);\n    log(\"Automation DSL invoked from script\");\n}\n");
        reveal_strlit("fn main() {\n    let tab = Tab.catch();\n    fs_mkdir_all(\"script_outputs/current_tab\");\n\n    let logs = tab.console.logs();\n    fs_write_text(\"script_outputs/current_tab/console_count.txt\", logs.len + \"\");\n\n    let cookies = tab.cookies.get_all();\n    let has_session = cookies.contains(\"session\");\n    fs_write_text(\"script_outputs/current_tab/has_session.txt\", has_session + \"\");\n\n    log(\"Current tab introspection snapshot exported\");\n}\n");
        reveal_strlit("fn main() {\n    if !fs_exists(\"script_outputs/api_surface/notes.txt\") {\n        exit(\"notes.txt missing; run the Filesystem Helpers template first\");\n    }\n    log(\"Fail-fast guard passed\");\n}\n");
        reveal_strlit("fn main() {\n    fs_mkdir_all(\"script_outputs/reference\");\n    fs_write_text(\"script_outputs/reference/run.txt\", \"start\");\n    fs_append_text(\"script_outputs/reference/run.txt\", \"\\ncontinue\");\n\n    let selected = Tab.catch();\n    selected.network.start();\n    selected.console.inject(\"console.log('reference template booted')\");\n    let selected_logs = selected.console.logs();\n    log(\"selected log count: \" + selected_logs.len);\n\n    let selected_cookies = selected.cookies.get_all();\n    if selected_cookies.contains(\"locale\") {\n        log(\"locale cookie exists on selected tab\");\n    }\n\n    let form_query = selected\n        .find_el(\"form\")\n        .filter_class(\"search\")\n        .filter_attr(\"role\", \"search\");\n    let first = form_query.first_or_none();\n    first.click();\n    form_query.type(\"typed by query handle\");\n    let handles = form_query.all();\n    if handles.len > 0 {\n        handles[0].type(\"typed by element handle\");\n    }\n\n    selected.capture.html();\n    selected.capture.mirror();\n    selected.network.stop();\n\n    let fresh = Tab.new();\n    fresh.navigate(\"https://example.com\");\n    fresh.wait_for_ms(1200);\n    fresh.screenshot(\"reference_new_tab.png\");\n\n    let alias_new = TabNew();\n    alias_new.navigate(\"https://example.org\");\n\n    let alias_new_lower = tab_new();\n    alias_new_lower.navigate(\"https://example.net\");\n\n    let attached_a = TabCatch();\n    attached_a.wait_for_ms(1000);\n    let attached_b = TabCurrent();\n    attached_b.wait_for_ms(1000);\n    let attached_c = tab_catch();\n    attached_c.wait_for_ms(1000);\n\n    selected.cookies.set(\"sniper_reference\", \"1\", true);\n    selected.cookies.delete(\"sniper_reference\", \"example.com\");\n\n    let dsl = `{\n      \"dsl_version\": 1,\n      \"metadata\": null,\n      \"functions\": {},\n      \"steps\": [\n        { \"type\": \"Wait\", \"seconds\": 1 },\n        { \"type\": \"Screenshot\", \"filename\": \"reference_dsl.png\" }\n      ]\n    }`;\n    selected.run_automation_json(dsl);\n\n    if !fs_exists(\"script_outputs/reference/run.txt\") {\n        exit(\"reference output file missing\");\n    }\n\n    log(\"API surface reference completed\");\n}\n");
        assert(template_text(k).code.subrange(0, 9) =~= "fn main()"@);
        assert(crate::text::occurs_at(template_text(k).code, "fn main()"@, 0));
    }
}

/// Two builds of the library agree on every template's texts, in order;
/// only the shared time stamp may differ.
pub proof fn lemma_library_texts_fixed(a: Seq<ScriptTemplate>, b: Seq<ScriptTemplate>)
    requires
        a.len() == template_count(),
        b.len() == template_count(),
        forall|k: int| 0 <= k < a.len() ==> template_is(#[trigger] a[k], template_text(k), a[0].package.created_at),
        forall|k: int| 0 <= k < b.len() ==> template_is(#[trigger] b[k], template_text(k), b[0].package.created_at),
    ensures
        forall|k: int| 0 <= k < a.len() ==> {
            &&& (#[trigger] a[k]).id@ == b[k].id@
            &&& a[k].title@ == b[k].title@
            &&& a[k].description@ == b[k].description@
            &&& a[k].package.code@ == b[k].package.code@
            &&& strs_view(a[k].package.tags@) == strs_view(b[k].package.tags@)
            &&& crate::text::seq_contains(a[k].package.code@, "fn main()"@)
        },
{
    lemma_template_codes_have_main();
    assert forall|k: int| 0 <= k < a.len() implies {
            &&& (#[trigger] a[k]).id@ == b[k].id@
            &&& a[k].title@ == b[k].title@
            &&& a[k].description@ == b[k].description@
            &&& a[k].package.code@ == b[k].package.code@
            &&& strs_view(a[k].package.tags@) == strs_view(b[k].package.tags@)
            &&& crate::text::seq_contains(a[k].package.code@, "fn main()"@)
        } by {
        assert(template_is(a[k], template_text(k), a[0].package.created_at));
        assert(template_is(b[k], template_text(k), b[0].package.created_at));
        assert(crate::text::seq_contains(template_text(k).code, "fn main()"@));
    }
}

} // verus!
