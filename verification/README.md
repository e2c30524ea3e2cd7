# Sniper Studio

Browser forensics and automation over the Chrome DevTools Protocol: tab
listing and capture, per-tab network/media/cookie/console sniffing, a
block-based automation DSL and a Rhai scripting studio that runs on the same
automation runtime.

The crate is split in two.

- `src/` is the library, verified with Verus. Every public function carries a
  contract over mathematical models (`Seq`, `Map`, `Set`, views of the data
  types), and the laws that relate several operations are public proof
  functions.
- `app/` is the program around it: the event loop, the CDP session
  (chromiumoxide), the Rhai host, the browser process, files and logging.
  It hands the library plain values and acts on what the library decides.

## Library modules

| module | what it holds |
| --- | --- |
| `dsl`, `state`, `pipeline` | the automation DSL, the panel's pipeline blocks and the mapping between them (both directions, with round-trip laws) |
| `context`, `engine` | scoped variables and the dataset of a run; `{{name}}` interpolation; the command each step issues; retries and loop scopes |
| `cdp` | page scripts (click, type, hover, sandbox) and decoding of evaluation results |
| `script_actions`, `script_check`, `script_run` | the action plan a script builds, the `Check` findings and their stage order, the executor's next move, batching of steps per tab and the output-folder scope of file helpers |
| `editor`, `highlight`, `studio`, `templates` | the scripting editor: brace matching, autocomplete, find/replace, tokenizer, hover, auto-indent, debugger helpers and the template library |
| `app_state`, `events` | the studio state and what each application event does to it: the state change and the work the host starts |
| `workspace`, `dispatch`, `panels`, `pipeline_editor` | per-tab state, the command guard, capped logs, panel filters and the media vault order |
| `dataset` | the CSV and JSON datasets an import step reads |
| `browser`, `backend`, `dom`, `video`, `sniffer` | browser command lines, tab filtering, capture paths, asset discovery, HLS download planning, response capture |
| `config`, `logging`, `translator` | `.env` settings and migration, log lines and paths, the Gemini localization client's retry policy and chapter ordering |
| `text`, `strmap`, `clock`, `knowledge` | text utilities with specifications, an insertion-ordered string map, the clock, and the error hint base |

Calls into outside crates (regex, rhai, url, scraper, serde_json, base64,
dirs) stand behind small trusted wrappers whose contracts name or
state what the crate returns.

## Layout

```
src/     the verified library
tests/   tests of the library, run with the real outside crates
app/     the application binary (not verified)
```
