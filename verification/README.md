# sparsha

The platform-independent core of the Sparsha UI framework, written in Verus. Every
function in `src/` carries a contract that Verus proves, except one trusted wrapper
around `String::push` whose contract Verus takes as given.

Layout:

- `src/` — the verified library:
  - `router` — path normalization, hash routes, navigation history, route resolution
    and the router host;
  - `context`, `component` — scoped build-time resources, per-path component state and
    hook slots, event and paint command flags;
  - `platform`, `events` — the platform capability matrix, platform effects and their
    service calls, keyboard/text/IME translation for the web and native runners;
  - `control_state`, `editor`, `accessibility`, `accessibility_tree` — pressable
    controls (buttons, checkboxes), editor state restoration and the standard editing
    actions, accessibility metadata and the accessibility tree a runtime publishes;
  - `runtime`, `app_state`, `touch` — focus navigation and the decisions the runners
    take around input dispatch, redraws, surface recovery and touch input;
  - `list_items` — owned and virtualized list items with child reuse;
  - `worker_pool`, `tasks` — the web worker pool bookkeeping and the built-in task kinds;
  - `text`, `widgets`, `chars` — text layout options, ellipsis candidates, bounded caches,
    font-family normalization, small widget kinds and character helpers.
- `tests/` — tests run against the compiled library.
- `app/` — host-side glue: floating-point viewport and animation helpers, the Tokio
  task executor and the loop that carries out planned platform effects.
