# Coomi

The core of a local coding agent, verified with Verus: how a turn of the agent goes on,
what tools may run and how often, what clients and the terminal are shown, which paths and
requests are allowed, and how settings, providers, schedules and sessions change.

- `src/` is the library. Every function has a contract over mathematical models of the data;
  the laws that relate several functions stand beside them as public proof functions.
  - `turn`, `step`, `tools`, `failure`, `accounting`, `compaction`, `agents`: the agent and its
    helpers.
  - `task`, `commands`, `observer`, `webturn`, `webrun`, `bridge`, `access`, `overview`: the
    local bridge.
  - `provider`, `settings`, `subagents`, `catalog`, `schedule`, `runtime`, `paths`, `redact`.
  - `tui`, `tui_*`, `editor`, `search`, `timeline`, `provider_form`: the terminal interface as a
    state machine from keys and events to actions.
  - `codec` holds the calls into other crates; `search` and `text` hold the few parts of std
    that need a contract of their own. What is believed of each stands above it.
- `app/` is the program around the library: files, HTTP, WebSocket, the terminal and the clock.
- `tests/` runs the compiled library.
