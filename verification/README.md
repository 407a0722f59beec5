# chrome_host

The verified core of chrome-host, a manager of isolated Chrome instances
grouped into environments (own profile, per-process host rules, DevTools
access, login-state snapshots), and of its command-line client.

## Layout

- `src/` — the library, verified with Verus.
  - `text.rs`, `maps.rs` — character-sequence helpers and association lists
    with their specifications and lemmas.
  - `cli/` — the command-line client's rules: exit codes, error model,
    renderings in table / JSON / quiet mode, the confirmation rule, request
    bodies, response unpacking, and the decisions of `runtime install`.
  - `server/domain/` — environments, instances, login profiles, extensions,
    host rules (parsing, merging, resolver rules).
  - `server/application/` — the services' decisions: settings, DevTools
    sessions, keep-alive, the SSH tunnel supervisor, health checks,
    extension loading and synchronisation, reconciliation, login profiles,
    the activity log.
  - `server/api/` — bearer-token check, error responses, request bodies,
    the session proxy's routing, listener binding.
- `tests/` — tests of the library on concrete values.
- `app/` — the `chrome-host` command-line binary: argument parsing with
  `clap`, HTTP with `reqwest`, JSON with `serde`, printing and prompting.

Calls into `serde_json`, `url`, `uuid`, `chrono`, `comfy-table` and a few
`std` functions stand behind small trusted wrappers whose contracts are
documented where they are declared.
