# natlab_buildr26

The engine of the NATLaB BUILDR26 desktop application, written in Verus:
every function of the library carries a contract that Verus proves.

## Layout

- `src/core_engine.rs` — the module registry (built-in modules, loading in
  dependency order) and the polyglot compiler's target handling.
- `src/overseer.rs` — the build overseer: threshold checks, A–F grading,
  the bounded build history and the rolling quality score.
- `src/admin_audit/` — the admin engines: the audit trail and to-do list,
  dependency monitoring, daily summaries, process allocation, kernel
  protection events and automated error responses (`mod.rs`); the AI mesh
  runtime monitor with its tuning rules and sectional data flows
  (`runtime_monitor.rs`); IDE and platform integrations (`integrations.rs`).
- `src/commands/` — what each desktop command checks in its request and
  answers with.
- `src/fixed.rs`, `src/text.rs`, `src/history.rs` — fixed-point decimals and
  their rendering, character-level string rules, and bounded records.
- `src/clock.rs` — the clock, timers and random identifiers, the only values
  that depend on the machine.
- `app/` — the Tauri shell: shared state, serialisable copies of the
  library's types, and the command handlers.
- `tests/` — tests of the library on concrete values.

Fractional quantities (percentages, latencies, megabytes) are held in
hundredths (`Centi`); scores and shares computed from them by division
(rolling score, mesh and connection health, tuning impact) are exact
quotients (`Ratio`); instants are milliseconds since the Unix epoch.
