# kapsule

A minimal OCI container runtime. The library under `src/` holds the runtime's
decisions, each verified with Verus against its contract:

- `runtime::cli` — reading the command line into a command;
- `runtime::commands` — the lifecycle commands (create, start, state, kill,
  delete, pause, resume) as a session that names each outside action and
  decides from its outcome, with the lifecycle laws;
- `runtime::state`, `runtime::spec` — container state records and where they
  live; the parts of a bundle's runtime spec that are read;
- `sys` — host architecture names and variants;
- `layers` — image references, registry locations, choosing the manifest for
  the host, and the retry rule for layer downloads;
- `text` — character-level string helpers.

`app/` is the program around it: arguments, files, JSON, system calls,
namespaces and the registry client. `tests/` exercises the library.
