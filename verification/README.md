# codex_updater

The part of a desktop updater that must not go wrong: its durable state, the transactions in
which it replaces a package, and the rollback to the package before.

- `src/` decides and is verified with Verus. It reads the clock and performs no other I/O.
  - `state`, `storage`, `json`: the state, and how its file is read and written.
  - `install_transaction`, `process`, `clock`: transactions, who owns them, and when an abandoned
    one may be given up.
  - `launch`, `owned_command`: the launch gate, and the steps in which the privileged command
    that owns a transaction is run.
  - `rollback`: the known good package, and the steps of going back to it.
  - `text`: rendering and splitting of text.
- `app/` does what the library asks for: it reads and writes files, runs processes, and encodes
  the state with serde.
- `tests/` runs the library on concrete values.

Functions named `law_…` state what holds of several operations together. Functions marked
`external_body` are where the library relies on `chrono`, `serde_json`, `sha2` and the standard
library; each says what is relied on.
