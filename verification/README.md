# helix_term (verified command logic)

The command-line and command logic of an editor's terminal front end, written in
Verus and proved against its contracts.

* `src/command_line.rs` — splitting a command line into tokens (quotes, doubled
  quotes, `%` expansions, the raw remainder).
* `src/args.rs` — reading tokens by a command's `Signature` into `Args`
  (positionals and flags), with the signature's validations and error messages.
* `src/alias.rs` — command aliases.
* `src/dap.rs` — the decisions of the debugger commands, breakpoint list edits and
  debug-template argument filling.
* `src/copilot.rs` — the decisions and texts of the Copilot commands.
* `src/engine.rs` — dispatch over the plugin systems compiled into this build.
* `src/scripting.rs` — documentation comments, the Scheme sources of commands,
  configuration names and paths,
  terminal-session I/O rules and engine generations of the scripting API.
* `src/editing.rs` — cursor position, jump targets, adding and removing inlay
  hints.
* `src/language.rs` — applying a script's update to a language's configuration.
* `src/whitespace.rs` — the whitespace rendering settings scripts can change.
* `src/text.rs` — string helpers (decimal numbers, replacement, `usize` parsing).
* `app/lib.rs` — glue that reads the environment and the file system and
  implements `Display` for the error types.
