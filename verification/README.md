# lazyjj

A terminal UI for the Jujutsu (`jj`) version control system.

## Layout

- `src/` is the library, written in Verus. It holds what lazyjj decides and
  computes, each function with a contract that Verus proves:
  - `commander/`: the arguments of every `jj` command lazyjj runs, and
    parsers for what `jj` prints (log graph, heads, bookmarks, branches,
    files, conflicts, version).
  - `keybinds/`: keys, shortcuts, the table of key bindings and how the
    configuration changes it.
  - `ui/`: what each tab and popup does with a key or a mouse event, how
    selections move and scroll, and text clean-up (hyperlinks, tabs).
  - `env.rs`, `event.rs`, `app.rs`: settings, event waiting, tabs.
- `app/` is the program around it: terminal set-up, drawing with ratatui,
  running `jj`, reading the configuration and watching the repository.
- `tests/` runs the library on concrete inputs.

Calls into outside crates that the library makes (ratatui's layout,
shell-words, version-compare, UTF-8 decoding) go through small trusted
wrappers whose contracts say what those crates promise.
