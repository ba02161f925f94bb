# depot_core

The core of a keyboard launcher, verified with Verus.

The launcher shows the rows of an *entry* (a title and a description each) for
what the user types, and calls a row when asked. Entries stack: calling a row
may open a new entry on top, leave the current one, update the input or quit.
The bottom entry is the *entry space*: the entries of a TOML configuration,
fuzzy-searched by name, some of them opened directly by a trigger prefix
(`:calc 2 + 1`).

## Layout

- `src/` — the library, every function verified:
  - `entry`, `stack`, `kit`: entries, the entry stack, the row selector;
  - `toml_model`, `entryspace`, `search`: the configuration model and its TOML
    parse, the entry space and its fuzzy search (`toml`, `fuzzy-matcher`,
    `hashbrown`, `getrandom` behind trusted wrappers);
  - `lua`, `calc`, `dylib`: what a Lua entry and the calculator make of the
    answers of the Lua state and of the evaluator, and the answers of plugin
    libraries;
  - `app_loop`, `event`, `control`, `focus`, `input_area`, `list`, `layout`,
    `shapes`, `font`, `font_mgr`, `handle`, `id_manager`: the decisions of the
    widget toolkit: event dispatch, focus chain (`indexmap`), text editing,
    list selection, box layout, fonts by family and size, handle counts, ids.
- `tests/` — tests run against the compiled library with the real crates.
- `app/` — a terminal front end: it reads the configuration file, loads plugin
  libraries, runs Lua scripts (`mlua`), runs shell commands,
  and drives the library from standard input.

Where a step needs the outside world (a file, a process, a library to load,
Lua code, which may end the process or never return),
the library decides and says what to do (`LoadAction`, `OpenTarget`,
`TriggerRaise`, `LoopAction`), and the front end does it.
