# spotatui

Plugin scripting and cover art for a terminal music player, verified with Verus.

Plugins are Lua scripts. They see one global table, `spotatui`, whose functions register event
handlers, read the state of the player, queue effects and log. The player emits events, which run
the handlers, and drains the queued effects into the app.

## Layout

- `src/api.rs`: the `spotatui` table and what each of its functions does.
- `src/shared.rs`: the state that scripts and the player share, and what each script call does to it.
- `src/handlers.rs`: the list of event handlers, which stands in a table of the interpreter.
- `src/engine.rs`: loading plugins, emitting events, draining effects.
- `src/events.rs`: the events, and telling which of them happened between two snapshots.
- `src/effects.rs`, `src/app.rs`: the effects, and what they do to the app.
- `src/values.rs`, `src/plugin_api.rs`: the data that scripts read, and its Lua values.
- `src/interpreter.rs`: the calls into the Lua interpreter, with the contracts that are believed.
- `src/cover_art.rs`: decoding, sizing and drawing cover art.
- `src/harness.rs`: sample data and helpers for trying out a piece of script.
- `app/`: the terminal, the network and the log around the library.

## What is proved

The functions behind the `spotatui` table are proved: one that acts makes exactly one script call of
its arguments, or changes nothing where it fails; one that reads changes nothing. That the Lua
functions in the table convert their arguments and hand them over to these is believed, as part of
the nine contracts that make them. Scripts only ever append: they cannot take back an effect,
remove a handler or change what they read. A handler that fails is removed at once, and a message
says so. Error messages stay until they expire. Both views of a cover take the same area.

Contracts of functions that call another crate are believed. Each is marked
`#[verifier::external_body]` and names the function that it calls.
