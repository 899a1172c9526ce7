# ultelier

A verified control library for plugins that drive the `ssbusync` render-loop
runtime of Super Smash Bros. Ultimate: buffer-ring and frame-index switching,
vsync, render optimizations, the frame pacer, overclock profiles, change
notifications, and an in-game debug console.

## Layout

- `src/` — the library, verified with Verus.
  - `flags.rs` — the environment flag word and its bit laws.
  - `modes.rs` — buffer mode, index mode, overclock profile, install
    configuration, NsTuff status, with their wire encodings.
  - `remote.rs` — the symbol table of the runtime and the request/reply
    types: each request names the entry point and its arguments, each
    `finish` decodes the raw reply.
  - `lib.rs` — one request builder per runtime operation.
  - `callback.rs`, `events.rs` — callback slots, subscriptions, the decoding
    of notification values, and the registry that registers or clears every
    callback in steps.
  - `console/` — the debug console: command language (`text.rs`,
    `command.rs`), bounded log (`log.rs`), displayed words and numbers
    (`names.rs`, `graphics.rs`) and the console state machine (`state.rs`).
- `app/` — the plugin side: symbol lookup and foreign calls through
  `skyline`, the event trampolines and their static slots, the ImGui drawing,
  controller polling and the panic hook.
- `tests/` — tests of the library on concrete values.

The caller of a request looks its entry point up, makes the call and passes
the raw reply (or `None` when the entry point is missing) to the request's
`finish`. Multi-call operations (`SideEffectRegistry::register_remote`,
`SideEffectRegistry::clear_remote`) are step functions: they take the replies
so far and return the next call to make or the outcome.
