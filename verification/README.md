# cce_fx

The decision logic of the cce-fx Wayland compositor, as a library whose
behaviour is stated in `requires`/`ensures` contracts and proved with Verus.

## Layout

- `src/` — the verified library:
  - `config`, `config_file`, `kdl_doc`, `settings` — the configuration file:
    its value parsers and defaults, the KDL document read into plain nodes,
    every integer-, boolean- and string-valued setting read out of it, and
    the settings the compositor derives from them (bindings, mode rules,
    window-manager defaults, `$VAR` expansion).
  - `keyboard`, `shortcuts` — key-group press/release bookkeeping, builtin
    and compositor key bindings, who consumes a key press, and the
    global-shortcuts table with its control-socket command.
  - `pointer`, `cursor`, `geometry` — what a button press does, resize
    handles and cursors, rectangles, and input-method popup placement.
  - `layer_shell`, `lock`, `idle`, `window_management`, `inspector`, `ipc`,
    `backdrop` — the protocol state machines and the backdrop measurement.
  - `text` — the string and number helpers the rest is written with.
- `tests/` — tests of the library on concrete values.
- `app/` — the operating-system side: files, environment, sockets,
  processes, memfds, libxkbcommon keysym lookups, and the floating-point
  settings of the configuration file.
