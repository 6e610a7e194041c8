# kinetik

The verified core of the Kinetik engine and its Studio editor, written in
Verus. Every function in `src/` carries a contract that Verus proves.

## Layout

- `src/foundation/` — typed non-zero IDs, structured diagnostics, the
  shared error type.
- `src/text.rs` — text helpers shared by the validation rules (blank and
  trimmed text, decimal rendering, path splitting, prefixes).
- `src/reflect/` — reflected property descriptors and values, including the
  `res://` asset path rules.
- `src/project/` — project identity, settings, document references, the
  diagnostics store and the project model.
- `src/command/` — command results, change records, undo/redo history,
  dirty-state explanations, and the asset, script and scene command families.
- `src/runtime/` — frame phase ordering and counters, runtime diagnostics,
  and the sandboxed runtime world cloned from an edit scene.
- `src/physics/` — the canonical input frame.
- `src/editor/` — the editor session, selection and focus, play mode, the
  shell layout, Explorer rows, the agent-facing MCP responses, and the
  pixel canvas that renders the Studio presentation frame.
- `app/` — the windowed shell (winit and softbuffer), the floating-point
  frame clock, character controller and interaction raycasts.
- `tests/` — executable tests of the library.
