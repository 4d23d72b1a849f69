# gpui_component (verified core)

The logic of a GUI component toolkit, verified with Verus: the functions in `src/`
carry `requires`/`ensures` contracts over a mathematical model of their data
(a few that do nothing, such as `Errno::clear`, have nothing to state), and the
laws that relate several calls are public proof functions.

## Layout

- `src/text_model.rs` — text as a sequence of chars: UTF-8 offsets, char
  boundaries, lines.
- `src/rope.rs` — the trusted contracts of the `ropey` rope the text is held in.
- `src/rope_ext.rs`, `src/cursor.rs` — line/column positions and offsets on a
  rope, selections; position/offset round trips.
- `src/text_wrapper.rs` — the soft-wrapped lines of a text, kept up to date
  by incremental updates.
- `src/table.rs`, `src/list.rs` — selection, sorting, column order and query
  state of tables and lists.
- `src/notification.rs`, `src/tooltip.rs`, `src/completion.rs`,
  `src/hover.rs`, `src/ui_state.rs` — the state machines behind
  notifications, tooltips, the completion menu, go-to-definition and small
  element states.
- `src/highlight.rs`, `src/languages.rs`, `src/grammars.rs`, `src/marker.rs`
  — running the tree-sitter highlighter over a line and folding its events
  into spans, language and scope names, the grammar and queries of each
  language, diagnostic markers.
- `src/syntax.rs` — the multiline syntax highlighter: tree-sitter captures
  of a text cached as styled byte ranges, read range by range.
- `src/tree.rs` — a tree of items flattened into the rows it is shown as.
- `src/oklch.rs` — the syntax of `oklch(...)` color texts.
- `src/sankey.rs` — the topology of Sankey diagrams: nodes, links, depths and
  layers.
- `app/` — what is not verified: conversions from `lsp-types`, theme
  styles for highlighted lines, and floating point (Sankey geometry,
  sheet drags, the numbers of Oklch colors).
- `tests/` — tests of the library, run against the real `ropey`.
