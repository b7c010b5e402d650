# todo_store

A todo list kept in one JSON data file, shared by a tray application and an MCP
(Model Context Protocol) tool server. The library in `src/` is written in Verus and
verified; `app/` holds the I/O around it.

- `src/store.rs`: the store — load, reload, list and the locked reload. Add, toggle,
  update and remove only plan a change (the complete new list and the answer) or refuse
  it; the caller saves an accepted plan and then commits it, so a refused or unsaved
  change never touches the file or the entries.
- `src/item.rs`: entries, the data document, errors and their messages.
- `src/text.rs`: trimming by the Unicode `White_Space` property, decimal digits.
- `src/names.rs`: the data, temporary, lock and backup file names; the path override.
- `src/rpc.rs`: the JSON-RPC dispatcher of the tool server and its tool catalogue.
  `handle_message` decides each message before any lock is taken (`Dispatch`);
  `call_tool` reloads under the lock and plans the tool (`ToolStep`); `finish_tool`
  answers once the change was saved or its save failed.
- `src/desktop.rs`: the tray card's decisions — toggling, hiding after focus loss,
  placement on the monitor.
- `src/clock.rs`, `src/ids.rs`: the clock and UUID v4 identifiers.
- `src/laws.rs`: properties that relate several operations.
- `app/`: the stdio MCP server (`main.rs`), file access and atomic saving
  (`storage.rs`), JSON encoding (`records.rs`, `mcp.rs`), and the Tauri tray shell
  (`desktop.rs`, built with `--cfg desktop`).
