# fund_baby

The window logic of the fund-baby desktop widget (a tray program that shows a
fund-valuation panel and a compact daily-profit strip), verified with Verus.

- `src/` — the verified library: positions and work areas (`geometry`), the
  saved desktop state (`desktop_state`), the boss-key state machine that turns
  F2, tray and window-move events into window operations (`window`), tray-menu
  ids (`menu`, with `text` helpers), export file names (`export`), the clock
  (`clock`), and properties across these operations (`laws`).
- `tests/` — tests on concrete values.
- `app/` — the Tauri program around the library: windows, tray, dialogs, files.
