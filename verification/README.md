# e2b_dash

The dashboard of herdr-e2b: a live terminal board of every tracked E2B
sandbox, with per-sandbox open / sync / pull / kill and theming.

The decisions are a verified library (`src/`, checked by Verus):

- `text` – character sequences: code-point order, Unicode white space and
  trimming, decimal numerals.
- `state` – box records, the state directory and path joining, which
  directory entries are records, the order of the board (stable by label),
  and POSIX shell quoting, proved to read back as one word.
- `actions` – the confirm-gated verbs, the Enter step to a worktree, and the
  plan for running an action (skip, inline shell, herdr pane).
- `theme` – the colour presets, status glyphs, the saved and seeded theme.
- `board` – the records with the selected row (always on the board).
- `app` – the dashboard state and its reaction to each key, and everything
  it draws: each line's text and style, the table's rows and look.

`app/` is the program around it: terminal drawing with ratatui, key events
from crossterm, reading record files with serde_json, the environment, and
running commands.
