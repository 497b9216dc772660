# tca — Terminal Colors Architecture

Theme handling for terminal applications, built on the base24 color scheme
format, with its logic verified by Verus.

## Layout

- `src/` — the verified library.
  - `base24`, `theme`, `round_trip`: reading base24 scheme text, deriving the
    TCA theme (ANSI, semantic and UI colors) from the 24 slots, writing it back,
    and the proof that writing and reading again gives the same theme.
  - `hex`, `text`, `order`: hex colors, text helpers and a total order on text.
  - `builtin`, `lookup`, `config`, `loader`, `util`: the built-in themes, finding
    a theme by name (theme files, built-ins, user preference, terminal mode),
    user preferences and theme directories as plain values.
  - `cursor`, `theme_order`: cycling through themes, ordering themes by name.
  - `tui`: themes resolved to terminal colors, style sets and their cursors.
  - `validate`: validation issues, ANSI color checks and the contrast plan.
  - `export`: rendering a theme for kitty, alacritty, vim, helix, starship,
    tmux, base16, VS Code and iTerm2.
- `tests/` — tests of the library.
- `app/` — the `tca` command line program: files, directories, the terminal,
  git downloads, JSON and floating-point formatting.
