# fastpotify theme library

The colour logic of the player's theme, verified with Verus.

- `src/color.rs` — colours, and the `#rrggbb` / `#rrggbbaa` texts they are
  written as and read from.
- `src/palette.rs` — the palette and the built-in dark and light palettes.
- `src/scheme.rs` — colour schemes (a palette as texts) and the laws that a
  written scheme reads back as its palette.
- `src/json.rs`, `src/caelestia.rs` — reading Caelestia's scheme files, with
  serde_json doing the JSON.
- `src/icon.rs` — the icon set: image URIs and Material Symbols glyphs.
- `src/player_bar.rs` — which icon, colour and tooltip the now-playing bar's
  controls show.
- `app/` — the egui side: colour conversion, the serde copy of the colour
  scheme, reading the scheme file from disk, egui's style and the widgets.
