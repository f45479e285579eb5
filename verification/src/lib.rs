//! Colours, palettes and colour schemes of the player's theme: reading and
//! writing hexadecimal colour texts, colour-scheme files and Caelestia's
//! scheme files, and the icon set.

pub mod caelestia;
pub mod color;
pub mod icon;
pub mod json;
pub mod palette;
pub mod player_bar;
pub mod scheme;
pub mod text;

pub use caelestia::{palette_from_colours, parse_caelestia_scheme, parse_caelestia_scheme_checked};
pub use color::{color_text_ok, hex, hex_shadow, parse_color, parse_color_alpha, Rgba};
pub use icon::Icon;
pub use palette::Palette;
pub use scheme::ColorScheme;
