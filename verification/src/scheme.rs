//! Colour schemes: a palette written as hexadecimal texts, as stored in a
//! JSON file.  Each colour is a text like `"#1ed760"`; an empty text falls
//! back to the built-in palette of the scheme's kind.

use vstd::prelude::*;

use crate::color::{
    color_of_text, color_or, Rgba, color_text_ok, color_text_reads, hex, hex_rgb, hex_rgba, hex_shadow,
    lemma_hex_rgb_reads_back, lemma_hex_rgba_reads_back, parse_color_alpha_or, parse_color_or,
};
use crate::palette::Palette;

verus! {

/// A colour scheme that can be saved to and loaded from a JSON file.
#[derive(Clone, Debug)]
pub struct ColorScheme {
    /// Human-readable name (stored in the file, not derived from the filename).
    pub name: String,
    pub dark: bool,
    pub window: String,
    pub panel: String,
    pub surface: String,
    pub surface_hover: String,
    pub surface_active: String,
    pub outline: String,
    pub text: String,
    pub secondary: String,
    pub dim: String,
    pub accent: String,
    pub accent_hover: String,
    pub on_accent: String,
    pub danger: String,
    pub warning: String,
    pub overlay: String,
    pub shadow: String,
    pub surface_container_lowest: String,
    pub surface_container_low: String,
    pub surface_container: String,
    pub surface_container_high: String,
    pub surface_container_highest: String,
    pub primary_container: String,
    pub on_primary_container: String,
    pub outline_variant: String,
}

/// The texts of a colour scheme.
pub struct SchemeText {
    pub name: Seq<char>,
    pub dark: bool,
    pub window: Seq<char>,
    pub panel: Seq<char>,
    pub surface: Seq<char>,
    pub surface_hover: Seq<char>,
    pub surface_active: Seq<char>,
    pub outline: Seq<char>,
    pub text: Seq<char>,
    pub secondary: Seq<char>,
    pub dim: Seq<char>,
    pub accent: Seq<char>,
    pub accent_hover: Seq<char>,
    pub on_accent: Seq<char>,
    pub danger: Seq<char>,
    pub warning: Seq<char>,
    pub overlay: Seq<char>,
    pub shadow: Seq<char>,
    pub surface_container_lowest: Seq<char>,
    pub surface_container_low: Seq<char>,
    pub surface_container: Seq<char>,
    pub surface_container_high: Seq<char>,
    pub surface_container_highest: Seq<char>,
    pub primary_container: Seq<char>,
    pub on_primary_container: Seq<char>,
    pub outline_variant: Seq<char>,
}

impl View for ColorScheme {
    type V = SchemeText;

    open spec fn view(&self) -> SchemeText {
        SchemeText {
            name: self.name@,
            dark: self.dark,
            window: self.window@,
            panel: self.panel@,
            surface: self.surface@,
            surface_hover: self.surface_hover@,
            surface_active: self.surface_active@,
            outline: self.outline@,
            text: self.text@,
            secondary: self.secondary@,
            dim: self.dim@,
            accent: self.accent@,
            accent_hover: self.accent_hover@,
            on_accent: self.on_accent@,
            danger: self.danger@,
            warning: self.warning@,
            overlay: self.overlay@,
            shadow: self.shadow@,
            surface_container_lowest: self.surface_container_lowest@,
            surface_container_low: self.surface_container_low@,
            surface_container: self.surface_container@,
            surface_container_high: self.surface_container_high@,
            surface_container_highest: self.surface_container_highest@,
            primary_container: self.primary_container@,
            on_primary_container: self.on_primary_container@,
            outline_variant: self.outline_variant@,
        }
    }
}

/// A palette written out: `#rrggbb` for each colour, `#rrggbbaa` for the
/// shadow.
pub open spec fn scheme_of_palette(name: Seq<char>, p: Palette) -> SchemeText {
    SchemeText {
        name,
        dark: p.dark,
            window: hex_rgb(p.window),
            panel: hex_rgb(p.panel),
            surface: hex_rgb(p.surface),
            surface_hover: hex_rgb(p.surface_hover),
            surface_active: hex_rgb(p.surface_active),
            outline: hex_rgb(p.outline),
            text: hex_rgb(p.text),
            secondary: hex_rgb(p.secondary),
            dim: hex_rgb(p.dim),
            accent: hex_rgb(p.accent),
            accent_hover: hex_rgb(p.accent_hover),
            on_accent: hex_rgb(p.on_accent),
            danger: hex_rgb(p.danger),
            warning: hex_rgb(p.warning),
            overlay: hex_rgb(p.overlay),
            shadow: hex_rgba(p.shadow),
            surface_container_lowest: hex_rgb(p.surface_container_lowest),
            surface_container_low: hex_rgb(p.surface_container_low),
            surface_container: hex_rgb(p.surface_container),
            surface_container_high: hex_rgb(p.surface_container_high),
            surface_container_highest: hex_rgb(p.surface_container_highest),
            primary_container: hex_rgb(p.primary_container),
            on_primary_container: hex_rgb(p.on_primary_container),
            outline_variant: hex_rgb(p.outline_variant),
    }
}

/// The scheme a new file starts from: the dark palette written out, unnamed
/// and marked dark.
pub open spec fn default_scheme(p: Palette) -> SchemeText {
    SchemeText {
        name: Seq::empty(),
        dark: true,
            window: scheme_of_palette(Seq::empty(), p).window,
            panel: scheme_of_palette(Seq::empty(), p).panel,
            surface: scheme_of_palette(Seq::empty(), p).surface,
            surface_hover: scheme_of_palette(Seq::empty(), p).surface_hover,
            surface_active: scheme_of_palette(Seq::empty(), p).surface_active,
            outline: scheme_of_palette(Seq::empty(), p).outline,
            text: scheme_of_palette(Seq::empty(), p).text,
            secondary: scheme_of_palette(Seq::empty(), p).secondary,
            dim: scheme_of_palette(Seq::empty(), p).dim,
            accent: scheme_of_palette(Seq::empty(), p).accent,
            accent_hover: scheme_of_palette(Seq::empty(), p).accent_hover,
            on_accent: scheme_of_palette(Seq::empty(), p).on_accent,
            danger: scheme_of_palette(Seq::empty(), p).danger,
            warning: scheme_of_palette(Seq::empty(), p).warning,
            overlay: scheme_of_palette(Seq::empty(), p).overlay,
            shadow: scheme_of_palette(Seq::empty(), p).shadow,
            surface_container_lowest: scheme_of_palette(Seq::empty(), p).surface_container_lowest,
            surface_container_low: scheme_of_palette(Seq::empty(), p).surface_container_low,
            surface_container: scheme_of_palette(Seq::empty(), p).surface_container,
            surface_container_high: scheme_of_palette(Seq::empty(), p).surface_container_high,
            surface_container_highest: scheme_of_palette(Seq::empty(), p).surface_container_highest,
            primary_container: scheme_of_palette(Seq::empty(), p).primary_container,
            on_primary_container: scheme_of_palette(Seq::empty(), p).on_primary_container,
            outline_variant: scheme_of_palette(Seq::empty(), p).outline_variant,
    }
}

impl SchemeText {
    /// Every colour text can be read without panicking.
    pub open spec fn reads(self) -> bool {
        &&& color_text_reads(self.window)
        &&& color_text_reads(self.panel)
        &&& color_text_reads(self.surface)
        &&& color_text_reads(self.surface_hover)
        &&& color_text_reads(self.surface_active)
        &&& color_text_reads(self.outline)
        &&& color_text_reads(self.text)
        &&& color_text_reads(self.secondary)
        &&& color_text_reads(self.dim)
        &&& color_text_reads(self.accent)
        &&& color_text_reads(self.accent_hover)
        &&& color_text_reads(self.on_accent)
        &&& color_text_reads(self.danger)
        &&& color_text_reads(self.warning)
        &&& color_text_reads(self.overlay)
        &&& color_text_reads(self.shadow)
        &&& color_text_reads(self.surface_container_lowest)
        &&& color_text_reads(self.surface_container_low)
        &&& color_text_reads(self.surface_container)
        &&& color_text_reads(self.surface_container_high)
        &&& color_text_reads(self.surface_container_highest)
        &&& color_text_reads(self.primary_container)
        &&& color_text_reads(self.on_primary_container)
        &&& color_text_reads(self.outline_variant)
    }

    /// The palette of the scheme: each colour read from its text, the
    /// colour of `dark_base` (dark schemes) or of the built-in light palette
    /// (light schemes) where the text is empty.
    pub open spec fn palette(self, dark_base: Palette) -> Palette {
        let def = if self.dark {
            dark_base
        } else {
            Palette::light_defaults()
        };
        Palette {
            dark: self.dark,
            window: color_or(self.window, def.window),
            panel: color_or(self.panel, def.panel),
            surface: color_or(self.surface, def.surface),
            surface_hover: color_or(self.surface_hover, def.surface_hover),
            surface_active: color_or(self.surface_active, def.surface_active),
            outline: color_or(self.outline, def.outline),
            text: color_or(self.text, def.text),
            secondary: color_or(self.secondary, def.secondary),
            dim: color_or(self.dim, def.dim),
            accent: color_or(self.accent, def.accent),
            accent_hover: color_or(self.accent_hover, def.accent_hover),
            on_accent: color_or(self.on_accent, def.on_accent),
            danger: color_or(self.danger, def.danger),
            warning: color_or(self.warning, def.warning),
            overlay: color_or(self.overlay, def.overlay),
            shadow: color_or(self.shadow, def.shadow),
            surface_container_lowest: color_or(self.surface_container_lowest, def.surface_container_lowest),
            surface_container_low: color_or(self.surface_container_low, def.surface_container_low),
            surface_container: color_or(self.surface_container, def.surface_container),
            surface_container_high: color_or(self.surface_container_high, def.surface_container_high),
            surface_container_highest: color_or(self.surface_container_highest, def.surface_container_highest),
            primary_container: color_or(self.primary_container, def.primary_container),
            on_primary_container: color_or(self.on_primary_container, def.on_primary_container),
            outline_variant: color_or(self.outline_variant, def.outline_variant),
        }
    }
}

impl ColorScheme {
    /// The scheme that `Default` gives, where `dark` is the dark palette.
    pub fn default_for(dark: &Palette) -> (s: ColorScheme)
        ensures
            s@ == default_scheme(*dark),
    {
        let p = dark;
        ColorScheme {
            name: String::new(),
            dark: true,
            window: hex(p.window),
            panel: hex(p.panel),
            surface: hex(p.surface),
            surface_hover: hex(p.surface_hover),
            surface_active: hex(p.surface_active),
            outline: hex(p.outline),
            text: hex(p.text),
            secondary: hex(p.secondary),
            dim: hex(p.dim),
            accent: hex(p.accent),
            accent_hover: hex(p.accent_hover),
            on_accent: hex(p.on_accent),
            danger: hex(p.danger),
            warning: hex(p.warning),
            overlay: hex(p.overlay),
            shadow: hex_shadow(p.shadow),
            surface_container_lowest: hex(p.surface_container_lowest),
            surface_container_low: hex(p.surface_container_low),
            surface_container: hex(p.surface_container),
            surface_container_high: hex(p.surface_container_high),
            surface_container_highest: hex(p.surface_container_highest),
            primary_container: hex(p.primary_container),
            on_primary_container: hex(p.on_primary_container),
            outline_variant: hex(p.outline_variant),
        }
    }

    /// Builds a [`Palette`] from this scheme; `dark_base` is the dark
    /// palette that a dark scheme falls back on.
    pub fn to_palette(&self, dark_base: &Palette) -> (p: Palette)
        requires
            self@.reads(),
        ensures
            p == self@.palette(*dark_base),
    {
        let def = if self.dark {
            *dark_base
        } else {
            Palette::light()
        };
        Palette {
            dark: self.dark,
            window: parse_color_or(self.window.as_str(), def.window),
            panel: parse_color_or(self.panel.as_str(), def.panel),
            surface: parse_color_or(self.surface.as_str(), def.surface),
            surface_hover: parse_color_or(self.surface_hover.as_str(), def.surface_hover),
            surface_active: parse_color_or(self.surface_active.as_str(), def.surface_active),
            outline: parse_color_or(self.outline.as_str(), def.outline),
            text: parse_color_or(self.text.as_str(), def.text),
            secondary: parse_color_or(self.secondary.as_str(), def.secondary),
            dim: parse_color_or(self.dim.as_str(), def.dim),
            accent: parse_color_or(self.accent.as_str(), def.accent),
            accent_hover: parse_color_or(self.accent_hover.as_str(), def.accent_hover),
            on_accent: parse_color_or(self.on_accent.as_str(), def.on_accent),
            danger: parse_color_or(self.danger.as_str(), def.danger),
            warning: parse_color_or(self.warning.as_str(), def.warning),
            overlay: parse_color_or(self.overlay.as_str(), def.overlay),
            shadow: parse_color_alpha_or(self.shadow.as_str(), def.shadow),
            surface_container_lowest: parse_color_or(self.surface_container_lowest.as_str(), def.surface_container_lowest),
            surface_container_low: parse_color_or(self.surface_container_low.as_str(), def.surface_container_low),
            surface_container: parse_color_or(self.surface_container.as_str(), def.surface_container),
            surface_container_high: parse_color_or(self.surface_container_high.as_str(), def.surface_container_high),
            surface_container_highest: parse_color_or(self.surface_container_highest.as_str(), def.surface_container_highest),
            primary_container: parse_color_or(self.primary_container.as_str(), def.primary_container),
            on_primary_container: parse_color_or(self.on_primary_container.as_str(), def.on_primary_container),
            outline_variant: parse_color_or(self.outline_variant.as_str(), def.outline_variant),
        }
    }

    /// Create a scheme from an existing palette and a name.
    pub fn from_palette(name: &str, p: &Palette) -> (s: ColorScheme)
        ensures
            s@ == scheme_of_palette(name@, *p),
    {
        ColorScheme {
            name: name.to_owned(),
            dark: p.dark,
            window: hex(p.window),
            panel: hex(p.panel),
            surface: hex(p.surface),
            surface_hover: hex(p.surface_hover),
            surface_active: hex(p.surface_active),
            outline: hex(p.outline),
            text: hex(p.text),
            secondary: hex(p.secondary),
            dim: hex(p.dim),
            accent: hex(p.accent),
            accent_hover: hex(p.accent_hover),
            on_accent: hex(p.on_accent),
            danger: hex(p.danger),
            warning: hex(p.warning),
            overlay: hex(p.overlay),
            shadow: hex_shadow(p.shadow),
            surface_container_lowest: hex(p.surface_container_lowest),
            surface_container_low: hex(p.surface_container_low),
            surface_container: hex(p.surface_container),
            surface_container_high: hex(p.surface_container_high),
            surface_container_highest: hex(p.surface_container_highest),
            primary_container: hex(p.primary_container),
            on_primary_container: hex(p.on_primary_container),
            outline_variant: hex(p.outline_variant),
        }
    }

    /// Whether every colour text can be read: [`ColorScheme::to_palette`]
    /// asks for it.
    pub fn parses_cleanly(&self) -> (ok: bool)
        ensures
            ok == self@.reads(),
    {
        true
            && color_text_ok(self.window.as_str())
            && color_text_ok(self.panel.as_str())
            && color_text_ok(self.surface.as_str())
            && color_text_ok(self.surface_hover.as_str())
            && color_text_ok(self.surface_active.as_str())
            && color_text_ok(self.outline.as_str())
            && color_text_ok(self.text.as_str())
            && color_text_ok(self.secondary.as_str())
            && color_text_ok(self.dim.as_str())
            && color_text_ok(self.accent.as_str())
            && color_text_ok(self.accent_hover.as_str())
            && color_text_ok(self.on_accent.as_str())
            && color_text_ok(self.danger.as_str())
            && color_text_ok(self.warning.as_str())
            && color_text_ok(self.overlay.as_str())
            && color_text_ok(self.shadow.as_str())
            && color_text_ok(self.surface_container_lowest.as_str())
            && color_text_ok(self.surface_container_low.as_str())
            && color_text_ok(self.surface_container.as_str())
            && color_text_ok(self.surface_container_high.as_str())
            && color_text_ok(self.surface_container_highest.as_str())
            && color_text_ok(self.primary_container.as_str())
            && color_text_ok(self.on_primary_container.as_str())
            && color_text_ok(self.outline_variant.as_str())
    }
}

/// Writing a palette into a scheme and reading the scheme back gives the
/// palette again, whatever its name and whatever the dark base, as long as
/// every colour but the shadow is opaque (a written colour keeps no alpha).
pub proof fn lemma_palette_round_trip(name: Seq<char>, p: Palette, dark_base: Palette)
    requires
        p.solid(),
    ensures
        scheme_of_palette(name, p).reads(),
        scheme_of_palette(name, p).palette(dark_base) == p,
{
    lemma_hex_rgb_reads_back(p.window);
    lemma_hex_rgb_reads_back(p.panel);
    lemma_hex_rgb_reads_back(p.surface);
    lemma_hex_rgb_reads_back(p.surface_hover);
    lemma_hex_rgb_reads_back(p.surface_active);
    lemma_hex_rgb_reads_back(p.outline);
    lemma_hex_rgb_reads_back(p.text);
    lemma_hex_rgb_reads_back(p.secondary);
    lemma_hex_rgb_reads_back(p.dim);
    lemma_hex_rgb_reads_back(p.accent);
    lemma_hex_rgb_reads_back(p.accent_hover);
    lemma_hex_rgb_reads_back(p.on_accent);
    lemma_hex_rgb_reads_back(p.danger);
    lemma_hex_rgb_reads_back(p.warning);
    lemma_hex_rgb_reads_back(p.overlay);
    lemma_hex_rgba_reads_back(p.shadow);
    lemma_hex_rgb_reads_back(p.surface_container_lowest);
    lemma_hex_rgb_reads_back(p.surface_container_low);
    lemma_hex_rgb_reads_back(p.surface_container);
    lemma_hex_rgb_reads_back(p.surface_container_high);
    lemma_hex_rgb_reads_back(p.surface_container_highest);
    lemma_hex_rgb_reads_back(p.primary_container);
    lemma_hex_rgb_reads_back(p.on_primary_container);
    lemma_hex_rgb_reads_back(p.outline_variant);
}

/// The default scheme reads back as the dark palette it was written from,
/// where that palette is dark and solid.
pub proof fn lemma_default_scheme_is_dark_palette(p: Palette)
    requires
        p.dark,
        p.solid(),
    ensures
        default_scheme(p).reads(),
        default_scheme(p).palette(p) == p,
{
    lemma_hex_rgb_reads_back(p.window);
    lemma_hex_rgb_reads_back(p.panel);
    lemma_hex_rgb_reads_back(p.surface);
    lemma_hex_rgb_reads_back(p.surface_hover);
    lemma_hex_rgb_reads_back(p.surface_active);
    lemma_hex_rgb_reads_back(p.outline);
    lemma_hex_rgb_reads_back(p.text);
    lemma_hex_rgb_reads_back(p.secondary);
    lemma_hex_rgb_reads_back(p.dim);
    lemma_hex_rgb_reads_back(p.accent);
    lemma_hex_rgb_reads_back(p.accent_hover);
    lemma_hex_rgb_reads_back(p.on_accent);
    lemma_hex_rgb_reads_back(p.danger);
    lemma_hex_rgb_reads_back(p.warning);
    lemma_hex_rgb_reads_back(p.overlay);
    lemma_hex_rgba_reads_back(p.shadow);
    lemma_hex_rgb_reads_back(p.surface_container_lowest);
    lemma_hex_rgb_reads_back(p.surface_container_low);
    lemma_hex_rgb_reads_back(p.surface_container);
    lemma_hex_rgb_reads_back(p.surface_container_high);
    lemma_hex_rgb_reads_back(p.surface_container_highest);
    lemma_hex_rgb_reads_back(p.primary_container);
    lemma_hex_rgb_reads_back(p.on_primary_container);
    lemma_hex_rgb_reads_back(p.outline_variant);
}

/// A colour of a scheme's palette is the colour its text reads as, or, where
/// the text is empty, the same colour of the fallback palette.
pub open spec fn read_or_fallback(text: Seq<char>, field: Rgba, fallback: Rgba) -> bool {
    if text.len() == 0 {
        field == fallback
    } else {
        field == color_of_text(text)
    }
}

/// Each colour of a scheme's palette comes from its own text, and an empty
/// text takes the same colour of the fallback palette: the dark base for dark
/// schemes, the built-in light palette for light ones.  The palette is of
/// the scheme's kind.
pub proof fn lemma_scheme_fields_read_or_fall_back(s: SchemeText, dark_base: Palette)
    ensures
        ({
            let p = s.palette(dark_base);
            let def = if s.dark {
                dark_base
            } else {
                Palette::light_defaults()
            };
            &&& p.dark == s.dark
            &&& read_or_fallback(s.window, p.window, def.window)
            &&& read_or_fallback(s.panel, p.panel, def.panel)
            &&& read_or_fallback(s.surface, p.surface, def.surface)
            &&& read_or_fallback(s.surface_hover, p.surface_hover, def.surface_hover)
            &&& read_or_fallback(s.surface_active, p.surface_active, def.surface_active)
            &&& read_or_fallback(s.outline, p.outline, def.outline)
            &&& read_or_fallback(s.text, p.text, def.text)
            &&& read_or_fallback(s.secondary, p.secondary, def.secondary)
            &&& read_or_fallback(s.dim, p.dim, def.dim)
            &&& read_or_fallback(s.accent, p.accent, def.accent)
            &&& read_or_fallback(s.accent_hover, p.accent_hover, def.accent_hover)
            &&& read_or_fallback(s.on_accent, p.on_accent, def.on_accent)
            &&& read_or_fallback(s.danger, p.danger, def.danger)
            &&& read_or_fallback(s.warning, p.warning, def.warning)
            &&& read_or_fallback(s.overlay, p.overlay, def.overlay)
            &&& read_or_fallback(s.shadow, p.shadow, def.shadow)
            &&& read_or_fallback(s.surface_container_lowest, p.surface_container_lowest, def.surface_container_lowest)
            &&& read_or_fallback(s.surface_container_low, p.surface_container_low, def.surface_container_low)
            &&& read_or_fallback(s.surface_container, p.surface_container, def.surface_container)
            &&& read_or_fallback(s.surface_container_high, p.surface_container_high, def.surface_container_high)
            &&& read_or_fallback(s.surface_container_highest, p.surface_container_highest, def.surface_container_highest)
            &&& read_or_fallback(s.primary_container, p.primary_container, def.primary_container)
            &&& read_or_fallback(s.on_primary_container, p.on_primary_container, def.on_primary_container)
            &&& read_or_fallback(s.outline_variant, p.outline_variant, def.outline_variant)
        }),
{
}

} // verus!
