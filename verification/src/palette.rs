//! The palette: every colour the interface paints with.

use vstd::prelude::*;

use crate::color::Rgba;

verus! {

/// The colours of one theme.  All of them are opaque but `shadow`, which is
/// black at a low alpha.
#[derive(Clone, Copy, Debug, PartialEq, Eq, Structural)]
pub struct Palette {
    pub dark: bool,
    pub window: Rgba,
    pub panel: Rgba,
    pub surface: Rgba,
    pub surface_hover: Rgba,
    pub surface_active: Rgba,
    pub outline: Rgba,
    pub text: Rgba,
    pub secondary: Rgba,
    pub dim: Rgba,
    pub accent: Rgba,
    pub accent_hover: Rgba,
    pub on_accent: Rgba,
    pub danger: Rgba,
    pub warning: Rgba,
    pub overlay: Rgba,
    pub shadow: Rgba,
    // Material 3 / Astra design tokens
    pub surface_container_lowest: Rgba,
    pub surface_container_low: Rgba,
    pub surface_container: Rgba,
    pub surface_container_high: Rgba,
    pub surface_container_highest: Rgba,
    pub primary_container: Rgba,
    pub on_primary_container: Rgba,
    pub outline_variant: Rgba,
}

impl Palette {
    /// Every colour but the shadow is opaque.
    pub open spec fn solid(self) -> bool {
        &&& self.window.is_opaque()
        &&& self.panel.is_opaque()
        &&& self.surface.is_opaque()
        &&& self.surface_hover.is_opaque()
        &&& self.surface_active.is_opaque()
        &&& self.outline.is_opaque()
        &&& self.text.is_opaque()
        &&& self.secondary.is_opaque()
        &&& self.dim.is_opaque()
        &&& self.accent.is_opaque()
        &&& self.accent_hover.is_opaque()
        &&& self.on_accent.is_opaque()
        &&& self.danger.is_opaque()
        &&& self.warning.is_opaque()
        &&& self.overlay.is_opaque()
        &&& self.surface_container_lowest.is_opaque()
        &&& self.surface_container_low.is_opaque()
        &&& self.surface_container.is_opaque()
        &&& self.surface_container_high.is_opaque()
        &&& self.surface_container_highest.is_opaque()
        &&& self.primary_container.is_opaque()
        &&& self.on_primary_container.is_opaque()
        &&& self.outline_variant.is_opaque()
    }

    /// The built-in dark palette.
    pub open spec fn dark_defaults() -> Palette {
        Palette {
            dark: true,
            window: Rgba::rgb(0x0a, 0x0f, 0x0f),
            panel: Rgba::rgb(0x0e, 0x15, 0x14),
            surface: Rgba::rgb(0x13, 0x1b, 0x1a),
            surface_hover: Rgba::rgb(0x19, 0x21, 0x20),
            surface_active: Rgba::rgb(0x1d, 0x28, 0x27),
            outline: Rgba::rgb(0x6d, 0x78, 0x76),
            text: Rgba::rgb(0xdc, 0xe8, 0xe6),
            secondary: Rgba::rgb(0xa2, 0xad, 0xac),
            dim: Rgba::rgb(0x6d, 0x78, 0x76),
            accent: Rgba::rgb(0x9b, 0xd0, 0xcc),
            accent_hover: Rgba::rgb(0xb8, 0xed, 0xe9),
            on_accent: Rgba::rgb(0x0d, 0x48, 0x45),
            danger: Rgba::rgb(0xfa, 0x74, 0x6f),
            warning: Rgba::rgb(0xf2, 0xb8, 0x5c),
            overlay: Rgba::rgb(0x13, 0x1b, 0x1a),
            shadow: Rgba { r: 0, g: 0, b: 0, a: 140 },
            surface_container_lowest: Rgba::rgb(0x00, 0x00, 0x00),
            surface_container_low: Rgba::rgb(0x0e, 0x15, 0x14),
            surface_container: Rgba::rgb(0x13, 0x1b, 0x1a),
            surface_container_high: Rgba::rgb(0x19, 0x21, 0x20),
            surface_container_highest: Rgba::rgb(0x1d, 0x28, 0x27),
            primary_container: Rgba::rgb(0x25, 0x5b, 0x58),
            on_primary_container: Rgba::rgb(0xb8, 0xed, 0xe9),
            outline_variant: Rgba::rgb(0x3f, 0x4a, 0x49),
        }
    }

    /// The built-in light palette.
    pub open spec fn light_defaults() -> Palette {
        Palette {
            dark: false,
            window: Rgba::rgb(0xf4, 0xfa, 0xf8),
            panel: Rgba::rgb(0xee, 0xf5, 0xf3),
            surface: Rgba::rgb(0xe8, 0xef, 0xed),
            surface_hover: Rgba::rgb(0xe2, 0xe9, 0xe7),
            surface_active: Rgba::rgb(0xdc, 0xe4, 0xe1),
            outline: Rgba::rgb(0x6f, 0x79, 0x78),
            text: Rgba::rgb(0x16, 0x1d, 0x1c),
            secondary: Rgba::rgb(0x3f, 0x49, 0x48),
            dim: Rgba::rgb(0x6f, 0x79, 0x78),
            accent: Rgba::rgb(0x33, 0x67, 0x64),
            accent_hover: Rgba::rgb(0x25, 0x5b, 0x58),
            on_accent: Rgba::rgb(0xff, 0xff, 0xff),
            danger: Rgba::rgb(0xba, 0x1a, 0x1a),
            warning: Rgba::rgb(0xb8, 0x7a, 0x14),
            overlay: Rgba::rgb(0xe8, 0xef, 0xed),
            shadow: Rgba { r: 0, g: 0, b: 0, a: 40 },
            surface_container_lowest: Rgba::rgb(0xff, 0xff, 0xff),
            surface_container_low: Rgba::rgb(0xee, 0xf5, 0xf3),
            surface_container: Rgba::rgb(0xe8, 0xef, 0xed),
            surface_container_high: Rgba::rgb(0xe2, 0xe9, 0xe7),
            surface_container_highest: Rgba::rgb(0xdc, 0xe4, 0xe1),
            primary_container: Rgba::rgb(0xb8, 0xed, 0xe9),
            on_primary_container: Rgba::rgb(0x00, 0x20, 0x1f),
            outline_variant: Rgba::rgb(0xbe, 0xc9, 0xc7),
        }
    }

    pub fn default_dark() -> (p: Palette)
        ensures
            p == Palette::dark_defaults(),
    {
        Palette {
            dark: true,
            window: Rgba::from_rgb(0x0a, 0x0f, 0x0f),
            panel: Rgba::from_rgb(0x0e, 0x15, 0x14),
            surface: Rgba::from_rgb(0x13, 0x1b, 0x1a),
            surface_hover: Rgba::from_rgb(0x19, 0x21, 0x20),
            surface_active: Rgba::from_rgb(0x1d, 0x28, 0x27),
            outline: Rgba::from_rgb(0x6d, 0x78, 0x76),
            text: Rgba::from_rgb(0xdc, 0xe8, 0xe6),
            secondary: Rgba::from_rgb(0xa2, 0xad, 0xac),
            dim: Rgba::from_rgb(0x6d, 0x78, 0x76),
            accent: Rgba::from_rgb(0x9b, 0xd0, 0xcc),
            accent_hover: Rgba::from_rgb(0xb8, 0xed, 0xe9),
            on_accent: Rgba::from_rgb(0x0d, 0x48, 0x45),
            danger: Rgba::from_rgb(0xfa, 0x74, 0x6f),
            warning: Rgba::from_rgb(0xf2, 0xb8, 0x5c),
            overlay: Rgba::from_rgb(0x13, 0x1b, 0x1a),
            shadow: Rgba::from_black_alpha(140),
            surface_container_lowest: Rgba::from_rgb(0x00, 0x00, 0x00),
            surface_container_low: Rgba::from_rgb(0x0e, 0x15, 0x14),
            surface_container: Rgba::from_rgb(0x13, 0x1b, 0x1a),
            surface_container_high: Rgba::from_rgb(0x19, 0x21, 0x20),
            surface_container_highest: Rgba::from_rgb(0x1d, 0x28, 0x27),
            primary_container: Rgba::from_rgb(0x25, 0x5b, 0x58),
            on_primary_container: Rgba::from_rgb(0xb8, 0xed, 0xe9),
            outline_variant: Rgba::from_rgb(0x3f, 0x4a, 0x49),
        }
    }

    /// The dark palette: the one read from Caelestia's active scheme where
    /// there is one (`scheme`), the built-in one otherwise.
    pub fn dark(scheme: Option<Palette>) -> (p: Palette)
        ensures
            p == match scheme {
                Some(s) => s,
                None => Palette::dark_defaults(),
            },
    {
        match scheme {
            Some(s) => s,
            None => Palette::default_dark(),
        }
    }

    pub fn light() -> (p: Palette)
        ensures
            p == Palette::light_defaults(),
    {
        Palette {
            dark: false,
            window: Rgba::from_rgb(0xf4, 0xfa, 0xf8),
            panel: Rgba::from_rgb(0xee, 0xf5, 0xf3),
            surface: Rgba::from_rgb(0xe8, 0xef, 0xed),
            surface_hover: Rgba::from_rgb(0xe2, 0xe9, 0xe7),
            surface_active: Rgba::from_rgb(0xdc, 0xe4, 0xe1),
            outline: Rgba::from_rgb(0x6f, 0x79, 0x78),
            text: Rgba::from_rgb(0x16, 0x1d, 0x1c),
            secondary: Rgba::from_rgb(0x3f, 0x49, 0x48),
            dim: Rgba::from_rgb(0x6f, 0x79, 0x78),
            accent: Rgba::from_rgb(0x33, 0x67, 0x64),
            accent_hover: Rgba::from_rgb(0x25, 0x5b, 0x58),
            on_accent: Rgba::white(),
            danger: Rgba::from_rgb(0xba, 0x1a, 0x1a),
            warning: Rgba::from_rgb(0xb8, 0x7a, 0x14),
            overlay: Rgba::from_rgb(0xe8, 0xef, 0xed),
            shadow: Rgba::from_black_alpha(40),
            surface_container_lowest: Rgba::white(),
            surface_container_low: Rgba::from_rgb(0xee, 0xf5, 0xf3),
            surface_container: Rgba::from_rgb(0xe8, 0xef, 0xed),
            surface_container_high: Rgba::from_rgb(0xe2, 0xe9, 0xe7),
            surface_container_highest: Rgba::from_rgb(0xdc, 0xe4, 0xe1),
            primary_container: Rgba::from_rgb(0xb8, 0xed, 0xe9),
            on_primary_container: Rgba::from_rgb(0x00, 0x20, 0x1f),
            outline_variant: Rgba::from_rgb(0xbe, 0xc9, 0xc7),
        }
    }
}

/// Both built-in palettes are solid, and say which kind they are.
pub proof fn lemma_builtin_palettes_solid()
    ensures
        Palette::dark_defaults().solid(),
        Palette::dark_defaults().dark,
        Palette::light_defaults().solid(),
        !Palette::light_defaults().dark,
{
}

} // verus!
