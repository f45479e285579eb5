//! The decisions of the now-playing bar: which icon, colour and tooltip each
//! control shows.  Drawing the bar is left to the interface.

use vstd::prelude::*;

use crate::color::Rgba;
use crate::icon::Icon;
use crate::palette::Palette;

verus! {

/// How playback repeats.
#[derive(Clone, Copy, Debug, PartialEq, Eq, Structural)]
pub enum RepeatMode {
    Off,
    Context,
    Track,
}

/// The repeat control: its icon, whether it shows as active, and its tooltip
/// (what a click turns it to).
pub fn repeat_control(mode: RepeatMode) -> (c: (Icon, bool, &'static str))
    ensures
        match mode {
            RepeatMode::Off => c.0 == Icon::Repeat && !c.1 && c.2@ == "Repeat"@,
            RepeatMode::Context => c.0 == Icon::Repeat && c.1 && c.2@ == "Repeat one"@,
            RepeatMode::Track => c.0 == Icon::Repeat1 && c.1 && c.2@ == "Repeat off"@,
        },
{
    match mode {
        RepeatMode::Off => (Icon::Repeat, false, "Repeat"),
        RepeatMode::Context => (Icon::Repeat, true, "Repeat one"),
        RepeatMode::Track => (Icon::Repeat1, true, "Repeat off"),
    }
}

/// The icon of the volume control for a volume in percent.
pub open spec fn volume_icon_of(shown: u8) -> Icon {
    if shown == 0 {
        Icon::VolumeX
    } else if shown <= 33 {
        Icon::Volume
    } else if shown <= 66 {
        Icon::Volume1
    } else {
        Icon::Volume2
    }
}

pub fn volume_icon(shown: u8) -> (icon: Icon)
    ensures
        icon == volume_icon_of(shown),
{
    match shown {
        0 => Icon::VolumeX,
        1..=33 => Icon::Volume,
        34..=66 => Icon::Volume1,
        _ => Icon::Volume2,
    }
}

/// The tooltip of the volume control: a click unmutes a silent player and
/// mutes any other.
pub fn volume_tooltip(shown: u8) -> (t: &'static str)
    ensures
        t@ == (if shown == 0 {
            "Unmute"@
        } else {
            "Mute"@
        }),
{
    if shown == 0 {
        "Unmute"
    } else {
        "Mute"
    }
}

/// The save control of the playing track: its icon, colour and tooltip.
pub fn heart_control(saved: bool, palette: &Palette) -> (c: (Icon, Rgba, &'static str))
    ensures
        saved ==> c.0 == Icon::HeartFilled && c.1 == palette.accent && c.2@
            == "Remove from Liked Songs"@,
        !saved ==> c.0 == Icon::Heart && c.1 == palette.secondary && c.2@
            == "Save to Liked Songs"@,
{
    if saved {
        (Icon::HeartFilled, palette.accent, "Remove from Liked Songs")
    } else {
        (Icon::Heart, palette.secondary, "Save to Liked Songs")
    }
}

/// The fill of a transport control.  The play control (primary) is the
/// accent colour, lifted on hover; an active toggle is the primary container,
/// the hover accent on hover; any other control is a high surface container,
/// the highest one while hovered or pressed.
pub open spec fn control_fill_of(p: Palette, is_primary: bool, active: bool, hovered: bool, pressed: bool) -> Rgba {
    if is_primary {
        if hovered {
            p.accent_hover
        } else {
            p.accent
        }
    } else if active {
        if hovered {
            p.accent_hover
        } else {
            p.primary_container
        }
    } else if pressed || hovered {
        p.surface_container_highest
    } else {
        p.surface_container_high
    }
}

/// The icon colour of a transport control, readable on its fill.
pub open spec fn control_icon_color_of(p: Palette, is_primary: bool, active: bool) -> Rgba {
    if is_primary {
        p.on_accent
    } else if active {
        p.on_primary_container
    } else {
        p.text
    }
}

/// The fill and icon colour of a transport control.
pub fn control_colors(
    palette: &Palette,
    is_primary: bool,
    active: bool,
    hovered: bool,
    pressed: bool,
) -> (c: (Rgba, Rgba))
    ensures
        c.0 == control_fill_of(*palette, is_primary, active, hovered, pressed),
        c.1 == control_icon_color_of(*palette, is_primary, active),
{
    let fill = if is_primary {
        if hovered {
            palette.accent_hover
        } else {
            palette.accent
        }
    } else if active {
        if hovered {
            palette.accent_hover
        } else {
            palette.primary_container
        }
    } else if pressed {
        palette.surface_container_highest
    } else if hovered {
        palette.surface_container_highest
    } else {
        palette.surface_container_high
    };
    let icon_color = if is_primary {
        palette.on_accent
    } else if active {
        palette.on_primary_container
    } else {
        palette.text
    };
    (fill, icon_color)
}

/// The play control (primary) lifts to the hover accent exactly while
/// hovered, whether pressed or not, and is the accent otherwise; its icon is
/// the colour on the accent.  An active toggle is the primary container, the
/// hover accent while hovered, with its icon in the colour on that
/// container; pressing changes neither.  Any other control is the high
/// surface container, the highest one while hovered or pressed, with its
/// icon in the text colour.
pub proof fn lemma_control_colours(p: Palette, is_primary: bool, active: bool, hovered: bool, pressed: bool)
    ensures
        is_primary && hovered ==> control_fill_of(p, is_primary, active, hovered, pressed) == p.accent_hover,
        is_primary && !hovered ==> control_fill_of(p, is_primary, active, hovered, pressed) == p.accent,
        is_primary ==> control_icon_color_of(p, is_primary, active) == p.on_accent,
        is_primary || active ==> control_fill_of(p, is_primary, active, hovered, true)
            == control_fill_of(p, is_primary, active, hovered, false),
        !is_primary && active && hovered ==> control_fill_of(p, is_primary, active, hovered, pressed) == p.accent_hover,
        !is_primary && active && !hovered ==> control_fill_of(p, is_primary, active, hovered, pressed) == p.primary_container,
        !is_primary && active ==> control_icon_color_of(p, is_primary, active) == p.on_primary_container,
        !is_primary && !active ==> control_fill_of(p, is_primary, active, hovered, pressed) == (if hovered || pressed {
            p.surface_container_highest
        } else {
            p.surface_container_high
        }),
        !is_primary && !active ==> control_icon_color_of(p, is_primary, active) == p.text,
{
}

} // verus!
