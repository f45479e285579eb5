//! Caelestia's colour scheme files (`~/.local/state/caelestia/scheme.json`):
//! a JSON object with a `"mode"` (`"dark"` or `"light"`) and a `"colours"`
//! object of Material 3 colour roles, each a hexadecimal text.

use vstd::prelude::*;

use crate::color::{color_of_text, color_text_ok, color_text_reads, parse_color, Rgba};
use crate::json::{json_node_of, members_view, parse_json_node, JsonNode, JsonNodeView};
use crate::palette::Palette;
use crate::text::str_equal;

verus! {

/// The value stored under `key`, taking the first member with that key.
pub open spec fn member<V>(entries: Seq<(Seq<char>, V)>, key: Seq<char>) -> Option<V>
    decreases entries.len(),
{
    if entries.len() == 0 {
        None
    } else if entries[0].0 == key {
        Some(entries[0].1)
    } else {
        member(entries.drop_first(), key)
    }
}

/// The string that a JSON text holds, if it holds a string.
pub open spec fn json_string(text: Seq<char>) -> Option<Seq<char>> {
    match json_node_of(text) {
        Some(JsonNodeView::Text(s)) => Some(s),
        _ => None,
    }
}

/// A colour table: each colour role with its text, where its value is a
/// JSON string.
pub open spec fn colour_table(members: Seq<(Seq<char>, Seq<char>)>) -> Seq<(Seq<char>, Option<Seq<char>>)> {
    members.map_values(|m: (Seq<char>, Seq<char>)| (m.0, json_string(m.1)))
}

pub open spec fn table_view(colours: Seq<(String, Option<String>)>) -> Seq<(Seq<char>, Option<Seq<char>>)> {
    colours.map_values(
        |e: (String, Option<String>)|
            (
                e.0@,
                match e.1 {
                    Some(s) => Some(s@),
                    None => None,
                },
            ),
    )
}

/// Every mode but `"light"` is dark, and so is a file without a mode.
pub open spec fn dark_mode(root: Seq<(Seq<char>, Seq<char>)>) -> bool {
    match member(root, "mode"@) {
        Some(t) => match json_string(t) {
            Some(m) => m != "light"@,
            None => true,
        },
        None => true,
    }
}

/// What a scheme file says: whether it is dark, and its colour table.
/// `None` where the text is not JSON, is not an object, or has no
/// `"colours"` object.
pub open spec fn scheme_document(text: Seq<char>) -> Option<(bool, Seq<(Seq<char>, Option<Seq<char>>)>)> {
    match json_node_of(text) {
        Some(JsonNodeView::Object(root)) => match member(root, "colours"@) {
            Some(ct) => match json_node_of(ct) {
                Some(JsonNodeView::Object(c)) => Some((dark_mode(root), colour_table(c))),
                _ => None,
            },
            None => None,
        },
        _ => None,
    }
}

/// The text of a colour role, where its value is a string.
pub open spec fn colour_text(c: Seq<(Seq<char>, Option<Seq<char>>)>, key: Seq<char>) -> Option<Seq<char>> {
    match member(c, key) {
        Some(Some(s)) => Some(s),
        _ => None,
    }
}

pub open spec fn colour(c: Seq<(Seq<char>, Option<Seq<char>>)>, key: Seq<char>) -> Option<Rgba> {
    match colour_text(c, key) {
        Some(s) => Some(color_of_text(s)),
        None => None,
    }
}

pub open spec fn colour_or(c: Seq<(Seq<char>, Option<Seq<char>>)>, key: Seq<char>, fallback: Rgba) -> Rgba {
    match colour(c, key) {
        Some(x) => x,
        None => fallback,
    }
}

/// The palette of a colour table.  Each colour comes from its Material 3
/// role, the window from `background` or else `surface`, the hover accent
/// from `primaryFixed` or else `primaryFixedDim`, the warning from `peach`
/// or else `yellow`; the shadow keeps the colour of `shadow` at alpha 140
/// (dark) or 40 (light).  A missing role falls back to the built-in palette
/// of the same kind.
pub open spec fn palette_of_colours(dark: bool, c: Seq<(Seq<char>, Option<Seq<char>>)>) -> Palette {
    let fb = if dark {
        Palette::dark_defaults()
    } else {
        Palette::light_defaults()
    };
    let bg = match colour(c, "background"@) {
        Some(x) => x,
        None => colour_or(c, "surface"@, fb.window),
    };
    let s_lowest = colour_or(c, "surfaceContainerLowest"@, fb.surface_container_lowest);
    let s_low = colour_or(c, "surfaceContainerLow"@, fb.surface_container_low);
    let s_base = colour_or(c, "surfaceContainer"@, fb.surface_container);
    let s_high = colour_or(c, "surfaceContainerHigh"@, fb.surface_container_high);
    let s_highest = colour_or(c, "surfaceContainerHighest"@, fb.surface_container_highest);
    let on_surf = colour_or(c, "onSurface"@, fb.text);
    let on_surf_var = colour_or(c, "onSurfaceVariant"@, fb.secondary);
    let outline = colour_or(c, "outline"@, fb.dim);
    let outline_var = colour_or(c, "outlineVariant"@, fb.outline_variant);
    let primary = colour_or(c, "primary"@, fb.accent);
    let prim_fixed = match colour(c, "primaryFixed"@) {
        Some(x) => x,
        None => colour_or(c, "primaryFixedDim"@, fb.accent_hover),
    };
    let on_primary = colour_or(c, "onPrimary"@, fb.on_accent);
    let prim_cont = colour_or(c, "primaryContainer"@, fb.primary_container);
    let on_prim_cont = colour_or(c, "onPrimaryContainer"@, fb.on_primary_container);
    let error = colour_or(c, "error"@, fb.danger);
    let warning = match colour(c, "peach"@) {
        Some(x) => x,
        None => colour_or(c, "yellow"@, fb.warning),
    };
    let shadow = match colour(c, "shadow"@) {
        Some(x) => Rgba { r: x.r, g: x.g, b: x.b, a: if dark { 140 } else { 40 } },
        None => fb.shadow,
    };
    Palette {
        dark,
        window: bg,
        panel: s_low,
        surface: s_base,
        surface_hover: s_high,
        surface_active: s_highest,
        outline,
        text: on_surf,
        secondary: on_surf_var,
        dim: outline,
        accent: primary,
        accent_hover: prim_fixed,
        on_accent: on_primary,
        danger: error,
        warning,
        overlay: s_base,
        shadow,
        surface_container_lowest: s_lowest,
        surface_container_low: s_low,
        surface_container: s_base,
        surface_container_high: s_high,
        surface_container_highest: s_highest,
        primary_container: prim_cont,
        on_primary_container: on_prim_cont,
        outline_variant: outline_var,
    }
}

pub open spec fn reads_at(c: Seq<(Seq<char>, Option<Seq<char>>)>, key: Seq<char>) -> bool {
    match colour_text(c, key) {
        Some(s) => color_text_reads(s),
        None => true,
    }
}

/// Every colour text that building the palette reads can be read without
/// panicking.
pub open spec fn colours_read(c: Seq<(Seq<char>, Option<Seq<char>>)>) -> bool {
    &&& reads_at(c, "background"@)
    &&& colour_text(c, "background"@) is None ==> reads_at(c, "surface"@)
    &&& reads_at(c, "surfaceContainerLowest"@)
    &&& reads_at(c, "surfaceContainerLow"@)
    &&& reads_at(c, "surfaceContainer"@)
    &&& reads_at(c, "surfaceContainerHigh"@)
    &&& reads_at(c, "surfaceContainerHighest"@)
    &&& reads_at(c, "onSurface"@)
    &&& reads_at(c, "onSurfaceVariant"@)
    &&& reads_at(c, "outline"@)
    &&& reads_at(c, "outlineVariant"@)
    &&& reads_at(c, "primary"@)
    &&& reads_at(c, "primaryFixed"@)
    &&& colour_text(c, "primaryFixed"@) is None ==> reads_at(c, "primaryFixedDim"@)
    &&& reads_at(c, "onPrimary"@)
    &&& reads_at(c, "primaryContainer"@)
    &&& reads_at(c, "onPrimaryContainer"@)
    &&& reads_at(c, "error"@)
    &&& reads_at(c, "peach"@)
    &&& colour_text(c, "peach"@) is None ==> reads_at(c, "yellow"@)
    &&& reads_at(c, "shadow"@)
}

/// The palette of a scheme file, where it has one.
pub open spec fn caelestia_palette(text: Seq<char>) -> Option<Palette> {
    match scheme_document(text) {
        Some((dark, c)) => Some(palette_of_colours(dark, c)),
        None => None,
    }
}

/// Reading the scheme file does not panic.
pub open spec fn scheme_reads(text: Seq<char>) -> bool {
    match scheme_document(text) {
        Some((_, c)) => colours_read(c),
        None => true,
    }
}

/// The position of the first member with the given key.
fn find_member(members: &Vec<(String, String)>, key: &str) -> (i: Option<usize>)
    ensures
        match i {
            Some(i) => i < members@.len() && member(members_view(members@), key@) == Some(
                members@[i as int].1@,
            ),
            None => member(members_view(members@), key@) is None,
        },
{
    let ghost all = members_view(members@);
    let mut i: usize = 0;
    assert(all.subrange(0, all.len() as int) =~= all);
    while i < members.len()
        invariant
            i <= members@.len(),
            all == members_view(members@),
            member(all, key@) == member(all.subrange(i as int, all.len() as int), key@),
        decreases members@.len() - i,
    {
        if str_equal(members[i].0.as_str(), key) {
            return Some(i);
        }
        assert(all.subrange(i as int, all.len() as int).drop_first() =~= all.subrange(
            i + 1,
            all.len() as int,
        ));
        i = i + 1;
    }
    None
}

/// The position of the first colour role with the given key.
fn find_role(colours: &Vec<(String, Option<String>)>, key: &str) -> (i: Option<usize>)
    ensures
        match i {
            Some(i) => i < colours@.len() && member(table_view(colours@), key@) == Some(
                table_view(colours@)[i as int].1,
            ),
            None => member(table_view(colours@), key@) is None,
        },
{
    let ghost all = table_view(colours@);
    let mut i: usize = 0;
    assert(all.subrange(0, all.len() as int) =~= all);
    while i < colours.len()
        invariant
            i <= colours@.len(),
            all == table_view(colours@),
            member(all, key@) == member(all.subrange(i as int, all.len() as int), key@),
        decreases colours@.len() - i,
    {
        if str_equal(colours[i].0.as_str(), key) {
            return Some(i);
        }
        assert(all.subrange(i as int, all.len() as int).drop_first() =~= all.subrange(
            i + 1,
            all.len() as int,
        ));
        i = i + 1;
    }
    None
}

/// The colour of a role, where its value is a string.
fn find_colour(colours: &Vec<(String, Option<String>)>, key: &str) -> (x: Option<Rgba>)
    requires
        reads_at(table_view(colours@), key@),
    ensures
        x == colour(table_view(colours@), key@),
{
    match find_role(colours, key) {
        Some(i) => match &colours[i].1 {
            Some(s) => Some(parse_color(s.as_str())),
            None => None,
        },
        None => None,
    }
}

fn text_reads_at(colours: &Vec<(String, Option<String>)>, key: &str) -> (ok: bool)
    ensures
        ok == reads_at(table_view(colours@), key@),
{
    match find_role(colours, key) {
        Some(i) => match &colours[i].1 {
            Some(s) => color_text_ok(s.as_str()),
            None => true,
        },
        None => true,
    }
}

fn has_text(colours: &Vec<(String, Option<String>)>, key: &str) -> (has: bool)
    ensures
        has == (colour_text(table_view(colours@), key@) is Some),
{
    match find_role(colours, key) {
        Some(i) => colours[i].1.is_some(),
        None => false,
    }
}

/// Builds the palette of a colour table: see [`palette_of_colours`].
pub fn palette_from_colours(dark: bool, colours: &Vec<(String, Option<String>)>) -> (p: Palette)
    requires
        colours_read(table_view(colours@)),
    ensures
        p == palette_of_colours(dark, table_view(colours@)),
{
    let fb = if dark {
        Palette::default_dark()
    } else {
        Palette::light()
    };
    let bg = match find_colour(colours, "background") {
        Some(x) => x,
        None => match find_colour(colours, "surface") {
            Some(x) => x,
            None => fb.window,
        },
    };
    let s_lowest = match find_colour(colours, "surfaceContainerLowest") {
        Some(x) => x,
        None => fb.surface_container_lowest,
    };
    let s_low = match find_colour(colours, "surfaceContainerLow") {
        Some(x) => x,
        None => fb.surface_container_low,
    };
    let s_base = match find_colour(colours, "surfaceContainer") {
        Some(x) => x,
        None => fb.surface_container,
    };
    let s_high = match find_colour(colours, "surfaceContainerHigh") {
        Some(x) => x,
        None => fb.surface_container_high,
    };
    let s_highest = match find_colour(colours, "surfaceContainerHighest") {
        Some(x) => x,
        None => fb.surface_container_highest,
    };
    let on_surf = match find_colour(colours, "onSurface") {
        Some(x) => x,
        None => fb.text,
    };
    let on_surf_var = match find_colour(colours, "onSurfaceVariant") {
        Some(x) => x,
        None => fb.secondary,
    };
    let outline = match find_colour(colours, "outline") {
        Some(x) => x,
        None => fb.dim,
    };
    let outline_var = match find_colour(colours, "outlineVariant") {
        Some(x) => x,
        None => fb.outline_variant,
    };
    let primary = match find_colour(colours, "primary") {
        Some(x) => x,
        None => fb.accent,
    };
    let prim_fixed = match find_colour(colours, "primaryFixed") {
        Some(x) => x,
        None => match find_colour(colours, "primaryFixedDim") {
            Some(x) => x,
            None => fb.accent_hover,
        },
    };
    let on_primary = match find_colour(colours, "onPrimary") {
        Some(x) => x,
        None => fb.on_accent,
    };
    let prim_cont = match find_colour(colours, "primaryContainer") {
        Some(x) => x,
        None => fb.primary_container,
    };
    let on_prim_cont = match find_colour(colours, "onPrimaryContainer") {
        Some(x) => x,
        None => fb.on_primary_container,
    };
    let error = match find_colour(colours, "error") {
        Some(x) => x,
        None => fb.danger,
    };
    let warning = match find_colour(colours, "peach") {
        Some(x) => x,
        None => match find_colour(colours, "yellow") {
            Some(x) => x,
            None => fb.warning,
        },
    };
    let shadow = match find_colour(colours, "shadow") {
        Some(x) => Rgba::from_rgba_premultiplied(x.r, x.g, x.b, if dark { 140 } else { 40 }),
        None => fb.shadow,
    };
    Palette {
        dark,
        window: bg,
        panel: s_low,
        surface: s_base,
        surface_hover: s_high,
        surface_active: s_highest,
        outline,
        text: on_surf,
        secondary: on_surf_var,
        dim: outline,
        accent: primary,
        accent_hover: prim_fixed,
        on_accent: on_primary,
        danger: error,
        warning,
        overlay: s_base,
        shadow,
        surface_container_lowest: s_lowest,
        surface_container_low: s_low,
        surface_container: s_base,
        surface_container_high: s_high,
        surface_container_highest: s_highest,
        primary_container: prim_cont,
        on_primary_container: on_prim_cont,
        outline_variant: outline_var,
    }
}

/// Whether every colour text that building the palette reads can be read.
pub fn colours_parse_cleanly(colours: &Vec<(String, Option<String>)>) -> (ok: bool)
    ensures
        ok == colours_read(table_view(colours@)),
{
    text_reads_at(colours, "background")
        && (has_text(colours, "background") || text_reads_at(colours, "surface"))
        && text_reads_at(colours, "surfaceContainerLowest")
        && text_reads_at(colours, "surfaceContainerLow")
        && text_reads_at(colours, "surfaceContainer")
        && text_reads_at(colours, "surfaceContainerHigh")
        && text_reads_at(colours, "surfaceContainerHighest")
        && text_reads_at(colours, "onSurface")
        && text_reads_at(colours, "onSurfaceVariant")
        && text_reads_at(colours, "outline")
        && text_reads_at(colours, "outlineVariant")
        && text_reads_at(colours, "primary")
        && text_reads_at(colours, "primaryFixed")
        && (has_text(colours, "primaryFixed") || text_reads_at(colours, "primaryFixedDim"))
        && text_reads_at(colours, "onPrimary")
        && text_reads_at(colours, "primaryContainer")
        && text_reads_at(colours, "onPrimaryContainer")
        && text_reads_at(colours, "error")
        && text_reads_at(colours, "peach")
        && (has_text(colours, "peach") || text_reads_at(colours, "yellow"))
        && text_reads_at(colours, "shadow")
}

/// Reads what a scheme file says: see [`scheme_document`].
fn read_scheme_document(json: &str) -> (d: Option<(bool, Vec<(String, Option<String>)>)>)
    ensures
        match d {
            Some((dark, c)) => scheme_document(json@) == Some((dark, table_view(c@))),
            None => scheme_document(json@) is None,
        },
{
    let root = match parse_json_node(json) {
        Some(JsonNode::Object(m)) => m,
        _ => return None,
    };
    let dark = match find_member(&root, "mode") {
        Some(i) => match parse_json_node(root[i].1.as_str()) {
            Some(JsonNode::Text(m)) => !str_equal(m.as_str(), "light"),
            _ => true,
        },
        None => true,
    };
    let members = match find_member(&root, "colours") {
        Some(i) => match parse_json_node(root[i].1.as_str()) {
            Some(JsonNode::Object(c)) => c,
            _ => return None,
        },
        None => return None,
    };
    let mut table: Vec<(String, Option<String>)> = Vec::new();
    let mut j: usize = 0;
    while j < members.len()
        invariant
            j <= members@.len(),
            table@.len() == j,
            forall|k: int| 0 <= k < j ==> table_view(table@)[k] == colour_table(members_view(members@))[k],
        decreases members@.len() - j,
    {
        let node = parse_json_node(members[j].1.as_str());
        let text = match node {
            Some(JsonNode::Text(s)) => Some(s),
            _ => None,
        };
        let ghost text_view = match &text {
            Some(s) => Some(s@),
            None => None,
        };
        assert(text_view == json_string(members@[j as int].1@));
        let ghost before = table@;
        table.push((members[j].0.clone(), text));
        assert(table_view(table@)[j as int] == colour_table(members_view(members@))[j as int]);
        assert forall|k: int| 0 <= k < j + 1 implies table_view(table@)[k] == colour_table(
            members_view(members@),
        )[k] by {
            if k < j {
                assert(table@[k] == before[k]);
                assert(table_view(before)[k] == colour_table(members_view(members@))[k]);
            }
        }
        j = j + 1;
    }
    assert(table_view(table@) =~= colour_table(members_view(members@)));
    Some((dark, table))
}

/// Parse Caelestia scheme JSON (`~/.local/state/caelestia/scheme.json`).
pub fn parse_caelestia_scheme(json: &str) -> (p: Option<Palette>)
    requires
        scheme_reads(json@),
    ensures
        p == caelestia_palette(json@),
{
    match read_scheme_document(json) {
        Some((dark, table)) => Some(palette_from_colours(dark, &table)),
        None => None,
    }
}

/// [`parse_caelestia_scheme`] where it would not panic: `None` where a
/// colour text it reads would be cut inside a character.
pub fn parse_caelestia_scheme_checked(json: &str) -> (p: Option<Option<Palette>>)
    ensures
        p == (if scheme_reads(json@) {
            Some(caelestia_palette(json@))
        } else {
            None
        }),
{
    if let Some((_, table)) = read_scheme_document(json) {
        if !colours_parse_cleanly(&table) {
            return None;
        }
    }
    Some(parse_caelestia_scheme(json))
}

/// The palette of a Caelestia colour table is of the table's kind, and its
/// shadow is at alpha 140 when dark and 40 when light, whether the table
/// gives a `shadow` colour or not.
pub proof fn lemma_caelestia_kind_and_shadow(dark: bool, c: Seq<(Seq<char>, Option<Seq<char>>)>)
    ensures
        palette_of_colours(dark, c).dark == dark,
        palette_of_colours(dark, c).shadow.a == (if dark {
            140u8
        } else {
            40u8
        }),
{
}

/// `field` is the colour that the text of role `key` reads as, where that
/// role holds a text, and `fallback` otherwise.
pub open spec fn read_from_role(
    c: Seq<(Seq<char>, Option<Seq<char>>)>,
    key: Seq<char>,
    field: Rgba,
    fallback: Rgba,
) -> bool {
    match colour_text(c, key) {
        Some(t) => field == color_of_text(t),
        None => field == fallback,
    }
}

/// `field` is read from role `first`, or where that role holds no text, from
/// role `second`, or else is `fallback`.
pub open spec fn read_from_roles(
    c: Seq<(Seq<char>, Option<Seq<char>>)>,
    first: Seq<char>,
    second: Seq<char>,
    field: Rgba,
    fallback: Rgba,
) -> bool {
    match colour_text(c, first) {
        Some(t) => field == color_of_text(t),
        None => read_from_role(c, second, field, fallback),
    }
}

/// The shadow keeps the colour channels of the `shadow` role at the given
/// alpha, or is `fallback` where the role holds no text.
pub open spec fn shadow_from_role(
    c: Seq<(Seq<char>, Option<Seq<char>>)>,
    field: Rgba,
    alpha: u8,
    fallback: Rgba,
) -> bool {
    match colour_text(c, "shadow"@) {
        Some(t) => field.r == color_of_text(t).r && field.g == color_of_text(t).g
            && field.b == color_of_text(t).b && field.a == alpha,
        None => field == fallback,
    }
}

/// Each colour of a Caelestia palette is read from its own Material 3 role:
/// the window from `background` (else `surface`), the panel from
/// `surfaceContainerLow`, the surface and overlay from `surfaceContainer`,
/// hover and active surfaces from `surfaceContainerHigh` and
/// `surfaceContainerHighest`, text from `onSurface`, secondary text from
/// `onSurfaceVariant`, outline and dim from `outline`, the accent from
/// `primary`, its hover from `primaryFixed` (else `primaryFixedDim`), text on
/// it from `onPrimary`, danger from `error`, warning from `peach` (else
/// `yellow`), and the containers, `primaryContainer`, `onPrimaryContainer`
/// and `outlineVariant` from the roles of those names.  A role without a text
/// leaves the colour of the built-in palette of the same kind.
pub proof fn lemma_caelestia_colours_from_roles(dark: bool, c: Seq<(Seq<char>, Option<Seq<char>>)>)
    ensures
        ({
            let p = palette_of_colours(dark, c);
            let fb = if dark {
                Palette::dark_defaults()
            } else {
                Palette::light_defaults()
            };
            &&& p.dark == dark
            &&& read_from_roles(c, "background"@, "surface"@, p.window, fb.window)
            &&& read_from_role(c, "surfaceContainerLow"@, p.panel, fb.surface_container_low)
            &&& read_from_role(c, "surfaceContainer"@, p.surface, fb.surface_container)
            &&& read_from_role(c, "surfaceContainerHigh"@, p.surface_hover, fb.surface_container_high)
            &&& read_from_role(c, "surfaceContainerHighest"@, p.surface_active, fb.surface_container_highest)
            &&& read_from_role(c, "outline"@, p.outline, fb.dim)
            &&& read_from_role(c, "onSurface"@, p.text, fb.text)
            &&& read_from_role(c, "onSurfaceVariant"@, p.secondary, fb.secondary)
            &&& read_from_role(c, "outline"@, p.dim, fb.dim)
            &&& read_from_role(c, "primary"@, p.accent, fb.accent)
            &&& read_from_roles(c, "primaryFixed"@, "primaryFixedDim"@, p.accent_hover, fb.accent_hover)
            &&& read_from_role(c, "onPrimary"@, p.on_accent, fb.on_accent)
            &&& read_from_role(c, "error"@, p.danger, fb.danger)
            &&& read_from_roles(c, "peach"@, "yellow"@, p.warning, fb.warning)
            &&& read_from_role(c, "surfaceContainer"@, p.overlay, fb.surface_container)
            &&& shadow_from_role(c, p.shadow, if dark { 140u8 } else { 40u8 }, fb.shadow)
            &&& read_from_role(c, "surfaceContainerLowest"@, p.surface_container_lowest, fb.surface_container_lowest)
            &&& read_from_role(c, "surfaceContainerLow"@, p.surface_container_low, fb.surface_container_low)
            &&& read_from_role(c, "surfaceContainer"@, p.surface_container, fb.surface_container)
            &&& read_from_role(c, "surfaceContainerHigh"@, p.surface_container_high, fb.surface_container_high)
            &&& read_from_role(c, "surfaceContainerHighest"@, p.surface_container_highest, fb.surface_container_highest)
            &&& read_from_role(c, "primaryContainer"@, p.primary_container, fb.primary_container)
            &&& read_from_role(c, "onPrimaryContainer"@, p.on_primary_container, fb.on_primary_container)
            &&& read_from_role(c, "outlineVariant"@, p.outline_variant, fb.outline_variant)
        }),
{
}

/// A scheme is light exactly when its `"mode"` member holds the string
/// `"light"`; any other mode, a mode that is not a string, or no mode at all
/// is dark.
pub proof fn lemma_mode(root: Seq<(Seq<char>, Seq<char>)>)
    ensures
        !dark_mode(root) <==> (exists|t: Seq<char>|
            member(root, "mode"@) == Some(t) && #[trigger] json_string(t) == Some("light"@)),
{
    if !dark_mode(root) {
        let t = member(root, "mode"@)->0;
        assert(json_string(t) == Some("light"@));
    }
}

/// A scheme file is read exactly when it is a JSON object whose `"colours"`
/// member is an object; the table then lists that object's members in order,
/// each with its string where it holds one.
pub proof fn lemma_scheme_document(text: Seq<char>)
    ensures
        scheme_document(text) is Some <==> (json_node_of(text) matches Some(
            JsonNodeView::Object(root),
        ) && member(root, "colours"@) matches Some(ct) && json_node_of(ct) matches Some(
            JsonNodeView::Object(_),
        )),
        scheme_document(text) is Some ==> ({
            let table = (scheme_document(text)->0).1;
            let root = json_node_of(text)->Some_0->Object_0;
            let cm = json_node_of(member(root, "colours"@)->0)->Some_0->Object_0;
            &&& table.len() == cm.len()
            &&& forall|i: int| 0 <= i < cm.len() ==> (#[trigger] table[i]).0 == cm[i].0 && table[i].1 == json_string(cm[i].1)
        }),
{
    if scheme_document(text) is Some {
        let root = json_node_of(text)->Some_0->Object_0;
        let ct = member(root, "colours"@)->0;
        let cm = json_node_of(ct)->Some_0->Object_0;
        assert(json_node_of(ct) == Some(JsonNodeView::Object(cm)));
    }
}

} // verus!
