use fastpotify::player_bar::{
    control_colors, heart_control, repeat_control, volume_icon, volume_tooltip, RepeatMode,
};
use fastpotify::{
    color_text_ok, hex, hex_shadow, palette_from_colours, parse_caelestia_scheme,
    parse_caelestia_scheme_checked, parse_color, parse_color_alpha, ColorScheme, Icon, Palette,
    Rgba,
};

// The dark palette when no Caelestia scheme file is present.
fn dark() -> Palette {
    Palette::dark(None)
}

#[test]
fn color_scheme_default_matches_dark_palette() {
    let scheme = ColorScheme::default_for(&dark());
    let palette = scheme.to_palette(&dark());
    assert_eq!(palette, dark());
}

#[test]
fn color_scheme_from_palette_round_trip() {
    let original = Palette::light();
    let scheme = ColorScheme::from_palette("test", &original);
    assert_eq!(scheme.name, "test");
    assert!(!scheme.dark);
    let restored = scheme.to_palette(&dark());
    assert_eq!(restored, original);
}

#[test]
fn color_scheme_parse_hex_6() {
    let c = parse_color("#1ed760");
    assert_eq!(c, Rgba::from_rgb(0x1e, 0xd7, 0x60));
}

#[test]
fn color_scheme_parse_hex_8() {
    let c = parse_color_alpha("#0000008c");
    assert_eq!(c, Rgba::from_rgba_premultiplied(0, 0, 0, 0x8c));
}

// ---------------------------------------------------------------------------
// Colour texts

#[test]
fn hex_writes_lower_case_without_alpha() {
    assert_eq!(hex(Rgba::from_rgba_premultiplied(0x1e, 0xD7, 0x60, 0x10)), "#1ed760");
    assert_eq!(hex(Rgba::from_rgb(0, 0, 0)), "#000000");
    assert_eq!(hex(Rgba::white()), "#ffffff");
}

#[test]
fn hex_shadow_writes_alpha() {
    assert_eq!(hex_shadow(Rgba::from_black_alpha(140)), "#0000008c");
    assert_eq!(hex_shadow(Rgba::from_rgba_premultiplied(1, 2, 3, 4)), "#01020304");
}

#[test]
fn parse_color_reads_upper_case_and_many_hashes() {
    assert_eq!(parse_color("1ED760"), Rgba::from_rgb(0x1e, 0xd7, 0x60));
    assert_eq!(parse_color("###1ed760"), Rgba::from_rgb(0x1e, 0xd7, 0x60));
}

#[test]
fn parse_color_bad_pairs_read_as_zero_and_alpha_as_255() {
    assert_eq!(parse_color("#zz1234"), Rgba::from_rgb(0, 0x12, 0x34));
    assert_eq!(parse_color("#102030zz"), Rgba::from_rgba_premultiplied(0x10, 0x20, 0x30, 255));
    assert_eq!(parse_color("#zzzzzzzz"), Rgba::from_rgba_premultiplied(0, 0, 0, 255));
}

#[test]
fn parse_color_pairs_may_carry_a_plus_sign() {
    assert_eq!(parse_color("+1+2+3"), Rgba::from_rgb(1, 2, 3));
    assert_eq!(parse_color("++1234"), Rgba::from_rgb(0, 0x12, 0x34));
    assert_eq!(parse_color("-11234"), Rgba::from_rgb(0, 0x12, 0x34));
}

#[test]
fn parse_color_other_lengths_are_black() {
    assert_eq!(parse_color("#12345"), Rgba::black());
    assert_eq!(parse_color(""), Rgba::black());
    assert_eq!(parse_color_alpha("#1234567"), Rgba::black());
    assert_eq!(parse_color_alpha("#123456789"), Rgba::black());
}

#[test]
fn parse_color_and_parse_color_alpha_agree() {
    for text in ["#1ed760", "#0000008c", "12", "#+f+f+f", "#ABCDEF01", "x"] {
        assert_eq!(parse_color(text), parse_color_alpha(text));
    }
}

#[test]
fn color_text_ok_rejects_cuts_inside_characters() {
    assert!(color_text_ok("#1ed760"));
    assert!(color_text_ok("éé12"));
    assert!(!color_text_ok("aé123"));
    assert!(color_text_ok("#1234é12"));
    assert!(!color_text_ok("#12345é1"));
    assert!(color_text_ok("ééééé"));
    assert_eq!(parse_color("éé12"), Rgba::from_rgb(0, 0, 0x12));
}

// ---------------------------------------------------------------------------
// Palettes and schemes

#[test]
fn builtin_palettes() {
    assert!(Palette::default_dark().dark);
    assert!(!Palette::light().dark);
    assert_eq!(Palette::default_dark().window, Rgba::from_rgb(0x0a, 0x0f, 0x0f));
    assert_eq!(Palette::default_dark().shadow, Rgba::from_black_alpha(140));
    assert_eq!(Palette::light().shadow, Rgba::from_black_alpha(40));
    assert_eq!(Palette::light().on_accent, Rgba::white());
}

#[test]
fn dark_prefers_the_scheme_file() {
    assert_eq!(Palette::dark(None), Palette::default_dark());
    let light = Palette::light();
    assert_eq!(Palette::dark(Some(light)), light);
}

#[test]
fn from_palette_writes_hex_texts() {
    let scheme = ColorScheme::from_palette("mine", &Palette::light());
    assert_eq!(scheme.name, "mine");
    assert_eq!(scheme.window, "#f4faf8");
    assert_eq!(scheme.on_accent, "#ffffff");
    assert_eq!(scheme.shadow, "#00000028");
}

#[test]
fn default_scheme_is_dark_and_unnamed() {
    let scheme = ColorScheme::default_for(&Palette::light());
    assert!(scheme.dark);
    assert_eq!(scheme.name, "");
    assert_eq!(scheme.window, "#f4faf8");
}

#[test]
fn dark_palette_round_trip() {
    let original = Palette::default_dark();
    let scheme = ColorScheme::from_palette("d", &original);
    assert_eq!(scheme.to_palette(&Palette::light()), original);
}

#[test]
fn empty_texts_fall_back_to_the_kind_of_the_scheme() {
    let mut scheme = ColorScheme::from_palette("x", &Palette::light());
    scheme.accent = String::new();
    scheme.dark = true;
    let base = Palette::default_dark();
    let p = scheme.to_palette(&base);
    assert!(p.dark);
    assert_eq!(p.accent, base.accent);
    assert_eq!(p.window, Palette::light().window);

    let mut scheme = ColorScheme::from_palette("y", &Palette::default_dark());
    scheme.dark = false;
    scheme.shadow = String::new();
    let p = scheme.to_palette(&base);
    assert_eq!(p.shadow, Palette::light().shadow);
}

#[test]
fn parses_cleanly_checks_every_colour_text() {
    let mut scheme = ColorScheme::from_palette("x", &Palette::light());
    assert!(scheme.parses_cleanly());
    scheme.warning = "aé123".to_string();
    assert!(!scheme.parses_cleanly());
}

// ---------------------------------------------------------------------------
// Caelestia schemes

const CAELESTIA_DARK: &str = r##"{
  "name": "shadotheme",
  "flavour": "default",
  "mode": "dark",
  "variant": "tonalspot",
  "colours": {
    "background": "131313",
    "surfaceContainerLowest": "0e0e0e",
    "surfaceContainerLow": "1c1b1b",
    "surfaceContainer": "201f1f",
    "surfaceContainerHigh": "2a2a2a",
    "surfaceContainerHighest": "353535",
    "onSurface": "e5e2e1",
    "onSurfaceVariant": "c4c7c8",
    "outline": "8e9192",
    "outlineVariant": "444748",
    "primary": "c6c6c7",
    "primaryFixed": "e2e2e2",
    "onPrimary": "2f3131",
    "primaryContainer": "454747",
    "onPrimaryContainer": "e2e2e2",
    "error": "ffb4ab",
    "peach": "fab387",
    "shadow": "000000",
    "term0": 12
  }
}"##;

#[test]
fn caelestia_dark_scheme() {
    let p = parse_caelestia_scheme(CAELESTIA_DARK).unwrap();
    assert!(p.dark);
    assert_eq!(p.window, Rgba::from_rgb(0x13, 0x13, 0x13));
    assert_eq!(p.panel, Rgba::from_rgb(0x1c, 0x1b, 0x1b));
    assert_eq!(p.surface, Rgba::from_rgb(0x20, 0x1f, 0x1f));
    assert_eq!(p.overlay, p.surface);
    assert_eq!(p.surface_hover, Rgba::from_rgb(0x2a, 0x2a, 0x2a));
    assert_eq!(p.surface_active, Rgba::from_rgb(0x35, 0x35, 0x35));
    assert_eq!(p.text, Rgba::from_rgb(0xe5, 0xe2, 0xe1));
    assert_eq!(p.secondary, Rgba::from_rgb(0xc4, 0xc7, 0xc8));
    assert_eq!(p.outline, Rgba::from_rgb(0x8e, 0x91, 0x92));
    assert_eq!(p.dim, p.outline);
    assert_eq!(p.accent, Rgba::from_rgb(0xc6, 0xc6, 0xc7));
    assert_eq!(p.accent_hover, Rgba::from_rgb(0xe2, 0xe2, 0xe2));
    assert_eq!(p.on_accent, Rgba::from_rgb(0x2f, 0x31, 0x31));
    assert_eq!(p.danger, Rgba::from_rgb(0xff, 0xb4, 0xab));
    assert_eq!(p.warning, Rgba::from_rgb(0xfa, 0xb3, 0x87));
    assert_eq!(p.shadow, Rgba::from_rgba_premultiplied(0, 0, 0, 140));
    assert_eq!(p.surface_container_lowest, Rgba::from_rgb(0x0e, 0x0e, 0x0e));
    assert_eq!(p.outline_variant, Rgba::from_rgb(0x44, 0x47, 0x48));
    assert_eq!(p.primary_container, Rgba::from_rgb(0x45, 0x47, 0x47));
}

#[test]
fn caelestia_light_mode_falls_back_to_the_light_palette() {
    let json = r##"{"mode":"light","colours":{"surface":"#fafafa","yellow":"#ffff00","primaryFixedDim":"#010203","shadow":"#112233"}}"##;
    let p = parse_caelestia_scheme(json).unwrap();
    let light = Palette::light();
    assert!(!p.dark);
    assert_eq!(p.window, Rgba::from_rgb(0xfa, 0xfa, 0xfa));
    assert_eq!(p.warning, Rgba::from_rgb(0xff, 0xff, 0x00));
    assert_eq!(p.accent_hover, Rgba::from_rgb(1, 2, 3));
    assert_eq!(p.shadow, Rgba::from_rgba_premultiplied(0x11, 0x22, 0x33, 40));
    assert_eq!(p.accent, light.accent);
    assert_eq!(p.text, light.text);
    assert_eq!(p.surface_container, light.surface_container);
}

#[test]
fn caelestia_missing_colours_fall_back() {
    let p = parse_caelestia_scheme(r#"{"colours":{}}"#).unwrap();
    assert_eq!(p, Palette::default_dark());
    let p = parse_caelestia_scheme(r#"{"mode":"sepia","colours":{"primary":5}}"#).unwrap();
    assert_eq!(p, Palette::default_dark());
    let p = parse_caelestia_scheme(r#"{"mode":7,"colours":{"background":null}}"#).unwrap();
    assert!(p.dark);
}

#[test]
fn caelestia_without_colours_is_none() {
    assert_eq!(parse_caelestia_scheme(""), None);
    assert_eq!(parse_caelestia_scheme("not json"), None);
    assert_eq!(parse_caelestia_scheme("[1, 2]"), None);
    assert_eq!(parse_caelestia_scheme(r#"{"mode":"dark"}"#), None);
    assert_eq!(parse_caelestia_scheme(r#"{"colours":"131313"}"#), None);
    assert_eq!(parse_caelestia_scheme(r#"{"colours":{}} trailing"#), None);
}

#[test]
fn caelestia_checked() {
    assert_eq!(
        parse_caelestia_scheme_checked(CAELESTIA_DARK),
        Some(parse_caelestia_scheme(CAELESTIA_DARK))
    );
    assert_eq!(parse_caelestia_scheme_checked("nope"), Some(None));
    // A cut inside "é" where the original would panic.
    assert_eq!(parse_caelestia_scheme_checked(r#"{"colours":{"primary":"aé123"}}"#), None);
    // The same text under a role nothing reads does no harm.
    assert_eq!(
        parse_caelestia_scheme_checked(r#"{"colours":{"unused":"aé123"}}"#),
        Some(Some(Palette::default_dark()))
    );
    // `surface` is only read without a `background`.
    assert!(parse_caelestia_scheme_checked(r#"{"colours":{"background":"000000","surface":"aé123"}}"#)
        .is_some());
    assert_eq!(
        parse_caelestia_scheme_checked(r#"{"colours":{"surface":"aé123"}}"#),
        None
    );
}

#[test]
fn palette_from_colour_table() {
    let table = vec![
        ("background".to_string(), None),
        ("surface".to_string(), Some("#0a0b0c".to_string())),
        ("shadow".to_string(), Some("#ffffff".to_string())),
        ("primary".to_string(), Some("#010101".to_string())),
        ("primary".to_string(), Some("#020202".to_string())),
    ];
    let p = palette_from_colours(true, &table);
    assert_eq!(p.window, Rgba::from_rgb(0x0a, 0x0b, 0x0c));
    assert_eq!(p.shadow, Rgba::from_rgba_premultiplied(255, 255, 255, 140));
    assert_eq!(p.accent, Rgba::from_rgb(1, 1, 1));
    assert_eq!(p.text, Palette::default_dark().text);
}

// ---------------------------------------------------------------------------
// Icons

#[test]
fn icon_uris() {
    assert_eq!(Icon::ArrowLeft.uri(), "bytes://fastpotify-icon-arrow-left.svg");
    assert_eq!(Icon::Disc.uri(), "bytes://fastpotify-icon-disc-3.svg");
    assert_eq!(Icon::Trash.uri(), "bytes://fastpotify-icon-trash-2.svg");
    assert_eq!(Icon::Zap.uri(), "bytes://fastpotify-icon-zap.svg");
}

#[test]
fn icon_glyphs() {
    assert_eq!(Icon::ArrowLeft.symbol_glyph(), "\u{e5c4}");
    assert_eq!(Icon::Play.symbol_glyph(), Icon::PlayFilled.symbol_glyph());
    assert_eq!(Icon::Play.symbol_glyph(), "\u{e037}");
    assert_eq!(Icon::Zap.symbol_glyph().chars().count(), 1);
}

// ---------------------------------------------------------------------------
// The now-playing bar's controls

#[test]
fn repeat_controls() {
    assert_eq!(repeat_control(RepeatMode::Off), (Icon::Repeat, false, "Repeat"));
    assert_eq!(repeat_control(RepeatMode::Context), (Icon::Repeat, true, "Repeat one"));
    assert_eq!(repeat_control(RepeatMode::Track), (Icon::Repeat1, true, "Repeat off"));
}

#[test]
fn volume_icons() {
    assert_eq!(volume_icon(0), Icon::VolumeX);
    assert_eq!(volume_icon(1), Icon::Volume);
    assert_eq!(volume_icon(33), Icon::Volume);
    assert_eq!(volume_icon(34), Icon::Volume1);
    assert_eq!(volume_icon(66), Icon::Volume1);
    assert_eq!(volume_icon(67), Icon::Volume2);
    assert_eq!(volume_icon(255), Icon::Volume2);
    assert_eq!(volume_tooltip(0), "Unmute");
    assert_eq!(volume_tooltip(50), "Mute");
}

#[test]
fn heart_controls() {
    let p = Palette::default_dark();
    assert_eq!(heart_control(true, &p), (Icon::HeartFilled, p.accent, "Remove from Liked Songs"));
    assert_eq!(heart_control(false, &p), (Icon::Heart, p.secondary, "Save to Liked Songs"));
}

#[test]
fn transport_control_colours() {
    let p = Palette::light();
    assert_eq!(control_colors(&p, true, false, false, false), (p.accent, p.on_accent));
    assert_eq!(control_colors(&p, true, true, true, true), (p.accent_hover, p.on_accent));
    assert_eq!(control_colors(&p, false, true, false, true), (p.primary_container, p.on_primary_container));
    assert_eq!(control_colors(&p, false, true, true, false), (p.accent_hover, p.on_primary_container));
    assert_eq!(control_colors(&p, false, false, false, true), (p.surface_container_highest, p.text));
    assert_eq!(control_colors(&p, false, false, true, false), (p.surface_container_highest, p.text));
    assert_eq!(control_colors(&p, false, false, false, false), (p.surface_container_high, p.text));
}
