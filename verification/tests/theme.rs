use airgradient_desktop::theme::{
    at_index, find, index_of, names, themes, Rgb, Variant, DEFAULT_THEME_ID, THEME_COUNT,
    WHITE_LUMA,
};

/// Perceived brightness from 0 (black) to 1 (white).
fn brightness(color: Rgb) -> f64 {
    f64::from(color.luma()) / f64::from(WHITE_LUMA)
}

#[test]
fn ships_at_least_forty_themes() {
    let all = themes();
    assert!(all.len() >= 40, "expected 40+ themes, found {}", all.len());
    assert_eq!(all.len(), THEME_COUNT);
}

#[test]
fn the_dropdown_has_three_toolkit_entries_and_fifty_four_named_themes() {
    let names = names();
    assert_eq!(names.len(), 57);
    assert_eq!(&names[..3], &["System Default", "Adwaita Light", "Adwaita Dark"]);
    let palettes = themes().iter().filter(|theme| theme.palette.is_some()).count();
    assert_eq!(palettes, 54);
}

#[test]
fn theme_ids_are_unique() {
    let mut ids: Vec<&str> = themes().iter().map(|theme| theme.id).collect();
    ids.sort_unstable();
    let count = ids.len();
    ids.dedup();

    assert_eq!(ids.len(), count, "duplicate theme id");
}

#[test]
fn theme_names_are_unique() {
    let mut names = names();
    names.sort_unstable();
    let count = names.len();
    names.dedup();

    assert_eq!(names.len(), count, "duplicate theme name");
}

#[test]
fn default_theme_follows_the_system_and_has_no_palette() {
    let theme = find(DEFAULT_THEME_ID);

    assert_eq!(theme.variant, Variant::System);
    assert!(theme.palette.is_none());
    assert!(theme.css().is_none());
}

#[test]
fn unknown_id_falls_back_to_default() {
    assert_eq!(find("no-such-theme").id, DEFAULT_THEME_ID);
}

#[test]
fn dropdown_index_round_trips() {
    for theme in themes() {
        assert_eq!(at_index(index_of(theme.id)).id, theme.id);
    }
}

#[test]
fn every_palette_theme_defines_the_libadwaita_colors() {
    for theme in themes().iter().filter(|theme| theme.palette.is_some()) {
        let css = theme.css().expect("palette themes produce css");

        for name in [
            "window_bg_color",
            "window_fg_color",
            "headerbar_bg_color",
            "card_bg_color",
            "popover_bg_color",
            "accent_bg_color",
            "accent_fg_color",
            "accent_color",
        ] {
            assert!(
                css.contains(&format!("@define-color {name} #")),
                "{} is missing {name}",
                theme.id
            );
        }
    }
}

#[test]
fn palette_backgrounds_match_the_declared_variant() {
    for theme in themes() {
        let Some(palette) = theme.palette else {
            continue;
        };

        match theme.variant {
            Variant::Dark => assert!(
                brightness(palette.background) < 0.5,
                "{} is declared dark but has a light background",
                theme.id
            ),
            Variant::Light => assert!(
                brightness(palette.background) > 0.5,
                "{} is declared light but has a dark background",
                theme.id
            ),
            Variant::System => panic!("{} should not carry a palette", theme.id),
        }
    }
}

#[test]
fn foreground_contrasts_with_background() {
    for theme in themes() {
        let Some(palette) = theme.palette else {
            continue;
        };
        let contrast = (brightness(palette.background) - brightness(palette.foreground)).abs();

        assert!(
            contrast > 0.3,
            "{} has too little contrast ({contrast:.2})",
            theme.id
        );
    }
}

#[test]
fn text_on_accent_is_readable() {
    for theme in themes() {
        let Some(palette) = theme.palette else {
            continue;
        };
        let on_accent = palette.accent.readable_text();
        let contrast = (brightness(palette.accent) - brightness(on_accent)).abs();

        assert!(
            contrast > 0.4,
            "{} accent text contrast is only {contrast:.2}",
            theme.id
        );
    }
}

#[test]
fn the_airgradient_themes_use_the_brand_blue() {
    let light = find("airgradient").palette.expect("light palette");
    assert_eq!(light.accent.to_css(), "#1c75bc");

    let dark = find("airgradient-dark").palette.expect("dark palette");
    assert_eq!(dark.background.to_css(), "#0f172a");
}

#[test]
fn hex_parsing_and_formatting_round_trip() {
    assert_eq!(Rgb::hex(0x1e1e2e).to_css(), "#1e1e2e");
    assert_eq!(Rgb::hex(0xffffff).to_css(), "#ffffff");
    assert_eq!(Rgb::hex(0x000000).to_css(), "#000000");
}

#[test]
fn mixing_moves_towards_the_other_color() {
    let black = Rgb::hex(0x000000);
    let white = Rgb::hex(0xffffff);

    assert_eq!(black.mix(white, 0), black);
    assert_eq!(black.mix(white, 1000), white);
    assert_eq!(black.mix(white, 500).to_css(), "#808080");
}

#[test]
fn mixing_past_the_other_colour_stops_there() {
    let black = Rgb::hex(0x000000);
    let white = Rgb::hex(0xffffff);

    assert_eq!(black.mix(white, 4000), white);
    assert_eq!(white.mix(black, 250).to_css(), "#bfbfbf");
}

#[test]
fn readable_text_picks_the_contrasting_extreme() {
    assert_eq!(Rgb::hex(0xffffff).readable_text(), Rgb::hex(0x000000));
    assert_eq!(Rgb::hex(0x000000).readable_text(), Rgb::hex(0xffffff));
}

#[test]
fn luma_weighs_green_above_red_above_blue() {
    assert_eq!(Rgb::hex(0x000000).luma(), 0);
    assert_eq!(Rgb::hex(0xffffff).luma(), WHITE_LUMA);
    assert_eq!(Rgb::hex(0x010000).luma(), 2126);
    assert_eq!(Rgb::hex(0x000100).luma(), 7152);
    assert_eq!(Rgb::hex(0x000001).luma(), 722);
}

#[test]
fn a_palette_theme_writes_its_colours_into_the_stylesheet() {
    let theme = find("airgradient");
    let palette = theme.palette.expect("light palette");
    let css = theme.css().expect("palette themes produce css");

    assert!(css.contains(&format!(
        "@define-color accent_bg_color {};",
        palette.accent.to_css()
    )));
    assert!(css.contains(&format!(
        "@define-color window_bg_color {};",
        palette.background.to_css()
    )));
}

#[test]
fn positions_past_the_end_fall_back_to_the_default() {
    assert_eq!(at_index(THEME_COUNT as u32).id, DEFAULT_THEME_ID);
    assert_eq!(at_index(u32::MAX).id, DEFAULT_THEME_ID);
    assert_eq!(index_of("no-such-theme"), 0);
    assert_eq!(index_of(DEFAULT_THEME_ID), 0);
}
