use hydebar::config::AppearanceStyle;
use hydebar::config::appearance::{
    AppearanceColor, ColorPair, PresetTheme, Rgb, default_background_color,
    default_primary_color, default_workspace_colors,
};

fn rgb(r: u8, g: u8, b: u8) -> Rgb {
    Rgb { r, g, b }
}

fn simple(r: u8, g: u8, b: u8) -> AppearanceColor {
    AppearanceColor::Simple(rgb(r, g, b))
}

#[test]
fn appearance_color_pairs_use_text_fallback() {
    let fallback = rgb(255, 255, 255);
    let color = AppearanceColor::Complete {
        base: rgb(1, 2, 3),
        strong: Some(rgb(4, 5, 6)),
        weak: Some(rgb(7, 8, 9)),
        text: None,
    };

    let strong = color.get_strong_pair(fallback).expect("strong pair");
    assert_eq!(strong.text, fallback);

    let weak = color.get_weak_pair(fallback).expect("weak pair");
    assert_eq!(weak.text, fallback);
}

#[test]
fn appearance_color_accessors() {
    let color = AppearanceColor::Complete {
        base: rgb(1, 2, 3),
        strong: None,
        weak: Some(rgb(7, 8, 9)),
        text: Some(rgb(10, 11, 12)),
    };
    assert_eq!(color.get_base(), rgb(1, 2, 3));
    assert_eq!(color.get_text(), Some(rgb(10, 11, 12)));
    assert_eq!(color.get_strong_pair(rgb(0, 0, 0)), None);
    assert_eq!(
        color.get_weak_pair(rgb(0, 0, 0)),
        Some(ColorPair { color: rgb(7, 8, 9), text: rgb(10, 11, 12) })
    );
    let plain = simple(9, 9, 9);
    assert_eq!(plain.get_base(), rgb(9, 9, 9));
    assert_eq!(plain.get_text(), None);
    assert_eq!(plain.get_weak_pair(rgb(0, 0, 0)), None);
}

#[test]
fn default_palette_colors() {
    assert_eq!(default_background_color().get_base(), rgb(30, 30, 46));
    assert_eq!(default_primary_color().get_text(), Some(rgb(30, 30, 46)));
    let workspaces = default_workspace_colors();
    assert_eq!(workspaces.len(), 3);
    assert_eq!(workspaces[0], simple(250, 179, 135));
}

#[test]
fn catppuccin_mocha_has_correct_background() {
    let appearance = PresetTheme::CatppuccinMocha.colors();
    assert_eq!(appearance.background_color, simple(30, 30, 46));
}

#[test]
fn catppuccin_mocha_has_correct_primary() {
    let appearance = PresetTheme::CatppuccinMocha.colors();
    assert_eq!(appearance.primary_color, simple(203, 166, 247));
}

#[test]
fn catppuccin_mocha_has_workspace_colors() {
    let appearance = PresetTheme::CatppuccinMocha.colors();
    assert_eq!(appearance.workspace_colors.len(), 10);
}

#[test]
fn dracula_has_correct_background() {
    let appearance = PresetTheme::Dracula.colors();
    assert_eq!(appearance.background_color, simple(40, 42, 54));
}

#[test]
fn dracula_has_correct_primary() {
    let appearance = PresetTheme::Dracula.colors();
    assert_eq!(appearance.primary_color, simple(189, 147, 249));
}

#[test]
fn nord_has_correct_background() {
    let appearance = PresetTheme::Nord.colors();
    assert_eq!(appearance.background_color, simple(46, 52, 64));
}

#[test]
fn gruvbox_dark_has_correct_background() {
    let appearance = PresetTheme::GruvboxDark.colors();
    assert_eq!(appearance.background_color, simple(40, 40, 40));
}

#[test]
fn gruvbox_light_has_correct_background() {
    let appearance = PresetTheme::GruvboxLight.colors();
    assert_eq!(appearance.background_color, simple(251, 241, 199));
}

#[test]
fn tokyo_night_has_correct_background() {
    let appearance = PresetTheme::TokyoNight.colors();
    assert_eq!(appearance.background_color, simple(26, 27, 38));
}

#[test]
fn catppuccin_macchiato_colors() {
    let appearance = PresetTheme::CatppuccinMacchiato.colors();
    assert_eq!(appearance.background_color, simple(36, 39, 58));
    assert_eq!(appearance.text_color, simple(202, 211, 245));
}

#[test]
fn catppuccin_frappe_colors() {
    let appearance = PresetTheme::CatppuccinFrappe.colors();
    assert_eq!(appearance.background_color, simple(48, 52, 70));
    assert_eq!(appearance.text_color, simple(198, 208, 245));
}

#[test]
fn catppuccin_latte_colors() {
    let appearance = PresetTheme::CatppuccinLatte.colors();
    assert_eq!(appearance.background_color, simple(239, 241, 245));
    assert_eq!(appearance.text_color, simple(76, 79, 105));
}

#[test]
fn tokyo_night_storm_colors() {
    let appearance = PresetTheme::TokyoNightStorm.colors();
    assert_eq!(appearance.background_color, simple(36, 40, 59));
}

#[test]
fn tokyo_night_light_colors() {
    let appearance = PresetTheme::TokyoNightLight.colors();
    assert_eq!(appearance.background_color, simple(213, 214, 219));
}

#[test]
fn every_theme_uses_islands_and_one_special_color() {
    let themes = [
        PresetTheme::CatppuccinMocha,
        PresetTheme::CatppuccinMacchiato,
        PresetTheme::CatppuccinFrappe,
        PresetTheme::CatppuccinLatte,
        PresetTheme::Dracula,
        PresetTheme::Nord,
        PresetTheme::GruvboxDark,
        PresetTheme::GruvboxLight,
        PresetTheme::TokyoNight,
        PresetTheme::TokyoNightStorm,
        PresetTheme::TokyoNightLight,
    ];
    for theme in themes {
        let colors = theme.colors();
        assert_eq!(colors.style, AppearanceStyle::Islands);
        assert_eq!(colors.special_workspace_colors.map(|v| v.len()), Some(1));
    }
}
