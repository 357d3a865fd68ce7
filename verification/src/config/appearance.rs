//! Colours of the bar's appearance: configured colours, the default palette
//! and the palettes of the preset themes. The opacity and scale settings of
//! the appearance are floating-point values and stay with the program that
//! loads the configuration.

use vstd::prelude::*;
use crate::config::AppearanceStyle;

verus! {

/// An opaque colour.
#[derive(Debug, Clone, Copy, PartialEq, Eq, Structural)]
pub struct Rgb {
    pub r: u8,
    pub g: u8,
    pub b: u8,
}

/// The colour with the given channels.
pub open spec fn rgb(c: (u8, u8, u8)) -> Rgb {
    Rgb { r: c.0, g: c.1, b: c.2 }
}

/// A configured colour: a single colour, or a base colour with optional
/// strong, weak and text variants.
#[derive(Debug, Clone, Copy, PartialEq, Eq, Structural)]
pub enum AppearanceColor {
    Simple(Rgb),
    Complete { base: Rgb, strong: Option<Rgb>, weak: Option<Rgb>, text: Option<Rgb> },
}

/// A background colour and the text colour drawn on it.
#[derive(Debug, Clone, Copy, PartialEq, Eq, Structural)]
pub struct ColorPair {
    pub color: Rgb,
    pub text: Rgb,
}

impl AppearanceColor {
    /// The base colour.
    pub fn get_base(&self) -> (c: Rgb)
        ensures
            c == match *self {
                AppearanceColor::Simple(color) => color,
                AppearanceColor::Complete { base, .. } => base,
            },
    {
        match self {
            AppearanceColor::Simple(color) => *color,
            AppearanceColor::Complete { base, .. } => *base,
        }
    }

    /// The text colour, when one is configured.
    pub fn get_text(&self) -> (c: Option<Rgb>)
        ensures
            c == match *self {
                AppearanceColor::Simple(_) => None,
                AppearanceColor::Complete { text, .. } => text,
            },
    {
        match self {
            AppearanceColor::Simple(_) => None,
            AppearanceColor::Complete { text, .. } => *text,
        }
    }

    /// The weak variant with its text colour (the configured one, else
    /// `text_fallback`), when a weak variant is configured.
    pub fn get_weak_pair(&self, text_fallback: Rgb) -> (p: Option<ColorPair>)
        ensures
            p == match *self {
                AppearanceColor::Simple(_) => None,
                AppearanceColor::Complete { weak, text, .. } => match weak {
                    Some(w) => Some(ColorPair { color: w, text: match text {
                        Some(t) => t,
                        None => text_fallback,
                    } }),
                    None => None,
                },
            },
    {
        match self {
            AppearanceColor::Simple(_) => None,
            AppearanceColor::Complete { weak, text, .. } => match weak {
                Some(w) => Some(ColorPair { color: *w, text: match text {
                    Some(t) => *t,
                    None => text_fallback,
                } }),
                None => None,
            },
        }
    }

    /// The strong variant with its text colour (the configured one, else
    /// `text_fallback`), when a strong variant is configured.
    pub fn get_strong_pair(&self, text_fallback: Rgb) -> (p: Option<ColorPair>)
        ensures
            p == match *self {
                AppearanceColor::Simple(_) => None,
                AppearanceColor::Complete { strong, text, .. } => match strong {
                    Some(s) => Some(ColorPair { color: s, text: match text {
                        Some(t) => t,
                        None => text_fallback,
                    } }),
                    None => None,
                },
            },
    {
        match self {
            AppearanceColor::Simple(_) => None,
            AppearanceColor::Complete { strong, text, .. } => match strong {
                Some(s) => Some(ColorPair { color: *s, text: match text {
                    Some(t) => *t,
                    None => text_fallback,
                } }),
                None => None,
            },
        }
    }
}

/// The default background colour.
pub fn default_background_color() -> (c: AppearanceColor)
    ensures
        c == (AppearanceColor::Complete {
            base: rgb((30, 30, 46)),
            strong: Some(rgb((69, 71, 90))),
            weak: Some(rgb((49, 50, 68))),
            text: None,
        }),
{
    AppearanceColor::Complete {
        base: Rgb { r: 30, g: 30, b: 46 },
        strong: Some(Rgb { r: 69, g: 71, b: 90 }),
        weak: Some(Rgb { r: 49, g: 50, b: 68 }),
        text: None,
    }
}

/// The default primary colour.
pub fn default_primary_color() -> (c: AppearanceColor)
    ensures
        c == (AppearanceColor::Complete {
            base: rgb((250, 179, 135)),
            strong: None,
            weak: None,
            text: Some(rgb((30, 30, 46))),
        }),
{
    AppearanceColor::Complete {
        base: Rgb { r: 250, g: 179, b: 135 },
        strong: None,
        weak: None,
        text: Some(Rgb { r: 30, g: 30, b: 46 }),
    }
}

/// The default secondary colour.
pub fn default_secondary_color() -> (c: AppearanceColor)
    ensures
        c == (AppearanceColor::Complete {
            base: rgb((17, 17, 27)),
            strong: Some(rgb((24, 24, 37))),
            weak: None,
            text: None,
        }),
{
    AppearanceColor::Complete {
        base: Rgb { r: 17, g: 17, b: 27 },
        strong: Some(Rgb { r: 24, g: 24, b: 37 }),
        weak: None,
        text: None,
    }
}

/// The default success colour.
pub fn default_success_color() -> (c: AppearanceColor)
    ensures
        c == AppearanceColor::Simple(rgb((166, 227, 161))),
{
    AppearanceColor::Simple(Rgb { r: 166, g: 227, b: 161 })
}

/// The default danger colour.
pub fn default_danger_color() -> (c: AppearanceColor)
    ensures
        c == (AppearanceColor::Complete {
            base: rgb((243, 139, 168)),
            strong: None,
            weak: Some(rgb((249, 226, 175))),
            text: None,
        }),
{
    AppearanceColor::Complete {
        base: Rgb { r: 243, g: 139, b: 168 },
        strong: None,
        weak: Some(Rgb { r: 249, g: 226, b: 175 }),
        text: None,
    }
}

/// The default text colour.
pub fn default_text_color() -> (c: AppearanceColor)
    ensures
        c == AppearanceColor::Simple(rgb((205, 214, 244))),
{
    AppearanceColor::Simple(Rgb { r: 205, g: 214, b: 244 })
}

/// The single colours with the given channels, in order.
pub open spec fn simple_colors(s: Seq<(u8, u8, u8)>) -> Seq<AppearanceColor> {
    s.map_values(|c: (u8, u8, u8)| AppearanceColor::Simple(rgb(c)))
}

/// The default workspace colours.
pub fn default_workspace_colors() -> (v: Vec<AppearanceColor>)
    ensures
        v@ == simple_colors(seq![(250u8, 179u8, 135u8), (180u8, 190u8, 254u8), (203u8, 166u8, 247u8)]),
{
    simple_list(vec![(250, 179, 135), (180, 190, 254), (203, 166, 247)])
}

/// The single colours with the given channels, in order.
fn simple_list(channels: Vec<(u8, u8, u8)>) -> (v: Vec<AppearanceColor>)
    ensures
        v@ == simple_colors(channels@),
{
    let mut out: Vec<AppearanceColor> = Vec::new();
    let mut i: usize = 0;
    while i < channels.len()
        invariant
            i <= channels@.len(),
            out@ == simple_colors(channels@.take(i as int)),
        decreases channels@.len() - i,
    {
        let c = channels[i];
        out.push(AppearanceColor::Simple(Rgb { r: c.0, g: c.1, b: c.2 }));
        i = i + 1;
        assert(out@ =~= simple_colors(channels@.take(i as int)));
    }
    assert(channels@.take(channels@.len() as int) =~= channels@);
    out
}

/// A preset theme.
#[derive(Debug, Clone, Copy, PartialEq, Eq, Structural)]
pub enum PresetTheme {
    CatppuccinMocha,
    CatppuccinMacchiato,
    CatppuccinFrappe,
    CatppuccinLatte,
    Dracula,
    Nord,
    GruvboxDark,
    GruvboxLight,
    TokyoNight,
    TokyoNightStorm,
    TokyoNightLight,
}

/// The colours of a preset theme: the background, primary, secondary,
/// success, danger and text colours, the workspace colours, and the special
/// workspace colour.
pub open spec fn theme_palette(t: PresetTheme) -> (Seq<(u8, u8, u8)>, Seq<(u8, u8, u8)>, (u8, u8, u8)) {
    match t {
        PresetTheme::CatppuccinMocha => (
            seq![(30u8, 30u8, 46u8), (203u8, 166u8, 247u8), (137u8, 180u8, 250u8), (166u8, 227u8, 161u8), (243u8, 139u8, 168u8), (205u8, 214u8, 244u8)],
            seq![(137u8, 180u8, 250u8), (203u8, 166u8, 247u8), (245u8, 194u8, 231u8), (250u8, 179u8, 135u8), (249u8, 226u8, 175u8), (166u8, 227u8, 161u8), (148u8, 226u8, 213u8), (137u8, 220u8, 235u8), (116u8, 199u8, 236u8), (180u8, 190u8, 254u8)],
            (235u8, 160u8, 172u8),
        ),
        PresetTheme::CatppuccinMacchiato => (
            seq![(36u8, 39u8, 58u8), (198u8, 160u8, 246u8), (138u8, 173u8, 244u8), (166u8, 218u8, 149u8), (237u8, 135u8, 150u8), (202u8, 211u8, 245u8)],
            seq![(138u8, 173u8, 244u8), (198u8, 160u8, 246u8), (245u8, 189u8, 230u8), (245u8, 169u8, 127u8), (238u8, 212u8, 159u8), (166u8, 218u8, 149u8), (139u8, 213u8, 202u8), (145u8, 215u8, 227u8), (125u8, 196u8, 228u8), (183u8, 189u8, 248u8)],
            (238u8, 153u8, 160u8),
        ),
        PresetTheme::CatppuccinFrappe => (
            seq![(48u8, 52u8, 70u8), (202u8, 158u8, 230u8), (140u8, 170u8, 238u8), (166u8, 209u8, 137u8), (231u8, 130u8, 132u8), (198u8, 208u8, 245u8)],
            seq![(140u8, 170u8, 238u8), (202u8, 158u8, 230u8), (244u8, 184u8, 228u8), (239u8, 159u8, 118u8), (229u8, 200u8, 144u8), (166u8, 209u8, 137u8), (129u8, 200u8, 190u8), (153u8, 209u8, 219u8), (133u8, 193u8, 220u8), (186u8, 187u8, 241u8)],
            (234u8, 153u8, 156u8),
        ),
        PresetTheme::CatppuccinLatte => (
            seq![(239u8, 241u8, 245u8), (136u8, 57u8, 239u8), (30u8, 102u8, 245u8), (64u8, 160u8, 43u8), (210u8, 15u8, 57u8), (76u8, 79u8, 105u8)],
            seq![(30u8, 102u8, 245u8), (136u8, 57u8, 239u8), (234u8, 118u8, 203u8), (254u8, 100u8, 11u8), (223u8, 142u8, 29u8), (64u8, 160u8, 43u8), (4u8, 165u8, 159u8), (23u8, 146u8, 153u8), (4u8, 165u8, 229u8), (114u8, 135u8, 253u8)],
            (230u8, 69u8, 83u8),
        ),
        PresetTheme::Dracula => (
            seq![(40u8, 42u8, 54u8), (189u8, 147u8, 249u8), (139u8, 233u8, 253u8), (80u8, 250u8, 123u8), (255u8, 85u8, 85u8), (248u8, 248u8, 242u8)],
            seq![(139u8, 233u8, 253u8), (189u8, 147u8, 249u8), (255u8, 121u8, 198u8), (255u8, 184u8, 108u8), (241u8, 250u8, 140u8), (80u8, 250u8, 123u8)],
            (255u8, 85u8, 85u8),
        ),
        PresetTheme::Nord => (
            seq![(46u8, 52u8, 64u8), (136u8, 192u8, 208u8), (129u8, 161u8, 193u8), (163u8, 190u8, 140u8), (191u8, 97u8, 106u8), (236u8, 239u8, 244u8)],
            seq![(129u8, 161u8, 193u8), (136u8, 192u8, 208u8), (143u8, 188u8, 187u8), (163u8, 190u8, 140u8), (235u8, 203u8, 139u8), (208u8, 135u8, 112u8)],
            (191u8, 97u8, 106u8),
        ),
        PresetTheme::GruvboxDark => (
            seq![(40u8, 40u8, 40u8), (211u8, 134u8, 155u8), (131u8, 165u8, 152u8), (184u8, 187u8, 38u8), (251u8, 73u8, 52u8), (235u8, 219u8, 178u8)],
            seq![(131u8, 165u8, 152u8), (211u8, 134u8, 155u8), (177u8, 98u8, 134u8), (254u8, 128u8, 25u8), (250u8, 189u8, 47u8), (184u8, 187u8, 38u8)],
            (251u8, 73u8, 52u8),
        ),
        PresetTheme::GruvboxLight => (
            seq![(251u8, 241u8, 199u8), (157u8, 0u8, 6u8), (7u8, 102u8, 120u8), (121u8, 116u8, 14u8), (204u8, 36u8, 29u8), (60u8, 56u8, 54u8)],
            seq![(7u8, 102u8, 120u8), (157u8, 0u8, 6u8), (143u8, 63u8, 113u8), (175u8, 58u8, 3u8), (181u8, 118u8, 20u8), (121u8, 116u8, 14u8)],
            (204u8, 36u8, 29u8),
        ),
        PresetTheme::TokyoNight => (
            seq![(26u8, 27u8, 38u8), (187u8, 154u8, 247u8), (122u8, 162u8, 247u8), (158u8, 206u8, 106u8), (247u8, 118u8, 142u8), (192u8, 202u8, 245u8)],
            seq![(122u8, 162u8, 247u8), (187u8, 154u8, 247u8), (255u8, 117u8, 127u8), (255u8, 158u8, 100u8), (224u8, 175u8, 104u8), (158u8, 206u8, 106u8), (115u8, 218u8, 202u8), (125u8, 207u8, 255u8)],
            (247u8, 118u8, 142u8),
        ),
        PresetTheme::TokyoNightStorm => (
            seq![(36u8, 40u8, 59u8), (187u8, 154u8, 247u8), (122u8, 162u8, 247u8), (158u8, 206u8, 106u8), (247u8, 118u8, 142u8), (166u8, 173u8, 200u8)],
            seq![(122u8, 162u8, 247u8), (187u8, 154u8, 247u8), (255u8, 117u8, 127u8), (255u8, 158u8, 100u8), (224u8, 175u8, 104u8), (158u8, 206u8, 106u8), (115u8, 218u8, 202u8), (125u8, 207u8, 255u8)],
            (247u8, 118u8, 142u8),
        ),
        PresetTheme::TokyoNightLight => (
            seq![(213u8, 214u8, 219u8), (121u8, 94u8, 172u8), (52u8, 108u8, 197u8), (51u8, 153u8, 51u8), (185u8, 29u8, 71u8), (60u8, 62u8, 73u8)],
            seq![(52u8, 108u8, 197u8), (121u8, 94u8, 172u8), (185u8, 29u8, 71u8), (166u8, 88u8, 24u8), (143u8, 94u8, 21u8), (51u8, 153u8, 51u8), (15u8, 155u8, 142u8), (29u8, 130u8, 183u8)],
            (185u8, 29u8, 71u8),
        ),
    }
}

/// The colour settings of an appearance.
#[derive(Debug, Clone)]
pub struct ThemeColors {
    pub style: AppearanceStyle,
    pub background_color: AppearanceColor,
    pub primary_color: AppearanceColor,
    pub secondary_color: AppearanceColor,
    pub success_color: AppearanceColor,
    pub danger_color: AppearanceColor,
    pub text_color: AppearanceColor,
    pub workspace_colors: Vec<AppearanceColor>,
    pub special_workspace_colors: Option<Vec<AppearanceColor>>,
}

/// Whether `c` holds the colours `main` (background, primary, secondary,
/// success, danger, text), the workspace colours `workspaces` and the
/// special workspace colour `special`, all as single colours, in the
/// islands style.
pub open spec fn has_palette(
    c: ThemeColors,
    main: Seq<(u8, u8, u8)>,
    workspaces: Seq<(u8, u8, u8)>,
    special: (u8, u8, u8),
) -> bool {
    &&& c.style == AppearanceStyle::Islands
    &&& c.background_color == AppearanceColor::Simple(rgb(main[0]))
    &&& c.primary_color == AppearanceColor::Simple(rgb(main[1]))
    &&& c.secondary_color == AppearanceColor::Simple(rgb(main[2]))
    &&& c.success_color == AppearanceColor::Simple(rgb(main[3]))
    &&& c.danger_color == AppearanceColor::Simple(rgb(main[4]))
    &&& c.text_color == AppearanceColor::Simple(rgb(main[5]))
    &&& c.workspace_colors@ == simple_colors(workspaces)
    &&& c.special_workspace_colors matches Some(v) && v@ == seq![AppearanceColor::Simple(rgb(special))]
}

fn theme_colors(main: Vec<(u8, u8, u8)>, workspaces: Vec<(u8, u8, u8)>, special: (u8, u8, u8)) -> (c: ThemeColors)
    requires
        main@.len() == 6,
    ensures
        has_palette(c, main@, workspaces@, special),
{
    let color = |i: usize| -> (a: AppearanceColor)
        requires
            i < main@.len(),
        ensures
            a == AppearanceColor::Simple(rgb(main@[i as int])),
    {
        let c = main[i];
        AppearanceColor::Simple(Rgb { r: c.0, g: c.1, b: c.2 })
    };
    let mut special_colors: Vec<AppearanceColor> = Vec::new();
    special_colors.push(AppearanceColor::Simple(Rgb { r: special.0, g: special.1, b: special.2 }));
    ThemeColors {
        style: AppearanceStyle::Islands,
        background_color: color(0),
        primary_color: color(1),
        secondary_color: color(2),
        success_color: color(3),
        danger_color: color(4),
        text_color: color(5),
        workspace_colors: simple_list(workspaces),
        special_workspace_colors: Some(special_colors),
    }
}

impl PresetTheme {
    /// The colours of the theme (see [`theme_palette`]).
    pub fn colors(self) -> (c: ThemeColors)
        ensures
            has_palette(c, theme_palette(self).0, theme_palette(self).1, theme_palette(self).2),
    {
        match self {
            PresetTheme::CatppuccinMocha => theme_colors(
                vec![(30, 30, 46), (203, 166, 247), (137, 180, 250), (166, 227, 161), (243, 139, 168), (205, 214, 244)],
                vec![(137, 180, 250), (203, 166, 247), (245, 194, 231), (250, 179, 135), (249, 226, 175), (166, 227, 161), (148, 226, 213), (137, 220, 235), (116, 199, 236), (180, 190, 254)],
                (235, 160, 172),
            ),
            PresetTheme::CatppuccinMacchiato => theme_colors(
                vec![(36, 39, 58), (198, 160, 246), (138, 173, 244), (166, 218, 149), (237, 135, 150), (202, 211, 245)],
                vec![(138, 173, 244), (198, 160, 246), (245, 189, 230), (245, 169, 127), (238, 212, 159), (166, 218, 149), (139, 213, 202), (145, 215, 227), (125, 196, 228), (183, 189, 248)],
                (238, 153, 160),
            ),
            PresetTheme::CatppuccinFrappe => theme_colors(
                vec![(48, 52, 70), (202, 158, 230), (140, 170, 238), (166, 209, 137), (231, 130, 132), (198, 208, 245)],
                vec![(140, 170, 238), (202, 158, 230), (244, 184, 228), (239, 159, 118), (229, 200, 144), (166, 209, 137), (129, 200, 190), (153, 209, 219), (133, 193, 220), (186, 187, 241)],
                (234, 153, 156),
            ),
            PresetTheme::CatppuccinLatte => theme_colors(
                vec![(239, 241, 245), (136, 57, 239), (30, 102, 245), (64, 160, 43), (210, 15, 57), (76, 79, 105)],
                vec![(30, 102, 245), (136, 57, 239), (234, 118, 203), (254, 100, 11), (223, 142, 29), (64, 160, 43), (4, 165, 159), (23, 146, 153), (4, 165, 229), (114, 135, 253)],
                (230, 69, 83),
            ),
            PresetTheme::Dracula => theme_colors(
                vec![(40, 42, 54), (189, 147, 249), (139, 233, 253), (80, 250, 123), (255, 85, 85), (248, 248, 242)],
                vec![(139, 233, 253), (189, 147, 249), (255, 121, 198), (255, 184, 108), (241, 250, 140), (80, 250, 123)],
                (255, 85, 85),
            ),
            PresetTheme::Nord => theme_colors(
                vec![(46, 52, 64), (136, 192, 208), (129, 161, 193), (163, 190, 140), (191, 97, 106), (236, 239, 244)],
                vec![(129, 161, 193), (136, 192, 208), (143, 188, 187), (163, 190, 140), (235, 203, 139), (208, 135, 112)],
                (191, 97, 106),
            ),
            PresetTheme::GruvboxDark => theme_colors(
                vec![(40, 40, 40), (211, 134, 155), (131, 165, 152), (184, 187, 38), (251, 73, 52), (235, 219, 178)],
                vec![(131, 165, 152), (211, 134, 155), (177, 98, 134), (254, 128, 25), (250, 189, 47), (184, 187, 38)],
                (251, 73, 52),
            ),
            PresetTheme::GruvboxLight => theme_colors(
                vec![(251, 241, 199), (157, 0, 6), (7, 102, 120), (121, 116, 14), (204, 36, 29), (60, 56, 54)],
                vec![(7, 102, 120), (157, 0, 6), (143, 63, 113), (175, 58, 3), (181, 118, 20), (121, 116, 14)],
                (204, 36, 29),
            ),
            PresetTheme::TokyoNight => theme_colors(
                vec![(26, 27, 38), (187, 154, 247), (122, 162, 247), (158, 206, 106), (247, 118, 142), (192, 202, 245)],
                vec![(122, 162, 247), (187, 154, 247), (255, 117, 127), (255, 158, 100), (224, 175, 104), (158, 206, 106), (115, 218, 202), (125, 207, 255)],
                (247, 118, 142),
            ),
            PresetTheme::TokyoNightStorm => theme_colors(
                vec![(36, 40, 59), (187, 154, 247), (122, 162, 247), (158, 206, 106), (247, 118, 142), (166, 173, 200)],
                vec![(122, 162, 247), (187, 154, 247), (255, 117, 127), (255, 158, 100), (224, 175, 104), (158, 206, 106), (115, 218, 202), (125, 207, 255)],
                (247, 118, 142),
            ),
            PresetTheme::TokyoNightLight => theme_colors(
                vec![(213, 214, 219), (121, 94, 172), (52, 108, 197), (51, 153, 51), (185, 29, 71), (60, 62, 73)],
                vec![(52, 108, 197), (121, 94, 172), (185, 29, 71), (166, 88, 24), (143, 94, 21), (51, 153, 51), (15, 155, 142), (29, 130, 183)],
                (185, 29, 71),
            ),
        }
    }
}

} // verus!
