//! Themes for the terminal frontend: modes, named palettes, and the
//! version and build-number strings shown in the footer.

use vstd::prelude::*;
use crate::clock::now_epoch_seconds;
use crate::decimal::{dec_digits_padded5, format_u64_padded5};

verus! {

/// Version information.
pub const VERSION: &'static str = "1.0.0";

pub const COPYRIGHT: &'static str =
    "Copyright (C) 2025 Robin L. M. Cheung, MBA. All rights reserved.";

/// The five-digit build number for a given wall-clock reading: epoch
/// minutes modulo 100000, zero-padded.
pub fn build_number_string(epoch_secs: u64) -> (r: String)
    ensures
        r@ == dec_digits_padded5(((epoch_secs / 60) % 100000) as nat),
        r@.len() == 5,
{
    format_u64_padded5((epoch_secs / 60) % 100000)
}

/// The epoch-based five-digit build number, from the clock.
pub fn get_build_number() -> (r: String)
    ensures
        r@.len() == 5,
{
    let secs = now_epoch_seconds();
    let s: u64 = if secs < 0 {
        0
    } else {
        secs as u64
    };
    build_number_string(s)
}

/// The rendered version string for a given build number.
pub open spec fn spec_version_string(b: Seq<char>) -> Seq<char> {
    "v"@ + VERSION@ + " (build "@ + b + ")"@
}

/// The version string carrying the given build number.
pub fn version_string_with_build(build: &str) -> (r: String)
    ensures
        r@ == spec_version_string(build@),
{
    let r = String::from_str("v").concat(VERSION).concat(" (build ").concat(build).concat(")");
    proof {
        assert(r@ =~= "v"@ + VERSION@ + " (build "@ + build@ + ")"@);
    }
    r
}

/// The full version string with the build number from the clock.
pub fn get_version_string() -> (r: String)
    ensures
        exists|b: Seq<char>| b.len() == 5 && r@ == #[trigger] spec_version_string(b),
{
    let build = get_build_number();
    let r = version_string_with_build(build.as_str());
    proof {
        assert(build@.len() == 5 && r@ == spec_version_string(build@));
    }
    r
}

/// Theme mode: light, dark, or following the system.
#[derive(Debug, Clone, Copy, PartialEq, Eq, Structural)]
pub enum ThemeMode {
    Light,
    Dark,
    System,
}

impl Default for ThemeMode {
    fn default() -> (r: Self)
        ensures
            r is Dark,
    {
        ThemeMode::Dark
    }
}

impl ThemeMode {
    /// The next mode in the Light, Dark, System cycle.
    pub fn next(&self) -> (r: Self)
        ensures
            r == match *self {
                ThemeMode::Light => ThemeMode::Dark,
                ThemeMode::Dark => ThemeMode::System,
                ThemeMode::System => ThemeMode::Light,
            },
    {
        match self {
            ThemeMode::Light => ThemeMode::Dark,
            ThemeMode::Dark => ThemeMode::System,
            ThemeMode::System => ThemeMode::Light,
        }
    }

    /// The mode's display name.
    pub fn as_str(&self) -> (r: &'static str)
        ensures
            *self is Light ==> r@ == "Light"@,
            *self is Dark ==> r@ == "Dark"@,
            *self is System ==> r@ == "System"@,
    {
        match self {
            ThemeMode::Light => "Light",
            ThemeMode::Dark => "Dark",
            ThemeMode::System => "System",
        }
    }
}

/// The available themes.
#[derive(Debug, Clone, Copy, PartialEq, Eq, Structural)]
pub enum ThemeName {
    Kinetic,
    Brutalist,
    Retro,
    Neumorphism,
    Glassmorphism,
    Y2K,
    Cyberpunk,
    Minimal,
    Nordic,
}

impl Default for ThemeName {
    fn default() -> (r: Self)
        ensures
            r is Kinetic,
    {
        ThemeName::Kinetic
    }
}

impl ThemeName {
    /// Every theme, in the cycle's order.
    pub fn all() -> (r: Vec<ThemeName>)
        ensures
            r@ == seq![
                ThemeName::Kinetic,
                ThemeName::Brutalist,
                ThemeName::Retro,
                ThemeName::Neumorphism,
                ThemeName::Glassmorphism,
                ThemeName::Y2K,
                ThemeName::Cyberpunk,
                ThemeName::Minimal,
                ThemeName::Nordic,
            ],
    {
        let mut r: Vec<ThemeName> = Vec::new();
        r.push(ThemeName::Kinetic);
        r.push(ThemeName::Brutalist);
        r.push(ThemeName::Retro);
        r.push(ThemeName::Neumorphism);
        r.push(ThemeName::Glassmorphism);
        r.push(ThemeName::Y2K);
        r.push(ThemeName::Cyberpunk);
        r.push(ThemeName::Minimal);
        r.push(ThemeName::Nordic);
        proof {
            assert(r@ =~= seq![
                ThemeName::Kinetic,
                ThemeName::Brutalist,
                ThemeName::Retro,
                ThemeName::Neumorphism,
                ThemeName::Glassmorphism,
                ThemeName::Y2K,
                ThemeName::Cyberpunk,
                ThemeName::Minimal,
                ThemeName::Nordic,
            ]);
        }
        r
    }

    /// The next theme in the cycle, wrapping at the end.
    pub fn next(&self) -> (r: Self)
        ensures
            r == match *self {
                ThemeName::Kinetic => ThemeName::Brutalist,
                ThemeName::Brutalist => ThemeName::Retro,
                ThemeName::Retro => ThemeName::Neumorphism,
                ThemeName::Neumorphism => ThemeName::Glassmorphism,
                ThemeName::Glassmorphism => ThemeName::Y2K,
                ThemeName::Y2K => ThemeName::Cyberpunk,
                ThemeName::Cyberpunk => ThemeName::Minimal,
                ThemeName::Minimal => ThemeName::Nordic,
                ThemeName::Nordic => ThemeName::Kinetic,
            },
    {
        match self {
            ThemeName::Kinetic => ThemeName::Brutalist,
            ThemeName::Brutalist => ThemeName::Retro,
            ThemeName::Retro => ThemeName::Neumorphism,
            ThemeName::Neumorphism => ThemeName::Glassmorphism,
            ThemeName::Glassmorphism => ThemeName::Y2K,
            ThemeName::Y2K => ThemeName::Cyberpunk,
            ThemeName::Cyberpunk => ThemeName::Minimal,
            ThemeName::Minimal => ThemeName::Nordic,
            ThemeName::Nordic => ThemeName::Kinetic,
        }
    }

    /// The previous theme in the cycle, wrapping at the start.
    pub fn prev(&self) -> (r: Self)
        ensures
            r == match *self {
                ThemeName::Kinetic => ThemeName::Nordic,
                ThemeName::Brutalist => ThemeName::Kinetic,
                ThemeName::Retro => ThemeName::Brutalist,
                ThemeName::Neumorphism => ThemeName::Retro,
                ThemeName::Glassmorphism => ThemeName::Neumorphism,
                ThemeName::Y2K => ThemeName::Glassmorphism,
                ThemeName::Cyberpunk => ThemeName::Y2K,
                ThemeName::Minimal => ThemeName::Cyberpunk,
                ThemeName::Nordic => ThemeName::Minimal,
            },
    {
        match self {
            ThemeName::Kinetic => ThemeName::Nordic,
            ThemeName::Brutalist => ThemeName::Kinetic,
            ThemeName::Retro => ThemeName::Brutalist,
            ThemeName::Neumorphism => ThemeName::Retro,
            ThemeName::Glassmorphism => ThemeName::Neumorphism,
            ThemeName::Y2K => ThemeName::Glassmorphism,
            ThemeName::Cyberpunk => ThemeName::Y2K,
            ThemeName::Minimal => ThemeName::Cyberpunk,
            ThemeName::Nordic => ThemeName::Minimal,
        }
    }

    /// The theme's display name.
    pub fn as_str(&self) -> (r: &'static str)
        ensures
            *self is Kinetic ==> r@ == "Kinetic"@,
            *self is Brutalist ==> r@ == "Brutalist"@,
            *self is Retro ==> r@ == "Retro"@,
            *self is Neumorphism ==> r@ == "Neumorphism"@,
            *self is Glassmorphism ==> r@ == "Glassmorphism"@,
            *self is Y2K ==> r@ == "Y2K"@,
            *self is Cyberpunk ==> r@ == "Cyberpunk"@,
            *self is Minimal ==> r@ == "Minimal"@,
            *self is Nordic ==> r@ == "Nordic"@,
    {
        match self {
            ThemeName::Kinetic => "Kinetic",
            ThemeName::Brutalist => "Brutalist",
            ThemeName::Retro => "Retro",
            ThemeName::Neumorphism => "Neumorphism",
            ThemeName::Glassmorphism => "Glassmorphism",
            ThemeName::Y2K => "Y2K",
            ThemeName::Cyberpunk => "Cyberpunk",
            ThemeName::Minimal => "Minimal",
            ThemeName::Nordic => "Nordic",
        }
    }

    /// A one-line description of the theme.
    pub fn description(&self) -> (r: &'static str)
        ensures
            *self is Kinetic ==> r@ == "Colorful, dynamic, Gumroad-inspired design"@,
            *self is Brutalist ==> r@ == "Raw, honest, monospace aesthetic"@,
            *self is Retro ==> r@ == "CRT terminal vibes with scanlines"@,
            *self is Neumorphism ==> r@ == "Soft shadows, extruded surfaces"@,
            *self is Glassmorphism ==> r@ == "Frosted glass with depth"@,
            *self is Y2K ==> r@ == "Early 2000s web maximalism"@,
            *self is Cyberpunk ==> r@ == "Neon-soaked dystopian future"@,
            *self is Minimal ==> r@ == "Clean Swiss design"@,
            *self is Nordic ==> r@ == "Cool, calm, Scandinavian palette"@,
    {
        match self {
            ThemeName::Kinetic => "Colorful, dynamic, Gumroad-inspired design",
            ThemeName::Brutalist => "Raw, honest, monospace aesthetic",
            ThemeName::Retro => "CRT terminal vibes with scanlines",
            ThemeName::Neumorphism => "Soft shadows, extruded surfaces",
            ThemeName::Glassmorphism => "Frosted glass with depth",
            ThemeName::Y2K => "Early 2000s web maximalism",
            ThemeName::Cyberpunk => "Neon-soaked dystopian future",
            ThemeName::Minimal => "Clean Swiss design",
            ThemeName::Nordic => "Cool, calm, Scandinavian palette",
        }
    }
}

/// A terminal color: a named ANSI color or a 24-bit value.
#[derive(Debug, Clone, Copy, PartialEq, Eq, Structural)]
pub enum Color {
    Black,
    White,
    Gray,
    DarkGray,
    Green,
    Yellow,
    Red,
    Cyan,
    Rgb(u8, u8, u8),
}

/// A theme's colors.
#[derive(Debug, Clone, Copy)]
pub struct Theme {
    pub name: ThemeName,
    pub mode: ThemeMode,
    // Primary colors
    pub bg: Color,
    pub fg: Color,
    pub accent: Color,
    pub accent_secondary: Color,
    // Semantic colors
    pub success: Color,
    pub warning: Color,
    pub error: Color,
    pub info: Color,
    // UI elements
    pub border: Color,
    pub selection_bg: Color,
    pub selection_fg: Color,
    pub muted: Color,
    pub highlight: Color,
}

/// Dark is rendered for both the Dark and the System mode.
pub open spec fn spec_is_dark(mode: ThemeMode) -> bool {
    !(mode is Light)
}

impl Theme {
    /// The palette for a theme name under the given mode.
    pub fn new(name: ThemeName, mode: ThemeMode) -> (r: Theme)
        ensures
            r.name == name,
            r.mode == if spec_is_dark(mode) {
                ThemeMode::Dark
            } else {
                ThemeMode::Light
            },
    {
        let is_dark = match mode {
            ThemeMode::Dark => true,
            ThemeMode::Light => false,
            ThemeMode::System => true,
        };
        match name {
            ThemeName::Kinetic => Self::kinetic(is_dark),
            ThemeName::Brutalist => Self::brutalist(is_dark),
            ThemeName::Retro => Self::retro(is_dark),
            ThemeName::Neumorphism => Self::neumorphism(is_dark),
            ThemeName::Glassmorphism => Self::glassmorphism(is_dark),
            ThemeName::Y2K => Self::y2k(is_dark),
            ThemeName::Cyberpunk => Self::cyberpunk(is_dark),
            ThemeName::Minimal => Self::minimal(is_dark),
            ThemeName::Nordic => Self::nordic(is_dark),
        }
    }

    fn kinetic(is_dark: bool) -> (r: Theme)
        ensures
            r.name is Kinetic,
            r.mode == if is_dark {
                ThemeMode::Dark
            } else {
                ThemeMode::Light
            },
    {
        if is_dark {
            Theme {
                name: ThemeName::Kinetic,
                mode: ThemeMode::Dark,
                bg: Color::Rgb(26, 26, 46),
                fg: Color::Rgb(255, 255, 255),
                accent: Color::Rgb(255, 107, 107),
                accent_secondary: Color::Rgb(78, 205, 196),
                success: Color::Rgb(46, 213, 115),
                warning: Color::Rgb(255, 193, 7),
                error: Color::Rgb(255, 71, 87),
                info: Color::Rgb(116, 185, 255),
                border: Color::Rgb(58, 58, 82),
                selection_bg: Color::Rgb(255, 107, 107),
                selection_fg: Color::Rgb(255, 255, 255),
                muted: Color::Rgb(128, 128, 160),
                highlight: Color::Rgb(255, 234, 167),
            }
        } else {
            Theme {
                name: ThemeName::Kinetic,
                mode: ThemeMode::Light,
                bg: Color::Rgb(255, 255, 255),
                fg: Color::Rgb(26, 26, 46),
                accent: Color::Rgb(255, 71, 87),
                accent_secondary: Color::Rgb(0, 184, 169),
                success: Color::Rgb(0, 168, 107),
                warning: Color::Rgb(255, 152, 0),
                error: Color::Rgb(220, 53, 69),
                info: Color::Rgb(0, 123, 255),
                border: Color::Rgb(200, 200, 220),
                selection_bg: Color::Rgb(255, 71, 87),
                selection_fg: Color::Rgb(255, 255, 255),
                muted: Color::Rgb(120, 120, 140),
                highlight: Color::Rgb(255, 193, 7),
            }
        }
    }

    fn brutalist(is_dark: bool) -> (r: Theme)
        ensures
            r.name is Brutalist,
            r.mode == if is_dark {
                ThemeMode::Dark
            } else {
                ThemeMode::Light
            },
    {
        if is_dark {
            Theme {
                name: ThemeName::Brutalist,
                mode: ThemeMode::Dark,
                bg: Color::Black,
                fg: Color::White,
                accent: Color::White,
                accent_secondary: Color::Gray,
                success: Color::Green,
                warning: Color::Yellow,
                error: Color::Red,
                info: Color::Cyan,
                border: Color::White,
                selection_bg: Color::White,
                selection_fg: Color::Black,
                muted: Color::DarkGray,
                highlight: Color::Yellow,
            }
        } else {
            Theme {
                name: ThemeName::Brutalist,
                mode: ThemeMode::Light,
                bg: Color::White,
                fg: Color::Black,
                accent: Color::Black,
                accent_secondary: Color::DarkGray,
                success: Color::Rgb(0, 128, 0),
                warning: Color::Rgb(204, 153, 0),
                error: Color::Rgb(204, 0, 0),
                info: Color::Rgb(0, 102, 153),
                border: Color::Black,
                selection_bg: Color::Black,
                selection_fg: Color::White,
                muted: Color::Gray,
                highlight: Color::Rgb(204, 153, 0),
            }
        }
    }

    fn retro(is_dark: bool) -> (r: Theme)
        ensures
            r.name is Retro,
            r.mode == if is_dark {
                ThemeMode::Dark
            } else {
                ThemeMode::Light
            },
    {
        Theme {
            name: ThemeName::Retro,
            mode: if is_dark {
                ThemeMode::Dark
            } else {
                ThemeMode::Light
            },
            bg: Color::Rgb(0, 40, 0),
            fg: Color::Rgb(0, 255, 0),
            accent: Color::Rgb(0, 255, 0),
            accent_secondary: Color::Rgb(0, 180, 0),
            success: Color::Rgb(0, 255, 0),
            warning: Color::Rgb(255, 255, 0),
            error: Color::Rgb(255, 0, 0),
            info: Color::Rgb(0, 200, 255),
            border: Color::Rgb(0, 180, 0),
            selection_bg: Color::Rgb(0, 180, 0),
            selection_fg: Color::Black,
            muted: Color::Rgb(0, 100, 0),
            highlight: Color::Rgb(255, 255, 0),
        }
    }

    fn neumorphism(is_dark: bool) -> (r: Theme)
        ensures
            r.name is Neumorphism,
            r.mode == if is_dark {
                ThemeMode::Dark
            } else {
                ThemeMode::Light
            },
    {
        if is_dark {
            Theme {
                name: ThemeName::Neumorphism,
                mode: ThemeMode::Dark,
                bg: Color::Rgb(44, 44, 60),
                fg: Color::Rgb(220, 220, 230),
                accent: Color::Rgb(100, 120, 255),
                accent_secondary: Color::Rgb(140, 160, 255),
                success: Color::Rgb(100, 200, 100),
                warning: Color::Rgb(255, 200, 100),
                error: Color::Rgb(255, 100, 100),
                info: Color::Rgb(100, 180, 255),
                border: Color::Rgb(60, 60, 80),
                selection_bg: Color::Rgb(60, 60, 80),
                selection_fg: Color::Rgb(140, 160, 255),
                muted: Color::Rgb(100, 100, 120),
                highlight: Color::Rgb(140, 160, 255),
            }
        } else {
            Theme {
                name: ThemeName::Neumorphism,
                mode: ThemeMode::Light,
                bg: Color::Rgb(230, 230, 240),
                fg: Color::Rgb(60, 60, 80),
                accent: Color::Rgb(80, 100, 220),
                accent_secondary: Color::Rgb(120, 140, 255),
                success: Color::Rgb(60, 160, 60),
                warning: Color::Rgb(220, 160, 60),
                error: Color::Rgb(220, 60, 60),
                info: Color::Rgb(60, 140, 220),
                border: Color::Rgb(200, 200, 210),
                selection_bg: Color::Rgb(200, 200, 210),
                selection_fg: Color::Rgb(80, 100, 220),
                muted: Color::Rgb(140, 140, 160),
                highlight: Color::Rgb(120, 140, 255),
            }
        }
    }

    fn glassmorphism(is_dark: bool) -> (r: Theme)
        ensures
            r.name is Glassmorphism,
            r.mode == if is_dark {
                ThemeMode::Dark
            } else {
                ThemeMode::Light
            },
    {
        Theme {
            name: ThemeName::Glassmorphism,
            mode: if is_dark {
                ThemeMode::Dark
            } else {
                ThemeMode::Light
            },
            bg: Color::Rgb(30, 30, 50),
            fg: Color::Rgb(255, 255, 255),
            accent: Color::Rgb(138, 180, 248),
            accent_secondary: Color::Rgb(180, 130, 255),
            success: Color::Rgb(100, 220, 150),
            warning: Color::Rgb(255, 200, 100),
            error: Color::Rgb(255, 100, 130),
            info: Color::Rgb(100, 180, 255),
            border: Color::Rgb(80, 80, 120),
            selection_bg: Color::Rgb(80, 80, 120),
            selection_fg: Color::Rgb(255, 255, 255),
            muted: Color::Rgb(120, 120, 160),
            highlight: Color::Rgb(180, 130, 255),
        }
    }

    fn y2k(is_dark: bool) -> (r: Theme)
        ensures
            r.name is Y2K,
            r.mode == if is_dark {
                ThemeMode::Dark
            } else {
                ThemeMode::Light
            },
    {
        Theme {
            name: ThemeName::Y2K,
            mode: if is_dark {
                ThemeMode::Dark
            } else {
                ThemeMode::Light
            },
            bg: Color::Rgb(0, 0, 128),
            fg: Color::Rgb(255, 255, 255),
            accent: Color::Rgb(255, 0, 255),
            accent_secondary: Color::Rgb(0, 255, 255),
            success: Color::Rgb(0, 255, 0),
            warning: Color::Rgb(255, 255, 0),
            error: Color::Rgb(255, 0, 0),
            info: Color::Rgb(0, 255, 255),
            border: Color::Rgb(192, 192, 192),
            selection_bg: Color::Rgb(0, 0, 180),
            selection_fg: Color::Rgb(255, 255, 0),
            muted: Color::Rgb(128, 128, 192),
            highlight: Color::Rgb(255, 255, 0),
        }
    }

    fn cyberpunk(is_dark: bool) -> (r: Theme)
        ensures
            r.name is Cyberpunk,
            r.mode == if is_dark {
                ThemeMode::Dark
            } else {
                ThemeMode::Light
            },
    {
        Theme {
            name: ThemeName::Cyberpunk,
            mode: if is_dark {
                ThemeMode::Dark
            } else {
                ThemeMode::Light
            },
            bg: Color::Rgb(13, 2, 33),
            fg: Color::Rgb(255, 255, 255),
            accent: Color::Rgb(255, 0, 128),
            accent_secondary: Color::Rgb(0, 255, 255),
            success: Color::Rgb(0, 255, 136),
            warning: Color::Rgb(255, 255, 0),
            error: Color::Rgb(255, 0, 64),
            info: Color::Rgb(0, 200, 255),
            border: Color::Rgb(255, 0, 128),
            selection_bg: Color::Rgb(255, 0, 128),
            selection_fg: Color::Rgb(255, 255, 255),
            muted: Color::Rgb(128, 0, 128),
            highlight: Color::Rgb(0, 255, 255),
        }
    }

    fn minimal(is_dark: bool) -> (r: Theme)
        ensures
            r.name is Minimal,
            r.mode == if is_dark {
                ThemeMode::Dark
            } else {
                ThemeMode::Light
            },
    {
        if is_dark {
            Theme {
                name: ThemeName::Minimal,
                mode: ThemeMode::Dark,
                bg: Color::Rgb(24, 24, 24),
                fg: Color::Rgb(240, 240, 240),
                accent: Color::Rgb(100, 100, 100),
                accent_secondary: Color::Rgb(160, 160, 160),
                success: Color::Rgb(100, 180, 100),
                warning: Color::Rgb(220, 180, 80),
                error: Color::Rgb(220, 80, 80),
                info: Color::Rgb(80, 160, 220),
                border: Color::Rgb(60, 60, 60),
                selection_bg: Color::Rgb(60, 60, 60),
                selection_fg: Color::Rgb(255, 255, 255),
                muted: Color::Rgb(100, 100, 100),
                highlight: Color::Rgb(160, 160, 160),
            }
        } else {
            Theme {
                name: ThemeName::Minimal,
                mode: ThemeMode::Light,
                bg: Color::Rgb(250, 250, 250),
                fg: Color::Rgb(30, 30, 30),
                accent: Color::Rgb(100, 100, 100),
                accent_secondary: Color::Rgb(60, 60, 60),
                success: Color::Rgb(40, 120, 40),
                warning: Color::Rgb(180, 140, 40),
                error: Color::Rgb(180, 40, 40),
                info: Color::Rgb(40, 100, 180),
                border: Color::Rgb(200, 200, 200),
                selection_bg: Color::Rgb(220, 220, 220),
                selection_fg: Color::Rgb(30, 30, 30),
                muted: Color::Rgb(140, 140, 140),
                highlight: Color::Rgb(60, 60, 60),
            }
        }
    }

    fn nordic(is_dark: bool) -> (r: Theme)
        ensures
            r.name is Nordic,
            r.mode == if is_dark {
                ThemeMode::Dark
            } else {
                ThemeMode::Light
            },
    {
        if is_dark {
            Theme {
                name: ThemeName::Nordic,
                mode: ThemeMode::Dark,
                bg: Color::Rgb(46, 52, 64),
                fg: Color::Rgb(236, 239, 244),
                accent: Color::Rgb(136, 192, 208),
                accent_secondary: Color::Rgb(129, 161, 193),
                success: Color::Rgb(163, 190, 140),
                warning: Color::Rgb(235, 203, 139),
                error: Color::Rgb(191, 97, 106),
                info: Color::Rgb(94, 129, 172),
                border: Color::Rgb(67, 76, 94),
                selection_bg: Color::Rgb(67, 76, 94),
                selection_fg: Color::Rgb(236, 239, 244),
                muted: Color::Rgb(76, 86, 106),
                highlight: Color::Rgb(180, 142, 173),
            }
        } else {
            Theme {
                name: ThemeName::Nordic,
                mode: ThemeMode::Light,
                bg: Color::Rgb(236, 239, 244),
                fg: Color::Rgb(46, 52, 64),
                accent: Color::Rgb(94, 129, 172),
                accent_secondary: Color::Rgb(129, 161, 193),
                success: Color::Rgb(143, 170, 120),
                warning: Color::Rgb(215, 153, 33),
                error: Color::Rgb(191, 97, 106),
                info: Color::Rgb(94, 129, 172),
                border: Color::Rgb(216, 222, 233),
                selection_bg: Color::Rgb(216, 222, 233),
                selection_fg: Color::Rgb(46, 52, 64),
                muted: Color::Rgb(76, 86, 106),
                highlight: Color::Rgb(180, 142, 173),
            }
        }
    }
}

impl Default for Theme {
    fn default() -> (r: Self)
        ensures
            r.name is Kinetic,
            r.mode is Dark,
    {
        Theme::new(ThemeName::Kinetic, ThemeMode::Dark)
    }
}

} // verus!
