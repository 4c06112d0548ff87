//! Theme selection: the light/dark/system mode cycle and the fixed editor
//! color palettes for each mode.

use vstd::prelude::*;

verus! {

/// Which theme the user asked for: the system's choice, or light or dark
/// explicitly.
#[derive(Clone, Copy, Debug, PartialEq, Eq, Structural)]
pub enum ThemeMode {
    System,
    Light,
    Dark,
}

impl Default for ThemeMode {
    /// The initial mode follows the system.
    fn default() -> (m: ThemeMode)
        ensures
            m == ThemeMode::System,
    {
        ThemeMode::System
    }
}

impl ThemeMode {
    /// The mode's display name.
    pub fn name(&self) -> (r: &'static str)
        ensures
            *self == ThemeMode::System ==> r@ == "System"@,
            *self == ThemeMode::Light ==> r@ == "Light"@,
            *self == ThemeMode::Dark ==> r@ == "Dark"@,
    {
        match self {
            ThemeMode::System => "System",
            ThemeMode::Light => "Light",
            ThemeMode::Dark => "Dark",
        }
    }

    /// Whether the mode renders dark, given whether the system is dark.
    pub fn is_dark(&self, system_dark: bool) -> (r: bool)
        ensures
            r == (*self == ThemeMode::Dark || (*self == ThemeMode::System && system_dark)),
    {
        match self {
            ThemeMode::System => system_dark,
            ThemeMode::Light => false,
            ThemeMode::Dark => true,
        }
    }

    /// The mode after this one in the cycle System, Light, Dark, System, ...
    pub fn next(&self) -> (r: ThemeMode)
        ensures
            *self == ThemeMode::System ==> r == ThemeMode::Light,
            *self == ThemeMode::Light ==> r == ThemeMode::Dark,
            *self == ThemeMode::Dark ==> r == ThemeMode::System,
    {
        match self {
            ThemeMode::System => ThemeMode::Light,
            ThemeMode::Light => ThemeMode::Dark,
            ThemeMode::Dark => ThemeMode::System,
        }
    }
}

/// An RGBA color of a palette entry.
#[derive(Clone, Copy, Debug, PartialEq, Eq, Structural)]
pub struct Rgba {
    pub r: u8,
    pub g: u8,
    pub b: u8,
    pub a: u8,
}

/// The editor's color palette for one mode.
#[derive(Clone, Copy, Debug, PartialEq, Eq, Structural)]
pub struct ThemeColors {
    pub background: Rgba,
    pub text: Rgba,
    pub dim_text: Rgba,
    pub accent: Rgba,
    pub selection: Rgba,
    pub line_number: Rgba,
    pub line_number_bg: Rgba,
    pub gutter_bg: Rgba,
    pub current_line_bg: Rgba,
}

/// A fully opaque color from its RGB components.
pub open spec fn opaque(r: u8, g: u8, b: u8) -> Rgba {
    Rgba { r, g, b, a: 0xff }
}

fn rgb(r: u8, g: u8, b: u8) -> (c: Rgba)
    ensures
        c == opaque(r, g, b),
{
    Rgba { r, g, b, a: 0xff }
}

impl ThemeColors {
    /// The dark palette.
    pub fn dark() -> (c: ThemeColors)
        ensures
            c == ThemeColors::dark_spec(),
    {
        ThemeColors {
            background: rgb(0x1e, 0x1e, 0x1e),
            text: rgb(0xd4, 0xd4, 0xd4),
            dim_text: rgb(0x80, 0x80, 0x80),
            accent: rgb(0x56, 0x9c, 0xd6),
            selection: Rgba { r: 0x26, g: 0x4f, b: 0x78, a: 0x80 },
            line_number: rgb(0x85, 0x85, 0x85),
            line_number_bg: rgb(0x1e, 0x1e, 0x1e),
            gutter_bg: rgb(0x25, 0x25, 0x26),
            current_line_bg: Rgba { r: 0xff, g: 0xff, b: 0xff, a: 0x08 },
        }
    }

    /// The light palette.
    pub fn light() -> (c: ThemeColors)
        ensures
            c == ThemeColors::light_spec(),
    {
        ThemeColors {
            background: rgb(0xff, 0xff, 0xff),
            text: rgb(0x33, 0x33, 0x33),
            dim_text: rgb(0x80, 0x80, 0x80),
            accent: rgb(0x00, 0x66, 0xcc),
            selection: Rgba { r: 0xad, g: 0xd6, b: 0xff, a: 0x80 },
            line_number: rgb(0x9e, 0x9e, 0x9e),
            line_number_bg: rgb(0xff, 0xff, 0xff),
            gutter_bg: rgb(0xf5, 0xf5, 0xf5),
            current_line_bg: Rgba { r: 0x00, g: 0x00, b: 0x00, a: 0x08 },
        }
    }

    /// The palette for a mode: dark exactly when the mode renders dark under
    /// the given system setting.
    pub fn for_mode(mode: ThemeMode, system_dark: bool) -> (c: ThemeColors)
        ensures
            (mode == ThemeMode::Dark || (mode == ThemeMode::System && system_dark)) ==> c
                == ThemeColors::dark_spec(),
            !(mode == ThemeMode::Dark || (mode == ThemeMode::System && system_dark)) ==> c
                == ThemeColors::light_spec(),
    {
        if mode.is_dark(system_dark) {
            ThemeColors::dark()
        } else {
            ThemeColors::light()
        }
    }

    /// The dark palette as a value.
    pub open spec fn dark_spec() -> ThemeColors {
        ThemeColors {
            background: opaque(0x1e, 0x1e, 0x1e),
            text: opaque(0xd4, 0xd4, 0xd4),
            dim_text: opaque(0x80, 0x80, 0x80),
            accent: opaque(0x56, 0x9c, 0xd6),
            selection: Rgba { r: 0x26, g: 0x4f, b: 0x78, a: 0x80 },
            line_number: opaque(0x85, 0x85, 0x85),
            line_number_bg: opaque(0x1e, 0x1e, 0x1e),
            gutter_bg: opaque(0x25, 0x25, 0x26),
            current_line_bg: Rgba { r: 0xff, g: 0xff, b: 0xff, a: 0x08 },
        }
    }

    /// The light palette as a value.
    pub open spec fn light_spec() -> ThemeColors {
        ThemeColors {
            background: opaque(0xff, 0xff, 0xff),
            text: opaque(0x33, 0x33, 0x33),
            dim_text: opaque(0x80, 0x80, 0x80),
            accent: opaque(0x00, 0x66, 0xcc),
            selection: Rgba { r: 0xad, g: 0xd6, b: 0xff, a: 0x80 },
            line_number: opaque(0x9e, 0x9e, 0x9e),
            line_number_bg: opaque(0xff, 0xff, 0xff),
            gutter_bg: opaque(0xf5, 0xf5, 0xf5),
            current_line_bg: Rgba { r: 0x00, g: 0x00, b: 0x00, a: 0x08 },
        }
    }

}

} // verus!
