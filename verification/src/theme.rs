//! The colours of the interface.

use vstd::prelude::*;

use crate::text::same_text;

verus! {

/// A colour: red, green, blue, and how opaque it is, not premultiplied.
#[derive(Clone, Copy, Debug, PartialEq, Eq, Structural)]
pub struct Rgba {
    pub r: u8,
    pub g: u8,
    pub b: u8,
    pub a: u8,
}

/// A colour in numbers.
pub open spec fn rgba(r: u8, g: u8, b: u8, a: u8) -> Rgba {
    Rgba { r, g, b, a }
}

/// A palette.
#[derive(Clone, Copy, Debug, PartialEq, Eq, Structural)]
pub struct Theme {
    pub is_light: bool,
    pub background: Rgba,
    pub surface: Rgba,
    pub surface_light: Rgba,
    pub border: Rgba,
    pub primary: Rgba,
    pub text_primary: Rgba,
    pub text_secondary: Rgba,
    pub text_dim: Rgba,
    pub success: Rgba,
    pub warning: Rgba,
    pub error: Rgba,
    pub accent: Rgba,
    pub selected_bg: Rgba,
    pub panel_bg: Rgba,
    // Chat bubble colors
    pub user_bg: Rgba,
    pub ai_bg: Rgba,
    pub tool_bg: Rgba,
    // Chat chrome (borders, code blocks, badges, separators)
    pub bubble_border: Rgba,
    pub code_bg: Rgba,
    pub code_border: Rgba,
    pub code_text: Rgba,
    pub divider: Rgba,
    pub hover_bg: Rgba,
    pub badge_bg: Rgba,
    pub badge_text: Rgba,
}

/// Dark theme: subtle, layered greys with a single blue accent.
pub open spec fn dark_theme() -> Theme {
    Theme {
        is_light: false,
        background: rgba(15, 16, 18, 255),
        surface: rgba(22, 23, 26, 255),
        surface_light: rgba(32, 33, 37, 255),
        border: rgba(48, 50, 56, 255),
        primary: rgba(59, 130, 246, 255),
        text_primary: rgba(235, 238, 242, 255),
        text_secondary: rgba(150, 158, 170, 255),
        text_dim: rgba(108, 116, 128, 255),
        success: rgba(52, 199, 123, 255),
        warning: rgba(251, 191, 36, 255),
        error: rgba(239, 91, 91, 255),
        accent: rgba(96, 165, 250, 255),
        selected_bg: rgba(59, 130, 246, 255),
        panel_bg: rgba(22, 23, 26, 255),
        user_bg: rgba(37, 99, 235, 255),
        ai_bg: rgba(28, 29, 33, 255),
        tool_bg: rgba(26, 32, 28, 255),
        bubble_border: rgba(52, 54, 60, 255),
        code_bg: rgba(12, 13, 15, 255),
        code_border: rgba(38, 40, 45, 255),
        code_text: rgba(206, 210, 218, 255),
        divider: rgba(40, 42, 47, 255),
        hover_bg: rgba(255, 255, 255, 16),
        badge_bg: rgba(35, 45, 66, 255),
        badge_text: rgba(147, 197, 253, 255),
    }
}

/// Light theme: white cards on a soft grey background.
pub open spec fn light_theme() -> Theme {
    Theme {
        is_light: true,
        background: rgba(243, 244, 246, 255),
        surface: rgba(255, 255, 255, 255),
        surface_light: rgba(236, 238, 240, 255),
        border: rgba(214, 217, 221, 255),
        primary: rgba(37, 99, 235, 255),
        text_primary: rgba(24, 26, 30, 255),
        text_secondary: rgba(82, 90, 100, 255),
        text_dim: rgba(130, 138, 148, 255),
        success: rgba(21, 150, 76, 255),
        warning: rgba(202, 138, 4, 255),
        error: rgba(200, 45, 45, 255),
        accent: rgba(37, 99, 235, 255),
        selected_bg: rgba(37, 99, 235, 255),
        panel_bg: rgba(255, 255, 255, 255),
        user_bg: rgba(37, 99, 235, 255),
        ai_bg: rgba(255, 255, 255, 255),
        tool_bg: rgba(238, 246, 235, 255),
        bubble_border: rgba(218, 220, 224, 255),
        code_bg: rgba(244, 245, 247, 255),
        code_border: rgba(220, 222, 226, 255),
        code_text: rgba(40, 44, 52, 255),
        divider: rgba(214, 217, 221, 255),
        hover_bg: rgba(0, 0, 0, 16),
        badge_bg: rgba(222, 232, 250, 255),
        badge_text: rgba(30, 80, 210, 255),
    }
}

/// The theme of this name; every name but the light one is the dark one.
pub open spec fn theme_named(name: Seq<char>) -> Theme {
    if name == "light"@ {
        light_theme()
    } else {
        dark_theme()
    }
}

fn color(r: u8, g: u8, b: u8, a: u8) -> (c: Rgba)
    ensures
        c == rgba(r, g, b, a),
{
    Rgba { r, g, b, a }
}

impl Theme {
    /// The theme of this name; every name but the light one is the dark one.
    pub fn from_name(name: &str) -> (r: Self)
        ensures
            r == theme_named(name@),
    {
        if same_text(name, "light") {
            Theme::light()
        } else {
            Theme::dark()
        }
    }

    /// Dark theme: subtle, layered greys with a single blue accent.
    pub fn dark() -> (r: Self)
        ensures
            r == dark_theme(),
    {
        Theme {
            is_light: false,
            background: color(15, 16, 18, 255),
            surface: color(22, 23, 26, 255),
            surface_light: color(32, 33, 37, 255),
            border: color(48, 50, 56, 255),
            primary: color(59, 130, 246, 255),
            text_primary: color(235, 238, 242, 255),
            text_secondary: color(150, 158, 170, 255),
            text_dim: color(108, 116, 128, 255),
            success: color(52, 199, 123, 255),
            warning: color(251, 191, 36, 255),
            error: color(239, 91, 91, 255),
            accent: color(96, 165, 250, 255),
            selected_bg: color(59, 130, 246, 255),
            panel_bg: color(22, 23, 26, 255),
            user_bg: color(37, 99, 235, 255),
            ai_bg: color(28, 29, 33, 255),
            tool_bg: color(26, 32, 28, 255),
            bubble_border: color(52, 54, 60, 255),
            code_bg: color(12, 13, 15, 255),
            code_border: color(38, 40, 45, 255),
            code_text: color(206, 210, 218, 255),
            divider: color(40, 42, 47, 255),
            hover_bg: color(255, 255, 255, 16),
            badge_bg: color(35, 45, 66, 255),
            badge_text: color(147, 197, 253, 255),
        }
    }

    /// Light theme: white cards on a soft grey background.
    pub fn light() -> (r: Self)
        ensures
            r == light_theme(),
    {
        Theme {
            is_light: true,
            background: color(243, 244, 246, 255),
            surface: color(255, 255, 255, 255),
            surface_light: color(236, 238, 240, 255),
            border: color(214, 217, 221, 255),
            primary: color(37, 99, 235, 255),
            text_primary: color(24, 26, 30, 255),
            text_secondary: color(82, 90, 100, 255),
            text_dim: color(130, 138, 148, 255),
            success: color(21, 150, 76, 255),
            warning: color(202, 138, 4, 255),
            error: color(200, 45, 45, 255),
            accent: color(37, 99, 235, 255),
            selected_bg: color(37, 99, 235, 255),
            panel_bg: color(255, 255, 255, 255),
            user_bg: color(37, 99, 235, 255),
            ai_bg: color(255, 255, 255, 255),
            tool_bg: color(238, 246, 235, 255),
            bubble_border: color(218, 220, 224, 255),
            code_bg: color(244, 245, 247, 255),
            code_border: color(220, 222, 226, 255),
            code_text: color(40, 44, 52, 255),
            divider: color(214, 217, 221, 255),
            hover_bg: color(0, 0, 0, 16),
            badge_bg: color(222, 232, 250, 255),
            badge_text: color(30, 80, 210, 255),
        }
    }

    /// The name of the theme.
    pub fn name(&self) -> (r: &'static str)
        ensures
            r@ == theme_name(*self),
    {
        if self.is_light {
            "light"
        } else {
            "dark"
        }
    }
}

/// The name of a theme.
pub open spec fn theme_name(t: Theme) -> Seq<char> {
    if t.is_light {
        "light"@
    } else {
        "dark"@
    }
}

/// A theme is found again by its name.
pub proof fn a_theme_is_found_by_its_name(name: Seq<char>)
    ensures
        theme_named(theme_name(theme_named(name))) == theme_named(name),
{
    reveal_strlit("light");
    reveal_strlit("dark");
    assert("light"@.len() != "dark"@.len());
}

} // verus!
