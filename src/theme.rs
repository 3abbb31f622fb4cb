//! Color themes, as plain RGB values.
use vstd::prelude::*;
use crate::countdown::CountdownType;

verus! {

/// A color given by its red, green and blue parts.
#[derive(Clone, Copy, Debug, PartialEq, Eq, Structural)]
pub struct Rgb {
    pub r: u8,
    pub g: u8,
    pub b: u8,
}

/// The colors of the interface.
#[derive(Clone, Copy, Debug, PartialEq, Eq, Structural)]
pub struct Theme {
    pub background: Rgb,
    pub border: Rgb,
    pub text: Rgb,
    pub work_accent: Rgb,
    pub break_accent: Rgb,
}

impl Theme {
    /// The dark Catppuccin palette.
    pub fn catppuccin_mocha() -> (t: Self)
        ensures
            t.background == (Rgb { r: 30, g: 30, b: 46 }),
            t.border == (Rgb { r: 205, g: 214, b: 244 }),
            t.text == (Rgb { r: 205, g: 214, b: 244 }),
            t.work_accent == (Rgb { r: 166, g: 227, b: 161 }),
            t.break_accent == (Rgb { r: 137, g: 180, b: 250 }),
    {
        Theme {
            background: Rgb { r: 30, g: 30, b: 46 },
            border: Rgb { r: 205, g: 214, b: 244 },
            text: Rgb { r: 205, g: 214, b: 244 },
            work_accent: Rgb { r: 166, g: 227, b: 161 },
            break_accent: Rgb { r: 137, g: 180, b: 250 },
        }
    }

    /// The light Catppuccin palette.
    pub fn catppuccin_latte() -> (t: Self)
        ensures
            t.background == (Rgb { r: 239, g: 241, b: 245 }),
            t.border == (Rgb { r: 76, g: 79, b: 105 }),
            t.text == (Rgb { r: 76, g: 79, b: 105 }),
            t.work_accent == (Rgb { r: 64, g: 160, b: 43 }),
            t.break_accent == (Rgb { r: 30, g: 102, b: 245 }),
    {
        Theme {
            background: Rgb { r: 239, g: 241, b: 245 },
            border: Rgb { r: 76, g: 79, b: 105 },
            text: Rgb { r: 76, g: 79, b: 105 },
            work_accent: Rgb { r: 64, g: 160, b: 43 },
            break_accent: Rgb { r: 30, g: 102, b: 245 },
        }
    }

    /// The accent of a phase: its gauge and its big clock are drawn in it.
    pub fn countdown_color(&self, countdown_type: &CountdownType) -> (c: Rgb)
        ensures
            c == (match *countdown_type {
                CountdownType::Work => self.work_accent,
                CountdownType::Break => self.break_accent,
            }),
    {
        match countdown_type {
            CountdownType::Work => self.work_accent,
            CountdownType::Break => self.break_accent,
        }
    }

    /// The gauge's foreground and background colors in a phase.
    pub fn gauge_colors(&self, countdown_type: &CountdownType) -> (c: (Rgb, Rgb))
        ensures
            c.0 == (match *countdown_type {
                CountdownType::Work => self.work_accent,
                CountdownType::Break => self.break_accent,
            }),
            c.1 == self.background,
    {
        (self.countdown_color(countdown_type), self.background)
    }
}

} // verus!
