use vstd::prelude::*;

verus! {

/// The named colors a theme can pick.
#[derive(Clone, Copy, Debug, PartialEq, Eq, Structural)]
pub enum Color {
    Default,
    Black,
    GrayDark,
    GrayLight,
    White,
    Red,
    Yellow,
    Green,
    Cyan,
    Blue,
    Magenta,
    BrightRed,
    BrightYellow,
    BrightGreen,
    BrightCyan,
    BrightBlue,
    BrightMagenta,
}

/// The colors and weight one row is drawn with.
#[derive(Clone, Copy, Debug, PartialEq, Eq, Structural)]
pub struct Theme {
    pub color_base: Color,
    pub color_selected: Color,
    pub is_selected: bool,
    pub bold: bool,
}

impl Theme {
    /// The same theme with another base color.
    pub fn recolor(&self, color: Color) -> (r: Theme)
        ensures
            r == (Theme { color_base: color, ..*self }),
    {
        Theme {
            color_base: color,
            color_selected: self.color_selected,
            is_selected: self.is_selected,
            bold: self.bold,
        }
    }
}

} // verus!
