//! Colour theme value object.
use vstd::prelude::*;

verus! {

/// The named terminal colours that a theme can use.
#[derive(Clone, Copy, Debug, PartialEq, Eq, Structural)]
pub enum NamedColor {
    Black,
    Red,
    Green,
    Yellow,
    Blue,
    Magenta,
    Cyan,
    White,
    LightBlack,
    LightRed,
    LightGreen,
    LightYellow,
    LightBlue,
    LightMagenta,
    LightCyan,
    LightWhite,
    Reset,
}

impl Default for NamedColor {
    fn default() -> (r: Self)
        ensures
            r == NamedColor::Reset,
    {
        NamedColor::Reset
    }
}

/// User-configurable colour theme for the terminal interface.
#[derive(Clone, Copy, Debug, PartialEq, Eq, Structural)]
pub struct ColourTheme {
    /// Border and title of the active (focused) panel.
    pub active_panel_border: NamedColor,
    /// Border and title of the inactive panel.
    pub inactive_panel_border: NamedColor,
    /// Foreground of the selected row (used when `selected_item_reverse` is false).
    pub selected_item_fg: NamedColor,
    /// Background of the selected row (used when `selected_item_reverse` is false).
    pub selected_item_bg: NamedColor,
    /// When true, the selected row is drawn reversed instead of with explicit fg/bg.
    pub selected_item_reverse: bool,
    /// Foreground of normal (non-selected) rows.
    pub normal_item_fg: NamedColor,
    /// Foreground of completed tasks and of completed lists.
    pub completed_task_fg: NamedColor,
}

/// The theme used when no configuration overrides it.
pub open spec fn default_theme() -> ColourTheme {
    ColourTheme {
        active_panel_border: NamedColor::LightCyan,
        inactive_panel_border: NamedColor::Reset,
        selected_item_fg: NamedColor::Reset,
        selected_item_bg: NamedColor::Reset,
        selected_item_reverse: true,
        normal_item_fg: NamedColor::Reset,
        completed_task_fg: NamedColor::Green,
    }
}

impl Default for ColourTheme {
    fn default() -> (r: Self)
        ensures
            r == default_theme(),
    {
        ColourTheme {
            active_panel_border: NamedColor::LightCyan,
            inactive_panel_border: NamedColor::Reset,
            selected_item_fg: NamedColor::Reset,
            selected_item_bg: NamedColor::Reset,
            selected_item_reverse: true,
            normal_item_fg: NamedColor::Reset,
            completed_task_fg: NamedColor::Green,
        }
    }
}

} // verus!
