//! Text user-interface building blocks: ANSI-aware text measurement,
//! boxed text, headers and an arrow-key menu.
pub mod header;
pub mod menu;
pub mod utils;

use vstd::prelude::*;

verus! {

/// The escape sequence that resets colours.
pub const COLOR_RESET: &'static str = "\x1b[0m";

/// A menu entry.
#[derive(Clone)]
pub struct MenuOption {
    /// ANSI colour code.
    pub color_code: &'static str,
    /// True if selectable.
    pub enabled: bool,
    /// Display text.
    pub text: String,
}

impl MenuOption {
    /// A menu entry showing `text` in `color_code`.
    pub fn new(text: &str, enabled: bool, color_code: &'static str) -> (o: Self)
        ensures
            o.text@ == text@,
            o.enabled == enabled,
            o.color_code == color_code,
    {
        MenuOption { color_code, enabled, text: String::from_str(text) }
    }
}

} // verus!
