//! The render configuration: numeral style, color scheme and the label used
//! for the main-line branch. It is built once at startup and passed read-only
//! into every component.
use vstd::prelude::*;

verus! {

/// The glyph set used to render integer counts.
#[derive(Clone, Copy, PartialEq, Eq, Structural, Debug)]
pub enum IconListFormat {
    Superscript,
    Subscript,
    Digits,
}

/// The output scheme for color decoration: no decoration, ANSI terminal
/// escape codes, or zsh prompt color directives.
#[derive(Clone, Copy, PartialEq, Eq, Structural, Debug)]
pub enum Shell {
    Plain,
    Zsh,
    ANSI,
}

/// The immutable render configuration.
pub struct Settings {
    pub icon_list_format: IconListFormat,
    pub shell: Shell,
    pub master_branch_label: String,
}

impl Settings {
    /// The default configuration: plain digits, no color, main-line label `m`.
    pub fn new_default() -> (r: Settings)
        ensures
            r.icon_list_format == IconListFormat::Digits,
            r.shell == Shell::Plain,
            r.master_branch_label@ == "m"@,
    {
        Settings {
            icon_list_format: IconListFormat::Digits,
            shell: Shell::Plain,
            master_branch_label: String::from_str("m"),
        }
    }
}

} // verus!
