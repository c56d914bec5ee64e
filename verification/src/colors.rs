//! The color and decoration provider: wraps text in the color directives of
//! the configured output scheme. Under the plain scheme decoration is the
//! identity; under the ANSI scheme the text is wrapped in terminal escape
//! codes through `ansi_term`; under the zsh scheme it is wrapped in the
//! shell's prompt-safe `%F{...}`/`%f` directives.
use crate::settings::Shell;
use vstd::prelude::*;
use vstd::string::StringExecFns;

verus! {

/// The semantic colors the renderer uses.
#[derive(Clone, Copy, PartialEq, Eq, Structural, Debug)]
pub enum ColorName {
    Red,
    Green,
    Yellow,
    Blue,
    Magenta,
}

/// The ANSI escape sequence that starts the given foreground color.
pub open spec fn spec_ansi_prefix(color: ColorName) -> Seq<char> {
    match color {
        ColorName::Red => "\u{1b}[31m"@,
        ColorName::Green => "\u{1b}[32m"@,
        ColorName::Yellow => "\u{1b}[33m"@,
        ColorName::Blue => "\u{1b}[34m"@,
        ColorName::Magenta => "\u{1b}[35m"@,
    }
}

/// The zsh prompt directive that starts the given foreground color.
pub open spec fn spec_zsh_prefix(color: ColorName) -> Seq<char> {
    match color {
        ColorName::Red => "%F{red}"@,
        ColorName::Green => "%F{green}"@,
        ColorName::Yellow => "%F{yellow}"@,
        ColorName::Blue => "%F{blue}"@,
        ColorName::Magenta => "%F{magenta}"@,
    }
}

/// What decorating `text` with a color yields under each output scheme.
/// Under the plain scheme the text is unchanged: decoration is purely
/// additive.
pub open spec fn spec_decorate(shell: Shell, color: ColorName, text: Seq<char>) -> Seq<char> {
    match shell {
        Shell::Plain => text,
        Shell::Zsh => spec_zsh_prefix(color) + text + "%f"@,
        Shell::ANSI => spec_ansi_prefix(color) + text + "\u{1b}[0m"@,
    }
}

/// Relies on `ansi_term::Colour::paint` and the display of the painted
/// string: the result is the color's foreground escape code (`ESC [ 3x m`),
/// the text unchanged, then the reset code `ESC [ 0 m`.
#[verifier::external_body]
fn ansi_paint(color: ColorName, s: &str) -> (r: String)
    ensures
        r@ == spec_ansi_prefix(color) + s@ + "\u{1b}[0m"@,
{
    let c = match color {
        ColorName::Red => ansi_term::Colour::Red,
        ColorName::Green => ansi_term::Colour::Green,
        ColorName::Yellow => ansi_term::Colour::Yellow,
        ColorName::Blue => ansi_term::Colour::Blue,
        ColorName::Magenta => ansi_term::Colour::Purple,
    };
    c.paint(s).to_string()
}

/// The zsh color-start directive for the given color.
fn zsh_prefix(color: ColorName) -> (r: &'static str)
    ensures
        r@ == spec_zsh_prefix(color),
{
    match color {
        ColorName::Red => "%F{red}",
        ColorName::Green => "%F{green}",
        ColorName::Yellow => "%F{yellow}",
        ColorName::Blue => "%F{blue}",
        ColorName::Magenta => "%F{magenta}",
    }
}

/// Decorates `s` with the given color under the given output scheme.
pub fn decorate(s: String, color: ColorName, shell: Shell) -> (r: String)
    ensures
        r@ == spec_decorate(shell, color, s@),
{
    match shell {
        Shell::Plain => s,
        Shell::Zsh => {
            let mut r = String::from_str(zsh_prefix(color));
            r.append(s.as_str());
            r.append("%f");
            r
        },
        Shell::ANSI => ansi_paint(color, s.as_str()),
    }
}

/// Decorates `s` in red under the given output scheme.
pub fn red(s: String, shell: Shell) -> (r: String)
    ensures
        r@ == spec_decorate(shell, ColorName::Red, s@),
{
    decorate(s, ColorName::Red, shell)
}

/// Decorates `s` in green under the given output scheme.
pub fn green(s: String, shell: Shell) -> (r: String)
    ensures
        r@ == spec_decorate(shell, ColorName::Green, s@),
{
    decorate(s, ColorName::Green, shell)
}

/// Decorates `s` in blue under the given output scheme.
pub fn blue(s: String, shell: Shell) -> (r: String)
    ensures
        r@ == spec_decorate(shell, ColorName::Blue, s@),
{
    decorate(s, ColorName::Blue, shell)
}

/// Decorates `s` in yellow under the given output scheme.
pub fn yellow(s: String, shell: Shell) -> (r: String)
    ensures
        r@ == spec_decorate(shell, ColorName::Yellow, s@),
{
    decorate(s, ColorName::Yellow, shell)
}

/// Decorates `s` in magenta under the given output scheme.
pub fn magenta(s: String, shell: Shell) -> (r: String)
    ensures
        r@ == spec_decorate(shell, ColorName::Magenta, s@),
{
    decorate(s, ColorName::Magenta, shell)
}

} // verus!
