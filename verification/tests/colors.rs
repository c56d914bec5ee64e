use rustygitprompt::colors::blue;
use rustygitprompt::colors::green;
use rustygitprompt::colors::magenta;
use rustygitprompt::colors::red;
use rustygitprompt::colors::yellow;
use rustygitprompt::settings::Shell;

#[test]
fn plain_scheme_is_identity() {
    assert_eq!(red("x".to_string(), Shell::Plain), "x");
    assert_eq!(green("abc".to_string(), Shell::Plain), "abc");
    assert_eq!(blue(String::new(), Shell::Plain), "");
    assert_eq!(yellow("↑".to_string(), Shell::Plain), "↑");
    assert_eq!(magenta("m".to_string(), Shell::Plain), "m");
}

#[test]
fn zsh_scheme_wraps_in_prompt_directives() {
    assert_eq!(red("x".to_string(), Shell::Zsh), "%F{red}x%f");
    assert_eq!(green("x".to_string(), Shell::Zsh), "%F{green}x%f");
    assert_eq!(blue("x".to_string(), Shell::Zsh), "%F{blue}x%f");
    assert_eq!(yellow("x".to_string(), Shell::Zsh), "%F{yellow}x%f");
    assert_eq!(magenta("✗".to_string(), Shell::Zsh), "%F{magenta}✗%f");
}

#[test]
fn ansi_scheme_wraps_in_escape_codes() {
    assert_eq!(red("x".to_string(), Shell::ANSI), "\u{1b}[31mx\u{1b}[0m");
    assert_eq!(green("x".to_string(), Shell::ANSI), "\u{1b}[32mx\u{1b}[0m");
    assert_eq!(yellow("x".to_string(), Shell::ANSI), "\u{1b}[33mx\u{1b}[0m");
    assert_eq!(blue("x".to_string(), Shell::ANSI), "\u{1b}[34mx\u{1b}[0m");
    assert_eq!(magenta("x".to_string(), Shell::ANSI), "\u{1b}[35mx\u{1b}[0m");
}

#[test]
fn ansi_scheme_agrees_with_ansi_term() {
    assert_eq!(
        blue("U".to_string(), Shell::ANSI),
        ansi_term::Colour::Blue.paint("U").to_string()
    );
    assert_eq!(
        magenta("↔".to_string(), Shell::ANSI),
        ansi_term::Colour::Purple.paint("↔").to_string()
    );
}
