use crossterm::style::{Color, SetBackgroundColor, SetForegroundColor};
use crossterm::Command;
use titan_terminal::style::{accent_escape, banner_render, logo_text, prompt_render, reset_render};

fn ansi_of(cmd: &impl Command) -> String {
    let mut s = String::new();
    cmd.write_ansi(&mut s).unwrap();
    s
}

#[test]
fn accent_escape_matches_crossterm_for_the_fixed_orange() {
    let expected = ansi_of(&SetForegroundColor(Color::Rgb { r: 255, g: 165, b: 0 }));
    assert_eq!(accent_escape(), expected);
    assert!(expected == "\u{1b}[38;2;255;165;0m" || expected == "\u{1b}[m");
}

#[test]
fn prompt_is_the_accent_escape_followed_by_the_label() {
    let accent = ansi_of(&SetForegroundColor(Color::Rgb { r: 255, g: 165, b: 0 }));
    assert_eq!(prompt_render(), format!("{}Titan> ", accent));
    assert!(prompt_render().ends_with("Titan> "));
}

#[test]
fn reset_restores_foreground_then_background() {
    let fg = ansi_of(&SetForegroundColor(Color::Reset));
    let bg = ansi_of(&SetBackgroundColor(Color::Reset));
    assert_eq!(reset_render(), format!("{}{}", fg, bg));
    assert!(fg == "\u{1b}[39m" || fg == "\u{1b}[m");
    assert!(bg == "\u{1b}[49m" || bg == "\u{1b}[m");
}

#[test]
fn banner_wraps_the_logo_in_black_background_and_accent() {
    let black = ansi_of(&SetBackgroundColor(Color::Black));
    let accent = ansi_of(&SetForegroundColor(Color::Rgb { r: 255, g: 165, b: 0 }));
    let fg_reset = ansi_of(&SetForegroundColor(Color::Reset));
    let bg_reset = ansi_of(&SetBackgroundColor(Color::Reset));
    let expected = format!("{}{}{}\n{}{}", black, accent, logo_text(), fg_reset, bg_reset);
    assert_eq!(banner_render(), expected);
    assert!(black == "\u{1b}[48;5;0m" || black == "\u{1b}[m");
}

#[test]
fn logo_is_the_fixed_banner() {
    let logo = logo_text();
    assert_eq!(logo.lines().count(), 16);
    assert!(logo.starts_with('\n'));
    assert!(logo.contains("#TTTTT III TTTTT AAAAA N   N#"));
}
