//! Terminal styling: the ANSI escapes around the banner and the prompt.
//! crossterm renders each escape; its output also depends on whether color
//! is disabled through the NO_COLOR environment setting, so every contract
//! here admits the degenerate escape as the other outcome.

use vstd::prelude::*;

verus! {

use vstd::string::StringExecFns;

/// A decimal digit as a character.
pub open spec fn dec_digit(d: u8) -> char {
    if d == 0 {
        '0'
    } else if d == 1 {
        '1'
    } else if d == 2 {
        '2'
    } else if d == 3 {
        '3'
    } else if d == 4 {
        '4'
    } else if d == 5 {
        '5'
    } else if d == 6 {
        '6'
    } else if d == 7 {
        '7'
    } else if d == 8 {
        '8'
    } else {
        '9'
    }
}

/// The decimal rendering of a byte, without leading zeros.
pub open spec fn dec_u8(n: u8) -> Seq<char> {
    if n < 10 {
        seq![dec_digit(n)]
    } else if n < 100 {
        seq![dec_digit(n / 10), dec_digit(n % 10)]
    } else {
        seq![dec_digit(n / 100), dec_digit((n / 10) % 10), dec_digit(n % 10)]
    }
}

/// The control-sequence introducer every escape starts with.
pub open spec fn csi_seq() -> Seq<char> {
    "\u{1b}["@
}

/// The escape emitted when color output is disabled: the introducer and the
/// terminator with nothing between them.
pub open spec fn disabled_escape() -> Seq<char> {
    csi_seq() + "m"@
}

/// The truecolor foreground escape for an RGB triple.
pub open spec fn fg_rgb_escape(rr: u8, gg: u8, bb: u8) -> Seq<char> {
    csi_seq() + "38;2;"@ + dec_u8(rr) + ";"@ + dec_u8(gg) + ";"@ + dec_u8(bb) + "m"@
}

/// The escape restoring the default foreground color.
pub open spec fn fg_reset_escape() -> Seq<char> {
    csi_seq() + "39m"@
}

/// The escape setting the background to the palette's black.
pub open spec fn bg_black_escape() -> Seq<char> {
    csi_seq() + "48;5;0m"@
}

/// The escape restoring the default background color.
pub open spec fn bg_reset_escape() -> Seq<char> {
    csi_seq() + "49m"@
}

/// Relies on crossterm's `SetForegroundColor::write_ansi`: between the CSI
/// introducer and the `m` terminator it writes `38;2;r;g;b` for an RGB
/// color, `39` for the reset, and nothing at all when color output is
/// disabled through the NO_COLOR environment setting.
#[verifier::external_body]
fn fg_escape(rgb: Option<(u8, u8, u8)>) -> (r: String)
    ensures
        match rgb {
            Some(t) => r@ == fg_rgb_escape(t.0, t.1, t.2) || r@ == disabled_escape(),
            None => r@ == fg_reset_escape() || r@ == disabled_escape(),
        },
{
    let color = match rgb {
        Some((cr, cg, cb)) => crossterm::style::Color::Rgb { r: cr, g: cg, b: cb },
        None => crossterm::style::Color::Reset,
    };
    let mut out = String::new();
    let _ = crossterm::Command::write_ansi(&crossterm::style::SetForegroundColor(color), &mut out);
    out
}

/// Relies on crossterm's `SetBackgroundColor::write_ansi`: between the CSI
/// introducer and the `m` terminator it writes `48;5;0` for black, `49` for
/// the reset, and nothing at all when color output is disabled through the
/// NO_COLOR environment setting.
#[verifier::external_body]
fn bg_escape(black: bool) -> (r: String)
    ensures
        black ==> r@ == bg_black_escape() || r@ == disabled_escape(),
        !black ==> r@ == bg_reset_escape() || r@ == disabled_escape(),
{
    let color = if black {
        crossterm::style::Color::Black
    } else {
        crossterm::style::Color::Reset
    };
    let mut out = String::new();
    let _ = crossterm::Command::write_ansi(&crossterm::style::SetBackgroundColor(color), &mut out);
    out
}

/// The accent escape, or the degenerate escape when color is disabled.
pub open spec fn accent_or_disabled(s: Seq<char>) -> bool {
    s == fg_rgb_escape(255, 165, 0) || s == disabled_escape()
}

/// The foreground-reset escape, or the degenerate escape.
pub open spec fn fg_reset_or_disabled(s: Seq<char>) -> bool {
    s == fg_reset_escape() || s == disabled_escape()
}

/// The background-black escape, or the degenerate escape.
pub open spec fn bg_black_or_disabled(s: Seq<char>) -> bool {
    s == bg_black_escape() || s == disabled_escape()
}

/// The background-reset escape, or the degenerate escape.
pub open spec fn bg_reset_or_disabled(s: Seq<char>) -> bool {
    s == bg_reset_escape() || s == disabled_escape()
}

/// Sets the foreground to the fixed orange accent.
pub fn accent_escape() -> (r: String)
    ensures
        accent_or_disabled(r@),
{
    fg_escape(Some((255, 165, 0)))
}

/// The full styling reset emitted after each dispatch: foreground first,
/// background second.
pub open spec fn reset_render_ok(s: Seq<char>) -> bool {
    exists|a: Seq<char>, b: Seq<char>|
        s == #[trigger] (a + b) && fg_reset_or_disabled(a) && bg_reset_or_disabled(b)
}

pub fn reset_render() -> (r: String)
    ensures
        reset_render_ok(r@),
{
    let f = fg_escape(None);
    let b = bg_escape(false);
    let r = f.concat(b.as_str());
    proof {
        assert(r@ == f@ + b@ && fg_reset_or_disabled(f@) && bg_reset_or_disabled(b@));
    }
    r
}

/// The prompt as one emission: the accent escape directly followed by the
/// prompt label, so every prompt starts with the accent color.
pub open spec fn prompt_render_ok(s: Seq<char>) -> bool {
    exists|a: Seq<char>| s == #[trigger] (a + "Titan> "@) && accent_or_disabled(a)
}

pub fn prompt_render() -> (r: String)
    ensures
        prompt_render_ok(r@),
{
    let a = accent_escape();
    let r = a.concat("Titan> ");
    proof {
        assert(r@ == a@ + "Titan> "@ && accent_or_disabled(a@));
    }
    r
}

/// The fixed banner logo.
pub open spec fn logo_seq() -> Seq<char> {
    "\n ###########################              \n#TTTTT III TTTTT AAAAA N   N#                \n#  T    I    T   AAAAA N N N#                 \n#  T    I    T   A   A N  NN#              \n#  T   III   T   A   A N   N#\n############################\n          ########\n           ########\n            ########\n             ########\n              ########\n               ########\n                ########\n                 ########\n    "@
}

pub fn logo_text() -> (r: String)
    ensures
        r@ == logo_seq(),
{
    String::from_str(
        "\n ###########################              \n#TTTTT III TTTTT AAAAA N   N#                \n#  T    I    T   AAAAA N N N#                 \n#  T    I    T   A   A N  NN#              \n#  T   III   T   A   A N   N#\n############################\n          ########\n           ########\n            ########\n             ########\n              ########\n               ########\n                ########\n                 ########\n    ",
    )
}

/// The banner as one emission: the logo and its trailing newline stand
/// between a background-black push and a full reset, foreground first.
pub open spec fn banner_render_ok(s: Seq<char>) -> bool {
    exists|k: Seq<char>, a: Seq<char>, f: Seq<char>, b: Seq<char>|
        s == #[trigger] (k + a + logo_seq() + "\n"@ + f + b) && bg_black_or_disabled(k)
            && accent_or_disabled(a) && fg_reset_or_disabled(f) && bg_reset_or_disabled(b)
}

pub fn banner_render() -> (r: String)
    ensures
        banner_render_ok(r@),
{
    let k = bg_escape(true);
    let a = accent_escape();
    let f = fg_escape(None);
    let b = bg_escape(false);
    let r = k.concat(a.as_str()).concat(logo_text().as_str()).concat("\n").concat(
        f.as_str(),
    ).concat(b.as_str());
    proof {
        assert(r@ == k@ + a@ + logo_seq() + "\n"@ + f@ + b@ && bg_black_or_disabled(k@)
            && accent_or_disabled(a@) && fg_reset_or_disabled(f@) && bg_reset_or_disabled(b@));
    }
    r
}

} // verus!
