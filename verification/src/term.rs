//! Decimal formatting and the terminal escape sequences that the
//! renderer emits.
use vstd::prelude::*;

verus! {

/// The character for a single decimal digit.
pub open spec fn digit_char(d: nat) -> char {
    if d == 0 {
        '0'
    } else if d == 1 {
        '1'
    } else if d == 2 {
        '2'
    } else if d == 3 {
        '3'
    } else if d == 4 {
        '4'
    } else if d == 5 {
        '5'
    } else if d == 6 {
        '6'
    } else if d == 7 {
        '7'
    } else if d == 8 {
        '8'
    } else {
        '9'
    }
}

/// The decimal representation of `n`, most significant digit first,
/// with no leading zeros (`0` is written as the single digit `0`).
pub open spec fn dec_digits(n: nat) -> Seq<char>
    decreases n,
{
    if n < 10 {
        seq![digit_char(n)]
    } else {
        dec_digits(n / 10) + seq![digit_char(n % 10)]
    }
}

/// A one-character string for a single decimal digit.
fn digit_str(d: u16) -> (s: &'static str)
    requires
        d < 10,
    ensures
        s@ == seq![digit_char(d as nat)],
{
    proof {
        reveal_strlit("0");
        reveal_strlit("1");
        reveal_strlit("2");
        reveal_strlit("3");
        reveal_strlit("4");
        reveal_strlit("5");
        reveal_strlit("6");
        reveal_strlit("7");
        reveal_strlit("8");
        reveal_strlit("9");
    }
    match d {
        0 => "0",
        1 => "1",
        2 => "2",
        3 => "3",
        4 => "4",
        5 => "5",
        6 => "6",
        7 => "7",
        8 => "8",
        _ => "9",
    }
}

/// Formats `n` in decimal, as the terminal escape sequences require.
pub fn u16_to_string(n: u16) -> (s: String)
    ensures
        s@ == dec_digits(n as nat),
    decreases n,
{
    if n < 10 {
        String::from_str(digit_str(n))
    } else {
        let mut s = u16_to_string(n / 10);
        s.append(digit_str(n % 10));
        s
    }
}

/// The escape sequence that clears the whole screen.
pub open spec fn esc_clear_all() -> Seq<char> {
    "\x1b[2J"@
}

/// The escape sequence that selects a white foreground.
pub open spec fn esc_fg_white() -> Seq<char> {
    "\x1b[38;5;7m"@
}

/// The escape sequence that selects a red foreground.
pub open spec fn esc_fg_red() -> Seq<char> {
    "\x1b[38;5;1m"@
}

/// The escape sequence that turns on bold text.
pub open spec fn esc_bold() -> Seq<char> {
    "\x1b[1m"@
}

/// The escape sequence that resets all text attributes.
pub open spec fn esc_reset() -> Seq<char> {
    "\x1b[m"@
}

/// The escape sequence that moves the terminal cursor to column `x`,
/// row `y` (one-based), both written in decimal.
pub open spec fn esc_goto(x: u16, y: u16) -> Seq<char> {
    "\x1b["@ + dec_digits(y as nat) + ";"@ + dec_digits(x as nat) + "H"@
}

/// Relies on the `Display` impl of `termion::clear::All`, which writes
/// the escape sequence `"\x1b[2J"`.
#[verifier::external_body]
pub fn clear_all_string() -> (r: String)
    ensures
        r@ == esc_clear_all(),
{
    format!("{}", termion::clear::All)
}

/// Relies on the `Display` impl of `termion::color::Fg(White)`: it
/// writes the escape sequence `"\x1b[38;5;7m"`, or nothing at all when
/// the `NO_COLOR` environment variable has disabled color.
#[verifier::external_body]
pub fn fg_white_string() -> (r: String)
    ensures
        r@ == esc_fg_white() || r@ == Seq::<char>::empty(),
{
    format!("{}", termion::color::Fg(termion::color::White))
}

/// Relies on the `Display` impl of `termion::color::Fg(Red)`: it
/// writes the escape sequence `"\x1b[38;5;1m"`, or nothing at all when
/// the `NO_COLOR` environment variable has disabled color.
#[verifier::external_body]
pub fn fg_red_string() -> (r: String)
    ensures
        r@ == esc_fg_red() || r@ == Seq::<char>::empty(),
{
    format!("{}", termion::color::Fg(termion::color::Red))
}

/// Relies on the `Display` impl of `termion::style::Bold`, which writes
/// the escape sequence `"\x1b[1m"`.
#[verifier::external_body]
pub fn bold_string() -> (r: String)
    ensures
        r@ == esc_bold(),
{
    format!("{}", termion::style::Bold)
}

/// Relies on the `Display` impl of `termion::style::Reset`, which
/// writes the escape sequence `"\x1b[m"`.
#[verifier::external_body]
pub fn reset_string() -> (r: String)
    ensures
        r@ == esc_reset(),
{
    format!("{}", termion::style::Reset)
}

/// The cursor-positioning escape sequence, built digit by digit. The
/// escape is written here rather than taken from the terminal crate:
/// that crate's formatter asserts (in debug builds) that the position
/// is not `(0, 0)`, a position the viewer's clamping can reach.
pub fn goto_string(x: u16, y: u16) -> (r: String)
    ensures
        r@ == esc_goto(x, y),
{
    let mut s = String::from_str("\x1b[");
    s.append(u16_to_string(y).as_str());
    s.append(";");
    s.append(u16_to_string(x).as_str());
    s.append("H");
    s
}

} // verus!
