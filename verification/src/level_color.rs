//! Colours for the levels, as ANSI escape sequences.

use crate::level::LogLevel;
use ansi_term::Colour;
use ansi_term::Style;
use vstd::prelude::*;

verus! {

/// How a text is painted.
#[derive(Clone, Copy, Debug, PartialEq, Eq, Structural)]
pub enum Tint {
    Red,
    Green,
    Purple,
    White,
    Plain,
}

/// The escape sequence that switches `tint` on; nothing for `Plain`.
pub open spec fn tint_prefix(tint: Tint) -> Seq<char> {
    match tint {
        Tint::Red => "\x1B[31m"@,
        Tint::Green => "\x1B[32m"@,
        Tint::Purple => "\x1B[35m"@,
        Tint::White => "\x1B[37m"@,
        Tint::Plain => Seq::empty(),
    }
}

/// The escape sequence that switches `tint` off again; nothing for `Plain`.
pub open spec fn tint_suffix(tint: Tint) -> Seq<char> {
    match tint {
        Tint::Plain => Seq::empty(),
        _ => "\x1B[0m"@,
    }
}

/// `msg` painted in `tint`.
pub open spec fn painted(tint: Tint, msg: Seq<char>) -> Seq<char> {
    tint_prefix(tint) + msg + tint_suffix(tint)
}

/// The tint of each level.
pub open spec fn tint_of(l: LogLevel) -> Tint {
    match l {
        LogLevel::Error => Tint::Red,
        LogLevel::Trace => Tint::White,
        LogLevel::Debug => Tint::Green,
        LogLevel::Warn => Tint::Purple,
        LogLevel::Info => Tint::Plain,
    }
}

/// Calls ansi_term's `Style::paint` and writes the painted string out with
/// its `Display`. For a foreground colour that is the colour's code between
/// `ESC [` and `m`, the text, and the reset sequence `ESC [ 0 m`; for the
/// default style it is the text alone.
#[verifier::external_body]
fn paint(tint: Tint, msg: &str) -> (text: String)
    ensures
        text@ == painted(tint, msg@),
{
    let style = match tint {
        Tint::Red => Colour::Red.normal(),
        Tint::Green => Colour::Green.normal(),
        Tint::Purple => Colour::Purple.normal(),
        Tint::White => Colour::White.normal(),
        Tint::Plain => Style::default(),
    };
    style.paint(msg).to_string()
}

/// `msg` in the colour of the level `l`.
pub fn get_color_by_level(l: LogLevel, msg: &str) -> (res: String)
    ensures
        res@ == painted(tint_of(l), msg@),
{
    let tint = match l {
        LogLevel::Error => Tint::Red,
        LogLevel::Trace => Tint::White,
        LogLevel::Debug => Tint::Green,
        LogLevel::Warn => Tint::Purple,
        LogLevel::Info => Tint::Plain,
    };
    paint(tint, msg)
}

} // verus!
