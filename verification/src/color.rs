//! The colour in which the answer is shown.

use vstd::prelude::*;
use crate::text::{normalize, normalized, same_text};

verus! {

/// A colour of the terminal.
#[derive(Clone, Copy, Debug, PartialEq, Eq, Structural)]
pub enum Color {
    /// The terminal's own green.
    Green,
    /// A colour given by its red, green and blue parts.
    Rgb(u8, u8, u8),
}

/// The colour that a normalised name stands for: a pastel for `purple`,
/// `red` and `green`, and the terminal's green for any other name.
pub open spec fn color_of(name: Seq<char>) -> Color {
    if name == "purple"@ {
        Color::Rgb(202, 158, 230)
    } else if name == "red"@ {
        Color::Rgb(231, 130, 132)
    } else if name == "green"@ {
        Color::Rgb(166, 209, 137)
    } else {
        Color::Green
    }
}

/// The colour for a name that is already normalised.
pub fn named_color(name: &str) -> (r: Color)
    ensures
        r == color_of(name@),
{
    if same_text(name, "purple") {
        Color::Rgb(202, 158, 230)
    } else if same_text(name, "red") {
        Color::Rgb(231, 130, 132)
    } else if same_text(name, "green") {
        Color::Rgb(166, 209, 137)
    } else {
        Color::Green
    }
}

/// The colour that a configured name stands for, whatever its case and the
/// white space round it.
pub fn parse_color(color: &str) -> (r: Color)
    ensures
        r == color_of(normalized(color@)),
{
    let name = normalize(color);
    named_color(name.as_str())
}

} // verus!
