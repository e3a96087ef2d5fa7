//! Colours of the labels, and whether they are rendered at all.
use vstd::prelude::*;
use vstd::string::*;

verus! {

/// Whether labels are wrapped in terminal colour codes. Chosen once, when a
/// printer is made, and never per line.
#[derive(Clone, Copy, Debug, PartialEq, Eq, Structural)]
pub enum ColourMode {
    Enabled,
    Disabled,
}

/// The foreground colours that labels are painted in.
#[derive(Clone, Copy, Debug, PartialEq, Eq, Structural)]
pub enum Colour {
    Purple,
    Blue,
    Yellow,
    Red,
}

/// The SGR parameter that selects a colour as the foreground.
pub open spec fn foreground_code(c: Colour) -> Seq<char> {
    match c {
        Colour::Red => seq!['3', '1'],
        Colour::Yellow => seq!['3', '3'],
        Colour::Blue => seq!['3', '4'],
        Colour::Purple => seq!['3', '5'],
    }
}

/// The escape sequence that switches the terminal to colour `c`.
pub open spec fn colour_prefix(c: Colour) -> Seq<char> {
    seq!['\x1b', '['] + foreground_code(c) + seq!['m']
}

/// The escape sequence that resets all styles.
pub open spec fn reset_suffix() -> Seq<char> {
    seq!['\x1b', '[', '0', 'm']
}

/// `text` as a terminal shows it in colour `c`.
pub open spec fn coloured(c: Colour, text: Seq<char>) -> Seq<char> {
    colour_prefix(c) + text + reset_suffix()
}

/// `text` rendered in colour `c` under `mode`: wrapped in escape codes when
/// colours are enabled, unchanged otherwise.
pub open spec fn painted(mode: ColourMode, c: Colour, text: Seq<char>) -> Seq<char> {
    match mode {
        ColourMode::Enabled => coloured(c, text),
        ColourMode::Disabled => text,
    }
}

/// Relies on ansi_term's `Colour::paint` and the `Display` of the painted
/// string: for a plain foreground colour it writes `ESC [ <code> m`, the text,
/// then `ESC [ 0 m`.
#[verifier::external_body]
fn ansi_paint(c: Colour, text: &str) -> (r: String)
    ensures
        r@ == coloured(c, text@),
{
    let colour = match c {
        Colour::Purple => ansi_term::Colour::Purple,
        Colour::Blue => ansi_term::Colour::Blue,
        Colour::Yellow => ansi_term::Colour::Yellow,
        Colour::Red => ansi_term::Colour::Red,
    };
    colour.paint(text).to_string()
}

impl Colour {
    /// Renders `text` in this colour under `mode`.
    pub fn paint(&self, mode: ColourMode, text: &str) -> (r: String)
        ensures
            r@ == painted(mode, *self, text@),
    {
        match mode {
            ColourMode::Enabled => ansi_paint(*self, text),
            ColourMode::Disabled => text.to_owned(),
        }
    }
}

} // verus!
