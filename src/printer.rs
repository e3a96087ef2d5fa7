//! Building the line that reports one diagnostic.
use vstd::prelude::*;
use vstd::string::*;
use crate::colour::{colour_prefix, foreground_code, painted, reset_suffix, Colour, ColourMode};
use crate::severity::{colour_of, label_of, Severity};

verus! {

/// The line that reports `message` at severity `s`.
///
/// With the program's name known it reads `name:label: message`. Without it
/// the label and the message are parted by a single space: `label message`.
/// The name is always painted blue; the message is never painted.
pub open spec fn line_text(
    mode: ColourMode,
    s: Severity,
    program: Option<Seq<char>>,
    message: Seq<char>,
) -> Seq<char> {
    let label = painted(mode, colour_of(s), label_of(s));
    match program {
        Some(name) => painted(mode, Colour::Blue, name) + seq![':'] + label + seq![':', ' ']
            + message + seq!['\n'],
        None => label + seq![' '] + message + seq!['\n'],
    }
}

/// The view of an optional program name.
pub open spec fn name_view(program: Option<&str>) -> Option<Seq<char>> {
    match program {
        Some(p) => Some(p@),
        None => None,
    }
}

/// Formats diagnostics, with colours on or off for its whole life.
#[derive(Clone, Copy, Debug, PartialEq, Eq, Structural)]
pub struct Printer {
    pub mode: ColourMode,
}

impl Printer {
    /// A printer that renders colours according to `mode`.
    pub fn new(mode: ColourMode) -> (r: Printer)
        ensures
            r.mode == mode,
    {
        Printer { mode }
    }

    /// The line, newline included, that reports `message` at severity `s`
    /// for the program called `program`, if its name is known.
    pub fn line(&self, s: Severity, program: Option<&str>, message: &str) -> (r: String)
        ensures
            r@ == line_text(self.mode, s, name_view(program), message@),
    {
        let mut r = match program {
            Some(name) => {
                let mut head = Colour::Blue.paint(self.mode, name);
                head.append(":");
                head.append(s.colour().paint(self.mode, s.label()).as_str());
                head.append(": ");
                head
            },
            None => {
                let mut head = s.colour().paint(self.mode, s.label());
                head.append(" ");
                head
            },
        };
        r.append(message);
        r.append("\n");
        proof {
            reveal_strlit(":");
            reveal_strlit(": ");
            reveal_strlit(" ");
            reveal_strlit("\n");
        }
        assert(r@ =~= line_text(self.mode, s, name_view(program), message@));
        r
    }
}

/// `text` holds no newline character.
pub open spec fn single_line(text: Seq<char>) -> bool {
    forall|i: int| 0 <= i < text.len() ==> text[i] != '\n'
}

proof fn lemma_single_line_concat(a: Seq<char>, b: Seq<char>)
    requires
        single_line(a),
        single_line(b),
    ensures
        single_line(a + b),
{
    assert forall|i: int| 0 <= i < (a + b).len() implies (a + b)[i] != '\n' by {
        if i < a.len() {
            assert((a + b)[i] == a[i]);
        } else {
            assert((a + b)[i] == b[i - a.len()]);
        }
    }
}

proof fn lemma_painted_single_line(mode: ColourMode, c: Colour, text: Seq<char>)
    requires
        single_line(text),
    ensures
        single_line(painted(mode, c, text)),
{
    lemma_single_line_concat(seq!['\x1b', '['], foreground_code(c));
    lemma_single_line_concat(seq!['\x1b', '['] + foreground_code(c), seq!['m']);
    lemma_single_line_concat(colour_prefix(c), text);
    lemma_single_line_concat(colour_prefix(c) + text, reset_suffix());
}

/// When the program's name is known, the line for any severity ends in a
/// colon, a space and the message itself, then one newline. With colours off
/// it is the plain text `name:label: message`. Where neither the name nor the
/// message holds a newline, the result is exactly one line.
pub proof fn lemma_named_line(mode: ColourMode, s: Severity, name: Seq<char>, message: Seq<char>)
    ensures
        ({
            let l = line_text(mode, s, Some(name), message);
            &&& l.len() >= message.len() + 3
            &&& l.last() == '\n'
            &&& l.drop_last().subrange(l.len() - message.len() - 3, l.len() - 1) == seq![
                ':',
                ' ',
            ] + message
            &&& (mode == ColourMode::Disabled ==> l == name + seq![':'] + label_of(s) + seq![
                ':',
                ' ',
            ] + message + seq!['\n'])
            &&& (single_line(name) && single_line(message) ==> single_line(l.drop_last()))
        }),
{
    let l = line_text(mode, s, Some(name), message);
    let label = painted(mode, colour_of(s), label_of(s));
    let head = painted(mode, Colour::Blue, name) + seq![':'] + label;
    assert(l == head + (seq![':', ' '] + message) + seq!['\n']);
    assert(l.drop_last() =~= head + (seq![':', ' '] + message));
    assert(l.drop_last().subrange(l.len() - message.len() - 3, l.len() - 1) =~= seq![':', ' ']
        + message);
    if single_line(name) && single_line(message) {
        lemma_painted_single_line(mode, Colour::Blue, name);
        lemma_painted_single_line(mode, colour_of(s), label_of(s));
        lemma_single_line_concat(painted(mode, Colour::Blue, name), seq![':']);
        lemma_single_line_concat(painted(mode, Colour::Blue, name) + seq![':'], label);
        lemma_single_line_concat(head, seq![':', ' ']);
        lemma_single_line_concat(head + seq![':', ' '], message);
        assert(l.drop_last() =~= head + seq![':', ' '] + message);
    }
}

/// When the program's name is unknown, the line carries no name at all: it is
/// the painted label, one space, the message and a newline.
pub proof fn lemma_unnamed_line(mode: ColourMode, s: Severity, message: Seq<char>)
    ensures
        line_text(mode, s, None, message) == painted(mode, colour_of(s), label_of(s)) + seq![' ']
            + message + seq!['\n'],
        mode == ColourMode::Disabled ==> line_text(mode, s, None, message) == label_of(s) + seq![
            ' ',
        ] + message + seq!['\n'],
{
}

/// Reporting the same message twice, with the same printer, severity and
/// program name, yields two identical lines: a line depends on nothing else.
pub proof fn lemma_line_repeatable(
    mode: ColourMode,
    s: Severity,
    program: Option<Seq<char>>,
    message: Seq<char>,
    first: Seq<char>,
    second: Seq<char>,
)
    requires
        first == line_text(mode, s, program, message),
        second == line_text(mode, s, program, message),
    ensures
        first == second,
{
}

} // verus!
