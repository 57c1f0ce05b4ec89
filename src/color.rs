use colored::Colorize;
use vstd::prelude::*;

verus! {

/// The foreground colors that reports use.
#[derive(Debug, Clone, Copy, PartialEq, Eq, Structural)]
pub enum Paint {
    Red,
    Green,
    Yellow,
    White,
}

/// The escape sequence that switches the terminal to a foreground color.
pub open spec fn paint_open(p: Paint) -> Seq<char> {
    let code = match p {
        Paint::Red => seq!['3', '1'],
        Paint::Green => seq!['3', '2'],
        Paint::Yellow => seq!['3', '3'],
        Paint::White => seq!['3', '7'],
    };
    seq!['\u{1b}', '['] + code + seq!['m']
}

/// The escape sequence that resets the terminal's style.
pub open spec fn paint_reset() -> Seq<char> {
    seq!['\u{1b}', '[', '0', 'm']
}

/// The text holds no escape character.
pub open spec fn no_escape(text: Seq<char>) -> bool {
    forall|i: int| 0 <= i < text.len() ==> text[i] != '\u{1b}'
}

/// What painting `text` may give: the text itself when the terminal takes no
/// colors, or the text between the color's escape sequence and a reset. A
/// text that holds escape sequences itself may have inner resets adjusted.
pub open spec fn painted(r: Seq<char>, text: Seq<char>, p: Paint) -> bool {
    ||| r == text
    ||| (no_escape(text) && r == paint_open(p) + text + paint_reset())
    ||| (!no_escape(text) && {
        &&& r.len() >= paint_open(p).len() + paint_reset().len()
        &&& r.subrange(0, paint_open(p).len() as int) == paint_open(p)
        &&& r.subrange(r.len() - paint_reset().len(), r.len() as int) == paint_reset()
    })
}

/// Relies on colored's `Colorize::color` and the `Display` of its `ColoredString`:
/// the text comes back unchanged when colors are off (by the environment or
/// the terminal), else opened by the color's escape sequence and closed by a
/// reset, the text between them unchanged unless it holds a reset sequence
/// itself.
#[verifier::external_body]
pub(crate) fn paint(text: &str, p: Paint) -> (r: String)
    ensures
        painted(r@, text@, p),
{
    let color = match p {
        Paint::Red => colored::Color::Red,
        Paint::Green => colored::Color::Green,
        Paint::Yellow => colored::Color::Yellow,
        Paint::White => colored::Color::White,
    };
    text.color(color).to_string()
}

} // verus!
