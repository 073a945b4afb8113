//! Colours for the labels of the displayed configuration.
//!
//! Whether a terminal gets colours is decided outside the program, by the
//! environment it runs in. A painted label is therefore one of two texts: the
//! label as it is, or the label between the escape sequence that switches the
//! colour on and the one that resets it.

use vstd::prelude::*;

verus! {

/// The escape character, with which every colour sequence begins.
pub open spec fn escape() -> char {
    '\u{1b}'
}

/// Whether `text` is free of escape characters, and so of colour sequences.
pub open spec fn is_plain(text: Seq<char>) -> bool {
    forall|i: int| 0 <= i < text.len() ==> text[i] != escape()
}

/// `text` between the sequence that selects the colour `code` and the
/// sequence that resets all colours.
pub open spec fn wrapped(code: Seq<char>, text: Seq<char>) -> Seq<char> {
    seq![escape(), '['] + code + seq!['m'] + text + seq![escape(), '[', '0', 'm']
}

/// Whether `out` is `text` painted with the colour `code`: `text` itself
/// where colours are off, and `text` wrapped where they are on.
pub open spec fn paints(code: Seq<char>, text: Seq<char>, out: Seq<char>) -> bool {
    out == text || out == wrapped(code, text)
}

/// Code of the magenta foreground, which `purple` selects.
pub open spec fn purple_code() -> Seq<char> {
    seq!['3', '5']
}

/// Code of the cyan foreground.
pub open spec fn cyan_code() -> Seq<char> {
    seq!['3', '6']
}

/// Code of the green foreground.
pub open spec fn green_code() -> Seq<char> {
    seq!['3', '2']
}

/// Code of the bright black background.
pub open spec fn on_bright_black_code() -> Seq<char> {
    seq!['1', '0', '0']
}

/// Paints `text` with `colored::Colorize::purple` and writes the result out.
/// Trusted: with colours off `colored` writes the text unchanged; with
/// colours on it writes `ESC[35m`, the text, and `ESC[0m`. A text that holds
/// a reset sequence would have the colour repeated after it, so such texts
/// are left out.
#[verifier::external_body]
pub(crate) fn purple(text: &str) -> (out: String)
    requires
        is_plain(text@),
    ensures
        paints(purple_code(), text@, out@),
{
    colored::Colorize::purple(text).to_string()
}

/// Paints `text` with `colored::Colorize::cyan` and writes the result out.
/// Trusted: with colours off `colored` writes the text unchanged; with
/// colours on it writes `ESC[36m`, the text, and `ESC[0m`.
#[verifier::external_body]
pub(crate) fn cyan(text: &str) -> (out: String)
    requires
        is_plain(text@),
    ensures
        paints(cyan_code(), text@, out@),
{
    colored::Colorize::cyan(text).to_string()
}

/// Paints `text` with `colored::Colorize::green` and writes the result out.
/// Trusted: with colours off `colored` writes the text unchanged; with
/// colours on it writes `ESC[32m`, the text, and `ESC[0m`.
#[verifier::external_body]
pub(crate) fn green(text: &str) -> (out: String)
    requires
        is_plain(text@),
    ensures
        paints(green_code(), text@, out@),
{
    colored::Colorize::green(text).to_string()
}

/// Paints the background of `text` with `colored::Colorize::on_bright_black`
/// and writes the result out. Trusted: with colours off `colored` writes the
/// text unchanged; with colours on it writes `ESC[100m`, the text, and
/// `ESC[0m`.
#[verifier::external_body]
pub(crate) fn on_bright_black(text: &str) -> (out: String)
    requires
        is_plain(text@),
    ensures
        paints(on_bright_black_code(), text@, out@),
{
    colored::Colorize::on_bright_black(text).to_string()
}

} // verus!
