//! Styled message lines: informational text in green, warnings in yellow,
//! errors in red, each wrapped in the ANSI colour codes that `ansi_term`
//! emits.

use vstd::prelude::*;

verus! {

/// `text` wrapped in the ANSI foreground-colour escape for `code_chars` and
/// the reset escape: what `ansi_term` renders for a plain foreground colour.
pub open spec fn painted_chars(code: Seq<char>, text: Seq<char>) -> Seq<char> {
    "\u{1b}["@ + code + "m"@ + text + "\u{1b}[0m"@
}

/// Relies on `ansi_term::Colour::Red.paint` and its `Display` rendering: a
/// style with only a foreground colour renders as `ESC[31m`, the text, then
/// the reset code `ESC[0m`.
#[verifier::external_body]
fn paint_red(msg: &str) -> (r: String)
    ensures
        r@ == painted_chars("31"@, msg@),
{
    ansi_term::Colour::Red.paint(msg).to_string()
}

/// Relies on `ansi_term::Colour::Yellow.paint` and its `Display` rendering: a
/// style with only a foreground colour renders as `ESC[33m`, the text, then
/// the reset code `ESC[0m`.
#[verifier::external_body]
fn paint_yellow(msg: &str) -> (r: String)
    ensures
        r@ == painted_chars("33"@, msg@),
{
    ansi_term::Colour::Yellow.paint(msg).to_string()
}

/// Relies on `ansi_term::Colour::Green.paint` and its `Display` rendering: a
/// style with only a foreground colour renders as `ESC[32m`, the text, then
/// the reset code `ESC[0m`.
#[verifier::external_body]
fn paint_green(msg: &str) -> (r: String)
    ensures
        r@ == painted_chars("32"@, msg@),
{
    ansi_term::Colour::Green.paint(msg).to_string()
}

/// An error message styled red for the error stream.
pub fn error_text(msg: &str) -> (r: String)
    ensures
        r@ == painted_chars("31"@, msg@),
{
    paint_red(msg)
}

/// A warning message styled yellow for the error stream.
pub fn warning_text(msg: &str) -> (r: String)
    ensures
        r@ == painted_chars("33"@, msg@),
{
    paint_yellow(msg)
}

/// An informational message styled green for standard output.
pub fn info_text(msg: &str) -> (r: String)
    ensures
        r@ == painted_chars("32"@, msg@),
{
    paint_green(msg)
}

} // verus!
