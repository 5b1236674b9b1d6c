//! Terminal styling fragments. A styled grapheme is its literal text wrapped
//! in a standard SGR attribute prefix and the reset suffix; an unstyled
//! grapheme is its literal text alone.

use vstd::prelude::*;

verus! {

/// The SGR sequence that turns bold on.
pub open spec fn sgr_bold_prefix() -> Seq<char> {
    seq!['\u{1b}', '[', '1', 'm']
}

/// The SGR sequence that turns dimming on.
pub open spec fn sgr_dim_prefix() -> Seq<char> {
    seq!['\u{1b}', '[', '2', 'm']
}

/// The SGR sequence that resets all attributes.
pub open spec fn sgr_reset() -> Seq<char> {
    seq!['\u{1b}', '[', '0', 'm']
}

/// A grapheme rendered dimmed: its text wrapped in dim-on and reset.
pub open spec fn dim_frag(g: Seq<char>) -> Seq<char> {
    sgr_dim_prefix() + g + sgr_reset()
}

/// A grapheme rendered bold: its text wrapped in bold-on and reset.
pub open spec fn bold_frag(g: Seq<char>) -> Seq<char> {
    sgr_bold_prefix() + g + sgr_reset()
}

/// Relies on ansi_term: displaying `Style::new().dimmed().paint(text)` writes
/// the prefix "\x1B[2m", then the text unchanged, then the reset "\x1B[0m".
#[verifier::external_body]
pub(crate) fn paint_dimmed(g: &str) -> (r: String)
    ensures
        r@ == dim_frag(g@),
{
    format!("{}", ansi_term::Style::new().dimmed().paint(g))
}

/// Relies on ansi_term: displaying `Style::new().bold().paint(text)` writes
/// the prefix "\x1B[1m", then the text unchanged, then the reset "\x1B[0m".
#[verifier::external_body]
pub(crate) fn paint_bold(g: &str) -> (r: String)
    ensures
        r@ == bold_frag(g@),
{
    format!("{}", ansi_term::Style::new().bold().paint(g))
}

} // verus!
