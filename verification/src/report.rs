//! Classification and surfacing of fatal conditions. Every fault ends the
//! run; the only question decided here is whether a line is written to the
//! error stream, which depends on the verbosity flag — except for the
//! embedded stream error, which the store itself addressed to the consumer
//! and which is surfaced unconditionally.

use vstd::prelude::*;

use crate::highlight::color_wrap;

verus! {

/// The five fatal conditions of a run. None is retried.
#[derive(Clone, Copy, PartialEq, Eq, Structural, Debug)]
pub enum FaultKind {
    ConnectionFailure,
    BookmarkQueryFailure,
    CursorOpenFailure,
    EntryDecodeFailure,
    EmbeddedStreamError,
}

/// Whether a fault of kind `kind` is written to the error stream: under
/// verbose reporting every fault is, under quiet reporting only the
/// embedded stream error is.
pub fn should_surface(kind: FaultKind, verbose: bool) -> (r: bool)
    ensures
        r == (verbose || kind is EmbeddedStreamError),
{
    verbose || match kind {
        FaultKind::EmbeddedStreamError => true,
        _ => false,
    }
}

/// The ANSI foreground color code for red.
pub open spec fn red_code() -> Seq<char> {
    seq!['3', '1']
}

/// Relies on `colored::Colorize::red` and the `Display` of
/// `ColoredString`: the result is the input itself when colorizing is
/// switched off (or the crate's `no-color` feature is on), and otherwise
/// the input wrapped in `ESC[31m` and `ESC[0m`. The input must not contain
/// the escape character, since `ColoredString` re-styles any embedded
/// reset sequence.
#[verifier::external_body]
fn red_styled(s: &str) -> (r: String)
    requires
        forall|i: int| 0 <= i < s@.len() ==> s@[i] != '\x1b',
    ensures
        r@ == s@ || r@ == color_wrap(red_code(), s@),
{
    format!("{}", colored::Colorize::red(s))
}

/// The label every surfaced fault line starts with, styled red by the
/// `colored` crate (or left bare when colors are off).
pub fn error_label() -> (r: String)
    ensures
        r@ == "optail error"@ || r@ == color_wrap(red_code(), "optail error"@),
{
    proof {
        reveal_strlit("optail error");
    }
    red_styled("optail error")
}

/// One fault line for the error stream: `label: message`.
pub fn fault_line(label: &str, message: &str) -> (r: String)
    ensures
        r@ == label@ + ": "@ + message@,
{
    let mut out = String::from_str(label);
    out.append(": ");
    out.append(message);
    out
}

} // verus!
