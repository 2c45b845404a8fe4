//! Text as diagnostics show it.

use vstd::prelude::*;

verus! {

/// What `{:?}` prints for a string: the text between double quotes, with
/// quotes, backslashes and control characters escaped.
pub uninterp spec fn debug_quoted(text: Seq<char>) -> Seq<char>;

/// Formats a string with the `Debug` impl that std gives `str`. The contract
/// names what that impl prints and claims nothing more about it.
#[verifier::external_body]
pub(crate) fn debug_string(text: &str) -> (quoted: String)
    ensures
        quoted@ == debug_quoted(text@),
{
    format!("{:?}", text)
}

} // verus!
