//! Errors that abort the translation of one compilation unit.

use vstd::prelude::*;

verus! {

/// A recoverable translation error: the current compilation unit is aborted
/// with a diagnostic, but the process carries on.
///
/// Fatal configuration errors (an intrinsic unknown to the code-generation
/// library) are not represented here: they abort the process and are kept out
/// of the verified functions by their preconditions.
#[derive(Clone, Copy, Debug, PartialEq, Eq, Structural)]
pub enum TranslationError {
    /// An offset or length operand does not fit the target's native pointer
    /// width exactly; silent wraparound would corrupt buffer geometry.
    TruncationOverflow,
    /// The `linkersymbol` instruction carried no literal operand.
    MissingLinkerSymbol,
    /// A named library could not be resolved to an address.
    UnresolvedLibrary,
}

} // verus!
