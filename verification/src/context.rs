//! The compilation-unit context: the state one module's lowering reads, owned
//! by that module alone so that several units can be compiled independently.

use vstd::prelude::*;

use crate::error::TranslationError;
use crate::intrinsics::Intrinsics;
use crate::value::{EthAddress, PointerWidth};

verus! {

/// What resolving a library path against the link table yields: the address
/// of the first entry whose name matches, or nothing.
pub open spec fn spec_lookup_library(
    entries: Seq<(String, EthAddress)>,
    path: Seq<char>,
) -> Option<EthAddress>
    decreases entries.len(),
{
    if entries.len() == 0 {
        None
    } else if entries[0].0@ == path {
        Some(entries[0].1)
    } else {
        spec_lookup_library(entries.skip(1), path)
    }
}

/// The read-mostly state of one compilation unit: the target's pointer
/// width, the intrinsic registry declared at module setup, and the table of
/// linked libraries. Never shared across units.
pub struct CompilationContext {
    /// The target machine's native pointer width.
    pub pointer_width: PointerWidth,
    /// The intrinsic declarations, created once and read-only thereafter.
    pub intrinsics: Intrinsics,
    /// The linked libraries, each under the literal name `linkersymbol`
    /// refers to it by.
    pub libraries: Vec<(String, EthAddress)>,
}

impl CompilationContext {
    /// The intrinsic registry was populated correctly at module setup.
    pub open spec fn well_formed(self) -> bool {
        self.intrinsics.well_formed()
    }

    /// Sets a compilation unit up: the intrinsics are declared once, before
    /// any lowering that reads them.
    pub fn new(pointer_width: PointerWidth, libraries: Vec<(String, EthAddress)>) -> (r:
        CompilationContext)
        ensures
            r.well_formed(),
            r.pointer_width == pointer_width,
            r.libraries == libraries,
    {
        CompilationContext { pointer_width, intrinsics: Intrinsics::new(), libraries }
    }

    /// Resolves a named library to its linked address, failing with a
    /// translation error when the name is not in the table.
    pub fn resolve_library(&self, path: &str) -> (r: Result<EthAddress, TranslationError>)
        ensures
            match spec_lookup_library(self.libraries@, path@) {
                Some(address) => r == Ok::<EthAddress, TranslationError>(address),
                None => r == Err::<EthAddress, TranslationError>(
                    TranslationError::UnresolvedLibrary,
                ),
            },
    {
        let p = path.to_owned();
        let n = self.libraries.len();
        proof {
            assert(self.libraries@.skip(0) =~= self.libraries@);
        }
        for i in 0..n
            invariant
                n == self.libraries.len(),
                p@ == path@,
                spec_lookup_library(self.libraries@, path@) == spec_lookup_library(
                    self.libraries@.skip(i as int),
                    path@,
                ),
        {
            proof {
                assert(self.libraries@.skip(i as int)[0] == self.libraries@[i as int]);
                assert(self.libraries@.skip(i as int).skip(1) =~= self.libraries@.skip(
                    i as int + 1,
                ));
            }
            if self.libraries[i].0 == p {
                return Ok(self.libraries[i].1);
            }
        }
        proof {
            assert(self.libraries@.skip(n as int).len() == 0);
        }
        Err(TranslationError::UnresolvedLibrary)
    }
}

} // verus!
