//! Fixed-width scalar values of the source and target machines: the 256-bit
//! EVM word, the 160-bit contract address, and the target's native pointer
//! width together with the exact-truncation policy.

use vstd::prelude::*;

use crate::error::TranslationError;

verus! {

/// A 256-bit EVM word, stored as two 128-bit halves, least significant first.
#[derive(Clone, Copy, Debug, PartialEq, Eq, Structural)]
pub struct Word {
    /// Bits 0..128.
    pub lo: u128,
    /// Bits 128..256.
    pub hi: u128,
}

impl Word {
    /// The numeric value of the word.
    pub open spec fn as_nat(self) -> nat {
        self.lo as nat + self.hi as nat * 0x1_0000_0000_0000_0000_0000_0000_0000_0000
    }

    /// The zero word.
    pub open spec fn spec_zero() -> Word {
        Word { lo: 0, hi: 0 }
    }

    /// The word with every bit set: the "unlimited" sentinel of the
    /// deposit-limit cell.
    pub open spec fn spec_all_ones() -> Word {
        Word { lo: u128::MAX, hi: u128::MAX }
    }

    /// The zero word.
    pub fn zero() -> (r: Word)
        ensures
            r == Word::spec_zero(),
            r.as_nat() == 0,
    {
        Word { lo: 0, hi: 0 }
    }

    /// The all-bits-one word.
    pub fn all_ones() -> (r: Word)
        ensures
            r == Word::spec_all_ones(),
    {
        Word { lo: u128::MAX, hi: u128::MAX }
    }

    /// Widens a 64-bit value into a word.
    pub fn from_u64(v: u64) -> (r: Word)
        ensures
            r.as_nat() == v as nat,
            r == (Word { lo: v as u128, hi: 0u128 }),
    {
        Word { lo: v as u128, hi: 0 }
    }
}

/// A 160-bit (20-byte) contract address, stored as the low 128 bits and the
/// high 32 bits.
#[derive(Clone, Copy, Debug, PartialEq, Eq, Structural)]
pub struct EthAddress {
    /// Bits 0..128.
    pub lo: u128,
    /// Bits 128..160.
    pub hi: u32,
}

impl EthAddress {
    /// The numeric value of the address.
    pub open spec fn as_nat(self) -> nat {
        self.lo as nat + self.hi as nat * 0x1_0000_0000_0000_0000_0000_0000_0000_0000
    }
}

/// The target machine's native pointer width (xlen), to which offset and
/// length operands must be narrowed exactly before they cross the
/// runtime-import boundary.
#[derive(Clone, Copy, Debug, PartialEq, Eq, Structural)]
pub enum PointerWidth {
    /// 32-bit pointers.
    W32,
    /// 64-bit pointers.
    W64,
}

impl PointerWidth {
    /// The number of bits in a native pointer.
    pub open spec fn bits(self) -> nat {
        match self {
            PointerWidth::W32 => 32,
            PointerWidth::W64 => 64,
        }
    }

    /// One more than the largest value a native pointer can hold.
    pub open spec fn bound(self) -> nat {
        match self {
            PointerWidth::W32 => 0x1_0000_0000,
            PointerWidth::W64 => 0x1_0000_0000_0000_0000,
        }
    }

    /// Whether a numeric value is exactly representable in a native pointer.
    pub open spec fn fits(self, v: nat) -> bool {
        v < self.bound()
    }
}

/// What narrowing a word to the native pointer width yields: the word's exact
/// value when it fits, and a translation error otherwise. Buffer geometry is
/// never silently wrapped.
pub open spec fn spec_safe_truncate(w: Word, width: PointerWidth) -> Result<u64, TranslationError> {
    if width.fits(w.as_nat()) {
        Ok(w.lo as u64)
    } else {
        Err(TranslationError::TruncationOverflow)
    }
}

/// Narrows a word to the target's native pointer width, failing rather than
/// wrapping when the value does not fit exactly.
pub fn safe_truncate_to_xlen(w: &Word, width: PointerWidth) -> (r: Result<u64, TranslationError>)
    ensures
        r == spec_safe_truncate(*w, width),
        r matches Ok(v) ==> v as nat == w.as_nat() && width.fits(w.as_nat()),
        r is Err <==> !width.fits(w.as_nat()),
{
    proof {
        if w.hi != 0 {
            assert(w.as_nat() >= 0x1_0000_0000_0000_0000_0000_0000_0000_0000);
        }
    }
    match width {
        PointerWidth::W32 => {
            if w.hi == 0 && w.lo < 0x1_0000_0000 {
                Ok(w.lo as u64)
            } else {
                Err(TranslationError::TruncationOverflow)
            }
        }
        PointerWidth::W64 => {
            if w.hi == 0 && w.lo < 0x1_0000_0000_0000_0000 {
                Ok(w.lo as u64)
            } else {
                Err(TranslationError::TruncationOverflow)
            }
        }
    }
}

} // verus!
