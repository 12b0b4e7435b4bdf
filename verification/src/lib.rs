//! Lowering of EVM-level external message calls onto a register-based
//! contract runtime.
//!
//! The crate models the decision core of a smart-contract compiler back-end:
//! the registry of low-level intrinsic primitives declared once per
//! compilation unit, the calling convention that marshals the arguments of an
//! external call into a byte-exact stack frame, the lowering of `CALL` and
//! `DELEGATECALL` into such frames, the decoding of the runtime import's
//! return value into an EVM-visible success word, and the resolution of
//! linker symbols to library addresses.

pub mod address_space;
pub mod call;
pub mod context;
pub mod error;
pub mod frame;
pub mod intrinsics;
pub mod value;
