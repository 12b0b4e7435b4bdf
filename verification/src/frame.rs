//! The calling convention of the runtime imports: call flags and the
//! byte-exact argument frame spilled to the stack before one import
//! invocation.

use vstd::prelude::*;

use crate::value::{EthAddress, Word};

verus! {

/// Flag bit requesting a static (read-only) call.
pub const STATIC_CALL_FLAG: u32 = 0b0001_0000;

/// Flag bit allowing the callee to re-enter the caller.
pub const REENTRANT_CALL_FLAG: u32 = 0b0000_1000;

/// The flags word of a `call` lowering: always reentrant, additionally
/// static when requested. Delegate calls pass zero flags instead.
pub open spec fn spec_call_flags(static_call: bool) -> u32 {
    if static_call {
        REENTRANT_CALL_FLAG | STATIC_CALL_FLAG
    } else {
        REENTRANT_CALL_FLAG
    }
}

/// Computes the flags word for a `call` lowering.
pub fn call_flags(static_call: bool) -> (r: u32)
    ensures
        r == spec_call_flags(static_call),
{
    if static_call {
        REENTRANT_CALL_FLAG | STATIC_CALL_FLAG
    } else {
        REENTRANT_CALL_FLAG
    }
}

/// The flags word is the bitwise OR of the selected flag bits: `0b0000_1000`
/// for a plain call, `0b0001_1000` when the static flag is added.
pub proof fn lemma_call_flags_values()
    ensures
        spec_call_flags(false) == 0b0000_1000u32,
        spec_call_flags(true) == 0b0001_1000u32,
{
    assert(0b0000_1000u32 | 0b0001_0000u32 == 0b0001_1000u32) by (bit_vector);
}

/// The two runtime imports this lowering invokes. Each takes a single
/// native-pointer-width integer holding the address of a spilled argument
/// frame and returns a native-pointer-width integer, zero meaning success.
#[derive(Clone, Copy, Debug, PartialEq, Eq, Structural)]
pub enum RuntimeImport {
    /// The external message call.
    Call,
    /// The delegate call, running the callee's code in the caller's context.
    DelegateCall,
}

/// One field of a marshaled argument frame, in ABI order. Pointer fields
/// carry the initial contents of the stack cell they point at, so the frame
/// records exactly what the runtime import can observe.
#[derive(Clone, Copy, Debug, PartialEq, Eq, Structural)]
pub enum FrameField {
    /// An immediate scalar, passed by value.
    Immediate(u64),
    /// A pointer to a stack cell holding a 20-byte callee address.
    AddressPointer(EthAddress),
    /// A pointer to a stack cell holding a 32-byte word.
    WordPointer(Word),
    /// A pointer into the contract heap at the given (truncated) offset.
    HeapPointer(u64),
    /// A pointer to the in/out output-length cell, preloaded with the given
    /// requested maximum; the import may shrink it to the bytes written.
    OutputLengthPointer(u64),
}

/// The logical contents of one argument frame, immediately before it is
/// spilled and submitted to a runtime import. `value` is present for the
/// `call` convention (10 fields) and absent for `delegate_call` (9 fields).
#[derive(Clone, Copy, Debug, PartialEq, Eq)]
pub struct CallFrame {
    /// The flags word.
    pub flags: u32,
    /// Contents of the callee-address cell.
    pub address: EthAddress,
    /// The ref-time limit sentinel, passed by value.
    pub ref_time_limit: u64,
    /// The proof-size limit sentinel, passed by value.
    pub proof_size_limit: u64,
    /// Contents of the deposit-limit cell.
    pub deposit_limit: Word,
    /// Contents of the transfer-value cell; `None` for delegate calls, which
    /// inherit the caller's value context.
    pub value: Option<Word>,
    /// Heap offset of the input buffer, already truncated to pointer width.
    pub input_offset: u64,
    /// Length of the input buffer, already truncated to pointer width.
    pub input_length: u64,
    /// Heap offset of the output buffer, already truncated to pointer width.
    pub output_offset: u64,
    /// Requested maximum output length, preloaded into the output-length
    /// cell.
    pub output_length: u64,
}

impl CallFrame {
    /// The marshaled fields in declaration order. The order is part of the
    /// ABI contract with the runtime import and must not change.
    pub open spec fn spec_fields(self) -> Seq<FrameField> {
        match self.value {
            Some(v) => seq![
                FrameField::Immediate(self.flags as u64),
                FrameField::AddressPointer(self.address),
                FrameField::Immediate(self.ref_time_limit),
                FrameField::Immediate(self.proof_size_limit),
                FrameField::WordPointer(self.deposit_limit),
                FrameField::WordPointer(v),
                FrameField::HeapPointer(self.input_offset),
                FrameField::Immediate(self.input_length),
                FrameField::HeapPointer(self.output_offset),
                FrameField::OutputLengthPointer(self.output_length),
            ],
            None => seq![
                FrameField::Immediate(self.flags as u64),
                FrameField::AddressPointer(self.address),
                FrameField::Immediate(self.ref_time_limit),
                FrameField::Immediate(self.proof_size_limit),
                FrameField::WordPointer(self.deposit_limit),
                FrameField::HeapPointer(self.input_offset),
                FrameField::Immediate(self.input_length),
                FrameField::HeapPointer(self.output_offset),
                FrameField::OutputLengthPointer(self.output_length),
            ],
        }
    }

    /// Lays the logical argument values out in declaration order, exactly as
    /// they are stored into the function-entry stack frame before the import
    /// is invoked. Placement only: no argument semantics are checked here.
    pub fn marshal(&self) -> (r: Vec<FrameField>)
        ensures
            r@ == self.spec_fields(),
    {
        let mut fields: Vec<FrameField> = Vec::new();
        fields.push(FrameField::Immediate(self.flags as u64));
        fields.push(FrameField::AddressPointer(self.address));
        fields.push(FrameField::Immediate(self.ref_time_limit));
        fields.push(FrameField::Immediate(self.proof_size_limit));
        fields.push(FrameField::WordPointer(self.deposit_limit));
        match self.value {
            Some(v) => fields.push(FrameField::WordPointer(v)),
            None => (),
        }
        fields.push(FrameField::HeapPointer(self.input_offset));
        fields.push(FrameField::Immediate(self.input_length));
        fields.push(FrameField::HeapPointer(self.output_offset));
        fields.push(FrameField::OutputLengthPointer(self.output_length));
        proof {
            assert(fields@ =~= self.spec_fields());
        }
        fields
    }
}

/// One lowered external call: which runtime import to invoke and the frame
/// submitted to it. The import receives the frame's stack address cast to a
/// native-pointer-width integer as its only argument.
#[derive(Clone, Copy, Debug, PartialEq, Eq)]
pub struct LoweredCall {
    /// The runtime import to invoke.
    pub import: RuntimeImport,
    /// The argument frame to spill and submit.
    pub frame: CallFrame,
}

impl LoweredCall {
    /// The convention and the frame shape agree: the `call` import takes the
    /// 10-field frame with a value cell, `delegate_call` the 9-field frame
    /// without one.
    pub open spec fn wf(self) -> bool {
        self.import == RuntimeImport::Call <==> self.frame.value is Some
    }
}

} // verus!
