//! Lowering of the external message-call instructions `CALL` and
//! `DELEGATECALL` into marshaled runtime-import frames, the decoding of the
//! import's return value, and the `linkersymbol` instruction.

use vstd::prelude::*;

use crate::context::{spec_lookup_library, CompilationContext};
use crate::error::TranslationError;
use crate::frame::{call_flags, spec_call_flags, CallFrame, LoweredCall, RuntimeImport};
use crate::value::{safe_truncate_to_xlen, spec_safe_truncate, EthAddress, PointerWidth, Word};

verus! {

/// What lowering a `CALL` yields: a translation error as soon as one of the
/// four buffer-geometry operands does not fit the native pointer width, and
/// otherwise the frame for the `call` import, reentrant (plus static when
/// requested), with the transfer value defaulted to the zero word, the
/// ref-time and proof-size limits at their unlimited sentinel, the
/// deposit-limit cell preloaded with all-ones, and the output-length cell
/// preloaded with the requested maximum output length.
pub open spec fn spec_call(
    width: PointerWidth,
    address: EthAddress,
    value: Option<Word>,
    input_offset: Word,
    input_length: Word,
    output_offset: Word,
    output_length: Word,
    static_call: bool,
) -> Result<LoweredCall, TranslationError> {
    match (
        spec_safe_truncate(input_offset, width),
        spec_safe_truncate(input_length, width),
        spec_safe_truncate(output_offset, width),
        spec_safe_truncate(output_length, width),
    ) {
        (Ok(in_off), Ok(in_len), Ok(out_off), Ok(out_len)) => Ok(
            LoweredCall {
                import: RuntimeImport::Call,
                frame: CallFrame {
                    flags: spec_call_flags(static_call),
                    address,
                    ref_time_limit: u64::MAX,
                    proof_size_limit: u64::MAX,
                    deposit_limit: Word::spec_all_ones(),
                    value: Some(
                        match value {
                            Some(v) => v,
                            None => Word::spec_zero(),
                        },
                    ),
                    input_offset: in_off,
                    input_length: in_len,
                    output_offset: out_off,
                    output_length: out_len,
                },
            },
        ),
        _ => Err(TranslationError::TruncationOverflow),
    }
}

/// What lowering a `DELEGATECALL` yields: as `spec_call`, but with zero
/// flags and no transfer-value cell, since a delegate call inherits the
/// caller's value context.
pub open spec fn spec_delegate_call(
    width: PointerWidth,
    address: EthAddress,
    input_offset: Word,
    input_length: Word,
    output_offset: Word,
    output_length: Word,
) -> Result<LoweredCall, TranslationError> {
    match (
        spec_safe_truncate(input_offset, width),
        spec_safe_truncate(input_length, width),
        spec_safe_truncate(output_offset, width),
        spec_safe_truncate(output_length, width),
    ) {
        (Ok(in_off), Ok(in_len), Ok(out_off), Ok(out_len)) => Ok(
            LoweredCall {
                import: RuntimeImport::DelegateCall,
                frame: CallFrame {
                    flags: 0,
                    address,
                    ref_time_limit: u64::MAX,
                    proof_size_limit: u64::MAX,
                    deposit_limit: Word::spec_all_ones(),
                    value: None,
                    input_offset: in_off,
                    input_length: in_len,
                    output_offset: out_off,
                    output_length: out_len,
                },
            },
        ),
        _ => Err(TranslationError::TruncationOverflow),
    }
}

/// Lowers a `CALL` instruction into the frame for the `call` runtime import.
///
/// The gas operand is received but discarded: gas metering is left to the
/// host runtime, and the frame has no gas field until the target ABI defines
/// one. The reserved constant-operand list is likewise received and unused.
pub fn call(
    context: &CompilationContext,
    gas: Word,
    address: EthAddress,
    value: Option<Word>,
    input_offset: Word,
    input_length: Word,
    output_offset: Word,
    output_length: Word,
    _constants: Vec<Option<Word>>,
    static_call: bool,
) -> (r: Result<LoweredCall, TranslationError>)
    ensures
        r == spec_call(
            context.pointer_width,
            address,
            value,
            input_offset,
            input_length,
            output_offset,
            output_length,
            static_call,
        ),
        r matches Ok(lowered) ==> lowered.wf() && lowered.import == RuntimeImport::Call,
        r is Err <==> !(context.pointer_width.fits(input_offset.as_nat())
            && context.pointer_width.fits(input_length.as_nat()) && context.pointer_width.fits(
            output_offset.as_nat(),
        ) && context.pointer_width.fits(output_length.as_nat())),
{
    let _ = gas;
    let width = context.pointer_width;
    let in_off = match safe_truncate_to_xlen(&input_offset, width) {
        Ok(v) => v,
        Err(e) => {
            return Err(e);
        },
    };
    let in_len = match safe_truncate_to_xlen(&input_length, width) {
        Ok(v) => v,
        Err(e) => {
            return Err(e);
        },
    };
    let out_off = match safe_truncate_to_xlen(&output_offset, width) {
        Ok(v) => v,
        Err(e) => {
            return Err(e);
        },
    };
    let out_len = match safe_truncate_to_xlen(&output_length, width) {
        Ok(v) => v,
        Err(e) => {
            return Err(e);
        },
    };
    let value_word = match value {
        Some(v) => v,
        None => Word::zero(),
    };
    Ok(
        LoweredCall {
            import: RuntimeImport::Call,
            frame: CallFrame {
                flags: call_flags(static_call),
                address,
                ref_time_limit: u64::MAX,
                proof_size_limit: u64::MAX,
                deposit_limit: Word::all_ones(),
                value: Some(value_word),
                input_offset: in_off,
                input_length: in_len,
                output_offset: out_off,
                output_length: out_len,
            },
        },
    )
}

/// Lowers a `DELEGATECALL` instruction into the frame for the
/// `delegate_call` runtime import.
///
/// The gas operand is received but discarded, and the reserved
/// constant-operand list is received and unused, as in `call`.
pub fn delegate_call(
    context: &CompilationContext,
    gas: Word,
    address: EthAddress,
    input_offset: Word,
    input_length: Word,
    output_offset: Word,
    output_length: Word,
    _constants: Vec<Option<Word>>,
) -> (r: Result<LoweredCall, TranslationError>)
    ensures
        r == spec_delegate_call(
            context.pointer_width,
            address,
            input_offset,
            input_length,
            output_offset,
            output_length,
        ),
        r matches Ok(lowered) ==> lowered.wf() && lowered.import == RuntimeImport::DelegateCall,
        r is Err <==> !(context.pointer_width.fits(input_offset.as_nat())
            && context.pointer_width.fits(input_length.as_nat()) && context.pointer_width.fits(
            output_offset.as_nat(),
        ) && context.pointer_width.fits(output_length.as_nat())),
{
    let _ = gas;
    let width = context.pointer_width;
    let in_off = match safe_truncate_to_xlen(&input_offset, width) {
        Ok(v) => v,
        Err(e) => {
            return Err(e);
        },
    };
    let in_len = match safe_truncate_to_xlen(&input_length, width) {
        Ok(v) => v,
        Err(e) => {
            return Err(e);
        },
    };
    let out_off = match safe_truncate_to_xlen(&output_offset, width) {
        Ok(v) => v,
        Err(e) => {
            return Err(e);
        },
    };
    let out_len = match safe_truncate_to_xlen(&output_length, width) {
        Ok(v) => v,
        Err(e) => {
            return Err(e);
        },
    };
    Ok(
        LoweredCall {
            import: RuntimeImport::DelegateCall,
            frame: CallFrame {
                flags: 0,
                address,
                ref_time_limit: u64::MAX,
                proof_size_limit: u64::MAX,
                deposit_limit: Word::all_ones(),
                value: None,
                input_offset: in_off,
                input_length: in_len,
                output_offset: out_off,
                output_length: out_len,
            },
        },
    )
}

/// The success word the generated code presents to the contract for a given
/// import return value: the word 1 when the import returned zero, the word 0
/// otherwise. A failing external call is ordinary EVM-visible data, never a
/// translation error.
pub open spec fn spec_decode_call_result(return_value: u64) -> Word {
    if return_value == 0 {
        Word { lo: 1, hi: 0 }
    } else {
        Word::spec_zero()
    }
}

/// Decodes the runtime import's native-width return value into the
/// instruction's 32-byte result word: the single-bit success predicate
/// (return value exactly zero), zero-extended to a full word.
pub fn decode_call_result(return_value: u64) -> (r: Word)
    ensures
        r == spec_decode_call_result(return_value),
        return_value == 0 <==> r.as_nat() == 1,
        return_value != 0 <==> r.as_nat() == 0,
{
    if return_value == 0 {
        Word { lo: 1, hi: 0 }
    } else {
        Word::zero()
    }
}

/// One operand handed down by the instruction-selection driver, together
/// with the literal it originated from, when it was a literal.
pub struct Argument {
    /// The source literal, kept only for instructions that consume it.
    pub original: Option<String>,
}

/// What lowering a `linkersymbol` instruction yields: a translation error
/// when the literal operand is absent (a malformed instruction from
/// upstream), and otherwise the outcome of resolving the literal against the
/// link table.
pub open spec fn spec_linker_symbol(
    libraries: Seq<(String, EthAddress)>,
    argument: Argument,
) -> Result<EthAddress, TranslationError> {
    match argument.original {
        None => Err(TranslationError::MissingLinkerSymbol),
        Some(path) => match spec_lookup_library(libraries, path@) {
            Some(address) => Ok(address),
            None => Err(TranslationError::UnresolvedLibrary),
        },
    }
}

/// A lowered `CALL` without an explicit transfer value and without the
/// static flag gets frame flags `0b0000_1000` (reentrant only), the zero
/// word in the transfer-value cell, the all-ones sentinel in the
/// deposit-limit cell, the requested maximum output length in the
/// output-length cell, and a 10-field frame.
pub proof fn lemma_call_frame_defaults(
    width: PointerWidth,
    address: EthAddress,
    input_offset: Word,
    input_length: Word,
    output_offset: Word,
    output_length: Word,
    lowered: LoweredCall,
)
    requires
        spec_call(
            width,
            address,
            None,
            input_offset,
            input_length,
            output_offset,
            output_length,
            false,
        ) == Ok::<LoweredCall, TranslationError>(lowered),
    ensures
        lowered.frame.flags == 0b0000_1000u32,
        lowered.frame.value == Some(Word::spec_zero()),
        lowered.frame.deposit_limit == Word::spec_all_ones(),
        lowered.frame.ref_time_limit == u64::MAX,
        lowered.frame.proof_size_limit == u64::MAX,
        spec_safe_truncate(output_length, width) == Ok::<u64, TranslationError>(
            lowered.frame.output_length,
        ),
        lowered.frame.spec_fields().len() == 10,
{
    crate::frame::lemma_call_flags_values();
}

/// A lowered `CALL` with the static flag requested gets frame flags
/// `0b0001_1000`: reentrant and static combined by bitwise OR. Nothing else
/// about the frame depends on the flag.
pub proof fn lemma_static_call_flags(
    width: PointerWidth,
    address: EthAddress,
    value: Option<Word>,
    input_offset: Word,
    input_length: Word,
    output_offset: Word,
    output_length: Word,
    lowered: LoweredCall,
    lowered_static: LoweredCall,
)
    requires
        spec_call(
            width,
            address,
            value,
            input_offset,
            input_length,
            output_offset,
            output_length,
            false,
        ) == Ok::<LoweredCall, TranslationError>(lowered),
        spec_call(
            width,
            address,
            value,
            input_offset,
            input_length,
            output_offset,
            output_length,
            true,
        ) == Ok::<LoweredCall, TranslationError>(lowered_static),
    ensures
        lowered_static.frame.flags == 0b0001_1000u32,
        lowered_static.frame == (CallFrame { flags: 0b0001_1000u32, ..lowered.frame }),
{
    crate::frame::lemma_call_flags_values();
}

/// A lowered `DELEGATECALL` frame has exactly 9 fields — no transfer-value
/// cell — and passes zero flags.
pub proof fn lemma_delegate_call_frame(
    width: PointerWidth,
    address: EthAddress,
    input_offset: Word,
    input_length: Word,
    output_offset: Word,
    output_length: Word,
    lowered: LoweredCall,
)
    requires
        spec_delegate_call(
            width,
            address,
            input_offset,
            input_length,
            output_offset,
            output_length,
        ) == Ok::<LoweredCall, TranslationError>(lowered),
    ensures
        lowered.frame.spec_fields().len() == 9,
        lowered.frame.value is None,
        lowered.frame.flags == 0,
{
}

/// An offset or length operand that does not fit the native pointer width
/// makes both lowerings fail with a truncation error: no frame is built and
/// no runtime import is invoked.
pub proof fn lemma_truncation_overflow_aborts(
    width: PointerWidth,
    address: EthAddress,
    value: Option<Word>,
    input_offset: Word,
    input_length: Word,
    output_offset: Word,
    output_length: Word,
    static_call: bool,
)
    requires
        !(width.fits(input_offset.as_nat()) && width.fits(input_length.as_nat()) && width.fits(
            output_offset.as_nat(),
        ) && width.fits(output_length.as_nat())),
    ensures
        spec_call(
            width,
            address,
            value,
            input_offset,
            input_length,
            output_offset,
            output_length,
            static_call,
        ) == Err::<LoweredCall, TranslationError>(TranslationError::TruncationOverflow),
        spec_delegate_call(width, address, input_offset, input_length, output_offset, output_length)
            == Err::<LoweredCall, TranslationError>(TranslationError::TruncationOverflow),
{
}

/// A runtime import returning exactly zero decodes to the success word 1;
/// any nonzero return value decodes to the word 0.
pub proof fn lemma_success_decoding(return_value: u64)
    ensures
        return_value == 0 ==> spec_decode_call_result(return_value).as_nat() == 1,
        return_value != 0 ==> spec_decode_call_result(return_value).as_nat() == 0,
{
}

/// Lowers the Yul `linkersymbol` instruction: resolves the instruction's one
/// literal operand to a library address. With the literal absent it fails
/// before any resolution is attempted.
pub fn linker_symbol(context: &CompilationContext, argument: Argument) -> (r: Result<
    EthAddress,
    TranslationError,
>)
    ensures
        r == spec_linker_symbol(context.libraries@, argument),
{
    let path = match argument.original {
        Some(path) => path,
        None => {
            return Err(TranslationError::MissingLinkerSymbol);
        },
    };
    context.resolve_library(path.as_str())
}

} // verus!

