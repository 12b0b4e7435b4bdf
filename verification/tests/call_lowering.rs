use polkavm_lowering::call::{call, decode_call_result, delegate_call};
use polkavm_lowering::context::CompilationContext;
use polkavm_lowering::error::TranslationError;
use polkavm_lowering::frame::{FrameField, RuntimeImport};
use polkavm_lowering::value::{EthAddress, PointerWidth, Word};

fn word(v: u64) -> Word {
    Word { lo: v as u128, hi: 0 }
}

fn context_w32() -> CompilationContext {
    CompilationContext::new(PointerWidth::W32, Vec::new())
}

/// The 20-byte address 0xAAAA…AA.
fn address_aa() -> EthAddress {
    EthAddress { lo: 0xAAAA_AAAA_AAAA_AAAA_AAAA_AAAA_AAAA_AAAA, hi: 0xAAAA_AAAA }
}

#[test]
fn call_without_value_sets_reentrant_flag_and_zero_word() {
    let ctx = context_w32();
    let lowered = call(
        &ctx,
        word(0),
        address_aa(),
        None,
        word(0),
        word(4),
        word(64),
        word(32),
        Vec::new(),
        false,
    )
    .expect("geometry fits");
    assert_eq!(lowered.frame.flags, 0b0000_1000);
    assert_eq!(lowered.frame.value, Some(Word { lo: 0, hi: 0 }));
    assert_eq!(lowered.frame.deposit_limit, Word { lo: u128::MAX, hi: u128::MAX });
    assert_eq!(lowered.frame.output_length, 32);
    assert_eq!(lowered.frame.ref_time_limit, u64::MAX);
    assert_eq!(lowered.frame.proof_size_limit, u64::MAX);
}

#[test]
fn static_call_sets_both_flags() {
    let ctx = context_w32();
    let lowered = call(
        &ctx,
        word(0),
        address_aa(),
        None,
        word(0),
        word(4),
        word(64),
        word(32),
        Vec::new(),
        true,
    )
    .expect("geometry fits");
    assert_eq!(lowered.frame.flags, 0b0001_1000);
}

#[test]
fn delegate_call_frame_has_nine_fields_and_zero_flags() {
    let ctx = context_w32();
    let lowered = delegate_call(
        &ctx,
        word(0),
        address_aa(),
        word(0),
        word(4),
        word(64),
        word(32),
        Vec::new(),
    )
    .expect("geometry fits");
    assert_eq!(lowered.import, RuntimeImport::DelegateCall);
    assert_eq!(lowered.frame.flags, 0);
    assert_eq!(lowered.frame.value, None);
    let fields = lowered.frame.marshal();
    assert_eq!(
        fields,
        vec![
            FrameField::Immediate(0),
            FrameField::AddressPointer(address_aa()),
            FrameField::Immediate(u64::MAX),
            FrameField::Immediate(u64::MAX),
            FrameField::WordPointer(Word { lo: u128::MAX, hi: u128::MAX }),
            FrameField::HeapPointer(0),
            FrameField::Immediate(4),
            FrameField::HeapPointer(64),
            FrameField::OutputLengthPointer(32),
        ],
    );
}

#[test]
fn largest_fitting_offset_is_kept_exactly() {
    let ctx = context_w32();
    let boundary = Word { lo: 0xFFFF_FFFF, hi: 0 };
    let lowered = call(
        &ctx,
        word(0),
        address_aa(),
        None,
        boundary,
        word(0),
        word(0),
        word(0),
        Vec::new(),
        false,
    )
    .expect("the largest 32-bit value still fits");
    assert_eq!(lowered.frame.input_offset, 0xFFFF_FFFF);
}

#[test]
fn truncation_overflow_is_a_translation_error() {
    let ctx = context_w32();
    // 2^32 does not fit a 32-bit pointer.
    let too_large = Word { lo: 0x1_0000_0000, hi: 0 };
    let r = call(
        &ctx,
        word(0),
        address_aa(),
        None,
        word(0),
        too_large,
        word(64),
        word(32),
        Vec::new(),
        false,
    );
    assert_eq!(r, Err(TranslationError::TruncationOverflow));
    let r = delegate_call(
        &ctx,
        word(0),
        address_aa(),
        word(0),
        word(4),
        too_large,
        word(32),
        Vec::new(),
    );
    assert_eq!(r, Err(TranslationError::TruncationOverflow));
    // A value with any high bits set overflows even 64-bit pointers.
    let ctx64 = CompilationContext::new(PointerWidth::W64, Vec::new());
    let huge = Word { lo: 0, hi: 1 };
    let r = call(
        &ctx64,
        word(0),
        address_aa(),
        None,
        huge,
        word(4),
        word(64),
        word(32),
        Vec::new(),
        false,
    );
    assert_eq!(r, Err(TranslationError::TruncationOverflow));
    // The same offset fits a 64-bit pointer.
    let r = call(
        &ctx64,
        word(0),
        address_aa(),
        None,
        word(0),
        too_large,
        word(64),
        word(32),
        Vec::new(),
        false,
    );
    assert!(r.is_ok());
}

#[test]
fn success_decoding() {
    assert_eq!(decode_call_result(0), Word { lo: 1, hi: 0 });
    assert_eq!(decode_call_result(1), Word { lo: 0, hi: 0 });
    assert_eq!(decode_call_result(0xFFFF_FFFF), Word { lo: 0, hi: 0 });
}

#[test]
fn scenario_a_plain_call() {
    let ctx = context_w32();
    let lowered = call(
        &ctx,
        word(100_000),
        address_aa(),
        Some(word(0)),
        word(0),
        word(4),
        word(64),
        word(32),
        Vec::new(),
        false,
    )
    .expect("geometry fits a 32-bit pointer");
    assert_eq!(lowered.import, RuntimeImport::Call);
    let fields = lowered.frame.marshal();
    assert_eq!(
        fields,
        vec![
            FrameField::Immediate(0x08),
            FrameField::AddressPointer(address_aa()),
            FrameField::Immediate(u64::MAX),
            FrameField::Immediate(u64::MAX),
            FrameField::WordPointer(Word { lo: u128::MAX, hi: u128::MAX }),
            FrameField::WordPointer(Word { lo: 0, hi: 0 }),
            FrameField::HeapPointer(0),
            FrameField::Immediate(4),
            FrameField::HeapPointer(64),
            FrameField::OutputLengthPointer(32),
        ],
    );
    // The import reports success: the result word is 1.
    assert_eq!(decode_call_result(0), Word { lo: 1, hi: 0 });
}

#[test]
fn scenario_b_static_call_changes_only_the_flags() {
    let ctx = context_w32();
    let plain = call(
        &ctx,
        word(100_000),
        address_aa(),
        Some(word(0)),
        word(0),
        word(4),
        word(64),
        word(32),
        Vec::new(),
        false,
    )
    .expect("geometry fits");
    let static_call = call(
        &ctx,
        word(100_000),
        address_aa(),
        Some(word(0)),
        word(0),
        word(4),
        word(64),
        word(32),
        Vec::new(),
        true,
    )
    .expect("geometry fits");
    assert_eq!(static_call.frame.flags, 0x18);
    let mut expected = static_call.frame;
    expected.flags = plain.frame.flags;
    assert_eq!(expected, plain.frame);
}

#[test]
fn scenario_c_failing_delegate_call() {
    let ctx = context_w32();
    let lowered = delegate_call(
        &ctx,
        word(100_000),
        address_aa(),
        word(0),
        word(4),
        word(64),
        word(32),
        Vec::new(),
    )
    .expect("geometry fits");
    assert_eq!(lowered.import, RuntimeImport::DelegateCall);
    assert_eq!(lowered.frame.marshal().len(), 9);
    // The import reports failure: the result word is 0.
    assert_eq!(decode_call_result(1), Word { lo: 0, hi: 0 });
}

#[test]
fn scenario_d_oversized_input_offset_aborts_before_any_frame() {
    let ctx = context_w32();
    let r = call(
        &ctx,
        word(100_000),
        address_aa(),
        Some(word(0)),
        Word { lo: 0x1_0000_0000, hi: 0 },
        word(4),
        word(64),
        word(32),
        Vec::new(),
        false,
    );
    assert_eq!(r, Err(TranslationError::TruncationOverflow));
}
