use polkavm_lowering::address_space::AddressSpace;
use polkavm_lowering::intrinsics::{
    FunctionSignature, Intrinsics, BIT_LENGTH_ETH_ADDRESS, BIT_LENGTH_WORD,
};
use polkavm_lowering::intrinsics::IrType;

const ALL_NAMES: [&str; 5] = [
    "llvm.trap",
    "llvm.memcpy.p1.p1.i256",
    "llvm.memcpy.p3.p1.i256",
    "llvm.bswap.i256",
    "llvm.bswap.i160",
];

#[test]
fn registry_holds_one_declaration_per_name() {
    let registry = Intrinsics::new();
    for name in ALL_NAMES {
        let declaration = registry.lookup(name).expect("fixed intrinsic must be declared");
        assert_eq!(declaration.name, name);
    }
    assert_eq!(registry.trap.name, "llvm.trap");
    assert_eq!(registry.memory_copy.name, "llvm.memcpy.p1.p1.i256");
    assert_eq!(registry.memory_copy_from_generic.name, "llvm.memcpy.p3.p1.i256");
    assert_eq!(registry.byte_swap_word.name, "llvm.bswap.i256");
    assert_eq!(registry.byte_swap_eth_address.name, "llvm.bswap.i160");
}

#[test]
fn repeated_lookups_return_the_identical_declaration() {
    let registry = Intrinsics::new();
    for name in ALL_NAMES {
        let first = registry.lookup(name).expect("declared");
        let second = registry.lookup(name).expect("declared");
        assert_eq!(first, second);
    }
    let other_unit = Intrinsics::new();
    for name in ALL_NAMES {
        assert_eq!(registry.lookup(name), other_unit.lookup(name));
    }
}

#[test]
fn unknown_name_is_not_in_the_catalogue() {
    assert!(!Intrinsics::catalogue_contains("llvm.ctpop.i256"));
    assert!(!Intrinsics::catalogue_contains(""));
    let signature = FunctionSignature { parameters: Vec::new(), return_type: IrType::Void };
    assert!(Intrinsics::try_declare("llvm.ctpop.i256", signature).is_none());
}

#[test]
fn unknown_name_is_not_in_the_registry() {
    let registry = Intrinsics::new();
    assert!(registry.lookup("llvm.memmove.p1.p1.i256").is_none());
    assert!(registry.lookup("trap").is_none());
}

#[test]
fn overload_selection_types_per_name() {
    assert_eq!(
        Intrinsics::argument_types("llvm.memcpy.p1.p1.i256"),
        vec![
            IrType::Pointer(AddressSpace::Heap),
            IrType::Pointer(AddressSpace::Heap),
            IrType::Int(BIT_LENGTH_WORD),
        ],
    );
    assert_eq!(
        Intrinsics::argument_types("llvm.memcpy.p3.p1.i256"),
        vec![
            IrType::Pointer(AddressSpace::Heap),
            IrType::Pointer(AddressSpace::Generic),
            IrType::Int(BIT_LENGTH_WORD),
        ],
    );
    assert_eq!(
        Intrinsics::argument_types("llvm.bswap.i256"),
        vec![IrType::Int(BIT_LENGTH_WORD)],
    );
    assert_eq!(
        Intrinsics::argument_types("llvm.bswap.i160"),
        vec![IrType::Int(BIT_LENGTH_ETH_ADDRESS)],
    );
    assert_eq!(Intrinsics::argument_types("llvm.trap"), Vec::new());
    assert_eq!(Intrinsics::argument_types("llvm.ctpop.i256"), Vec::new());
}

#[test]
fn full_signatures_keep_the_trailing_volatile_flag() {
    let registry = Intrinsics::new();
    assert_eq!(
        registry.memory_copy.signature.parameters,
        vec![
            IrType::Pointer(AddressSpace::Heap),
            IrType::Pointer(AddressSpace::Heap),
            IrType::Int(BIT_LENGTH_WORD),
            IrType::Bool,
        ],
    );
    assert_eq!(registry.memory_copy.signature.return_type, IrType::Void);
    assert_eq!(
        registry.memory_copy_from_generic.signature.parameters,
        vec![
            IrType::Pointer(AddressSpace::Heap),
            IrType::Pointer(AddressSpace::Generic),
            IrType::Int(BIT_LENGTH_WORD),
            IrType::Bool,
        ],
    );
    assert_eq!(registry.trap.signature.parameters, Vec::new());
    assert_eq!(registry.trap.signature.return_type, IrType::Void);
    assert_eq!(
        registry.byte_swap_word.signature.return_type,
        IrType::Int(BIT_LENGTH_WORD),
    );
    assert_eq!(
        registry.byte_swap_eth_address.signature.return_type,
        IrType::Int(BIT_LENGTH_ETH_ADDRESS),
    );
}

#[test]
fn address_space_tags() {
    assert_eq!(AddressSpace::Stack.tag(), 0);
    assert_eq!(AddressSpace::Heap.tag(), 1);
    assert_eq!(AddressSpace::Generic.tag(), 3);
}
