//! The registry of low-level intrinsic primitives declared once per
//! compilation unit: the trap, the two memory-copy variants, and the two
//! byte-swap variants.

use vstd::prelude::*;

use crate::address_space::AddressSpace;

verus! {

/// The bit width of an EVM word.
pub const BIT_LENGTH_WORD: u32 = 256;

/// The bit width of a contract address.
pub const BIT_LENGTH_ETH_ADDRESS: u32 = 160;

/// A type of the target IR, as far as intrinsic signatures need it.
#[derive(Clone, Copy, Debug, PartialEq, Eq, Structural)]
pub enum IrType {
    /// The empty result type.
    Void,
    /// The one-bit flag type.
    Bool,
    /// An integer of the given bit width.
    Int(u32),
    /// A pointer into the given memory region.
    Pointer(AddressSpace),
}

/// The full callable signature attached to a declaration. It may carry
/// trailing fixed scalar parameters (a volatile flag) that take no part in
/// overload selection.
#[derive(Debug, PartialEq, Eq)]
pub struct FunctionSignature {
    /// The parameter types, in order.
    pub parameters: Vec<IrType>,
    /// The result type; `Void` when the intrinsic returns nothing.
    pub return_type: IrType,
}

/// A resolved intrinsic declaration: the catalogue name, the operand type
/// list that selected the overload, and the full callable signature. The two
/// type lists are kept separately because they are allowed to diverge.
#[derive(Debug, PartialEq, Eq)]
pub struct FunctionDeclaration {
    /// The catalogue name of the intrinsic.
    pub name: String,
    /// The operand types used purely to select the overload.
    pub overload_types: Vec<IrType>,
    /// The full callable signature.
    pub signature: FunctionSignature,
}

/// The catalogue name of the trap intrinsic.
pub open spec fn trap_name() -> Seq<char> {
    "llvm.trap"@
}

/// The catalogue name of the heap-to-heap memory copy.
pub open spec fn memory_copy_name() -> Seq<char> {
    "llvm.memcpy.p1.p1.i256"@
}

/// The catalogue name of the generic-to-heap memory copy.
pub open spec fn memory_copy_from_generic_name() -> Seq<char> {
    "llvm.memcpy.p3.p1.i256"@
}

/// The catalogue name of the 256-bit byte swap.
pub open spec fn byte_swap_word_name() -> Seq<char> {
    "llvm.bswap.i256"@
}

/// The catalogue name of the 160-bit byte swap.
pub open spec fn byte_swap_eth_address_name() -> Seq<char> {
    "llvm.bswap.i160"@
}

/// Whether the catalogue of target-independent primitives can materialize a
/// declaration under this name. A name outside this set is a fatal
/// configuration error: the toolchain and its code-generation library are
/// mismatched.
pub open spec fn is_known_intrinsic(name: Seq<char>) -> bool {
    ||| name == trap_name()
    ||| name == memory_copy_name()
    ||| name == memory_copy_from_generic_name()
    ||| name == byte_swap_word_name()
    ||| name == byte_swap_eth_address_name()
}

/// The operand type list that selects an intrinsic's overload in the
/// catalogue. The trap is not overloaded and selects on no operands, as does
/// any name outside the catalogue.
pub open spec fn spec_overload_types(name: Seq<char>) -> Seq<IrType> {
    if name == memory_copy_name() {
        seq![
            IrType::Pointer(AddressSpace::Heap),
            IrType::Pointer(AddressSpace::Heap),
            IrType::Int(BIT_LENGTH_WORD),
        ]
    } else if name == memory_copy_from_generic_name() {
        seq![
            IrType::Pointer(AddressSpace::Heap),
            IrType::Pointer(AddressSpace::Generic),
            IrType::Int(BIT_LENGTH_WORD),
        ]
    } else if name == byte_swap_word_name() {
        seq![IrType::Int(BIT_LENGTH_WORD)]
    } else if name == byte_swap_eth_address_name() {
        seq![IrType::Int(BIT_LENGTH_ETH_ADDRESS)]
    } else {
        Seq::empty()
    }
}

/// The parameters of an intrinsic's full callable signature. The memory
/// copies take a trailing volatile flag that the overload selection above
/// does not mention.
pub open spec fn spec_signature_parameters(name: Seq<char>) -> Seq<IrType> {
    if name == memory_copy_name() {
        seq![
            IrType::Pointer(AddressSpace::Heap),
            IrType::Pointer(AddressSpace::Heap),
            IrType::Int(BIT_LENGTH_WORD),
            IrType::Bool,
        ]
    } else if name == memory_copy_from_generic_name() {
        seq![
            IrType::Pointer(AddressSpace::Heap),
            IrType::Pointer(AddressSpace::Generic),
            IrType::Int(BIT_LENGTH_WORD),
            IrType::Bool,
        ]
    } else if name == byte_swap_word_name() {
        seq![IrType::Int(BIT_LENGTH_WORD)]
    } else if name == byte_swap_eth_address_name() {
        seq![IrType::Int(BIT_LENGTH_ETH_ADDRESS)]
    } else {
        Seq::empty()
    }
}

/// The result type of an intrinsic's full callable signature.
pub open spec fn spec_return_type(name: Seq<char>) -> IrType {
    if name == byte_swap_word_name() {
        IrType::Int(BIT_LENGTH_WORD)
    } else if name == byte_swap_eth_address_name() {
        IrType::Int(BIT_LENGTH_ETH_ADDRESS)
    } else {
        IrType::Void
    }
}

/// Whether a declaration is exactly the one the catalogue materializes for
/// this name.
pub open spec fn decl_matches(d: FunctionDeclaration, name: Seq<char>) -> bool {
    &&& d.name@ == name
    &&& d.overload_types@ == spec_overload_types(name)
    &&& d.signature.parameters@ == spec_signature_parameters(name)
    &&& d.signature.return_type == spec_return_type(name)
}

/// The intrinsic functions provided by the code-generation library's
/// catalogue, declared exactly once per compilation unit and read-only
/// thereafter.
#[derive(Debug, PartialEq, Eq)]
pub struct Intrinsics {
    /// The trap.
    pub trap: FunctionDeclaration,
    /// The memory copy within the heap.
    pub memory_copy: FunctionDeclaration,
    /// The memory copy from a generic page.
    pub memory_copy_from_generic: FunctionDeclaration,
    /// The endianness swap on 256-bit values.
    pub byte_swap_word: FunctionDeclaration,
    /// The endianness swap on 160-bit values.
    pub byte_swap_eth_address: FunctionDeclaration,
}

impl Intrinsics {
    /// Every slot of the registry holds exactly the declaration the
    /// catalogue materializes for its name.
    pub open spec fn well_formed(self) -> bool {
        &&& decl_matches(self.trap, trap_name())
        &&& decl_matches(self.memory_copy, memory_copy_name())
        &&& decl_matches(self.memory_copy_from_generic, memory_copy_from_generic_name())
        &&& decl_matches(self.byte_swap_word, byte_swap_word_name())
        &&& decl_matches(self.byte_swap_eth_address, byte_swap_eth_address_name())
    }

    /// The declaration a registry hands out for a name: the slot whose name
    /// matches, or nothing for a name outside the fixed set.
    pub open spec fn spec_find(self, name: Seq<char>) -> Option<FunctionDeclaration> {
        if name == trap_name() {
            Some(self.trap)
        } else if name == memory_copy_name() {
            Some(self.memory_copy)
        } else if name == memory_copy_from_generic_name() {
            Some(self.memory_copy_from_generic)
        } else if name == byte_swap_word_name() {
            Some(self.byte_swap_word)
        } else if name == byte_swap_eth_address_name() {
            Some(self.byte_swap_eth_address)
        } else {
            None
        }
    }

    /// Declares the five fixed intrinsics for a fresh compilation unit.
    pub fn new() -> (r: Intrinsics)
        ensures
            r.well_formed(),
    {
        let trap = Self::declare(
            "llvm.trap",
            FunctionSignature { parameters: Vec::new(), return_type: IrType::Void },
        );
        let memory_copy_parameters: Vec<IrType> = vec![
            IrType::Pointer(AddressSpace::Heap),
            IrType::Pointer(AddressSpace::Heap),
            IrType::Int(BIT_LENGTH_WORD),
            IrType::Bool,
        ];
        let memory_copy = Self::declare(
            "llvm.memcpy.p1.p1.i256",
            FunctionSignature { parameters: memory_copy_parameters, return_type: IrType::Void },
        );
        let memory_copy_from_generic_parameters: Vec<IrType> = vec![
            IrType::Pointer(AddressSpace::Heap),
            IrType::Pointer(AddressSpace::Generic),
            IrType::Int(BIT_LENGTH_WORD),
            IrType::Bool,
        ];
        let memory_copy_from_generic = Self::declare(
            "llvm.memcpy.p3.p1.i256",
            FunctionSignature {
                parameters: memory_copy_from_generic_parameters,
                return_type: IrType::Void,
            },
        );
        let byte_swap_word_parameters: Vec<IrType> = vec![IrType::Int(BIT_LENGTH_WORD)];
        let byte_swap_word = Self::declare(
            "llvm.bswap.i256",
            FunctionSignature {
                parameters: byte_swap_word_parameters,
                return_type: IrType::Int(BIT_LENGTH_WORD),
            },
        );
        let byte_swap_eth_address_parameters: Vec<IrType> = vec![
            IrType::Int(BIT_LENGTH_ETH_ADDRESS),
        ];
        let byte_swap_eth_address = Self::declare(
            "llvm.bswap.i160",
            FunctionSignature {
                parameters: byte_swap_eth_address_parameters,
                return_type: IrType::Int(BIT_LENGTH_ETH_ADDRESS),
            },
        );
        proof {
            lemma_intrinsic_names_distinct();
            assert(Seq::<IrType>::empty() =~= spec_signature_parameters(trap_name()));
            assert(memory_copy.signature.parameters@ =~= spec_signature_parameters(
                memory_copy_name(),
            ));
            assert(memory_copy_from_generic.signature.parameters@ =~= spec_signature_parameters(
                memory_copy_from_generic_name(),
            ));
            assert(byte_swap_word.signature.parameters@ =~= spec_signature_parameters(
                byte_swap_word_name(),
            ));
            assert(byte_swap_eth_address.signature.parameters@ =~= spec_signature_parameters(
                byte_swap_eth_address_name(),
            ));
        }
        Intrinsics { trap, memory_copy, memory_copy_from_generic, byte_swap_word, byte_swap_eth_address }
    }

    /// Materializes the declaration of a catalogue intrinsic: looks the name
    /// up in the catalogue, selects the overload by the operand type list,
    /// and attaches the full callable signature supplied by the caller. A
    /// name outside the catalogue is a fatal configuration error, which the
    /// precondition excludes; the unverified shell around the library aborts
    /// the process on it instead of calling here.
    pub fn declare(name: &str, signature: FunctionSignature) -> (r: FunctionDeclaration)
        requires
            is_known_intrinsic(name@),
        ensures
            r.name@ == name@,
            r.overload_types@ == spec_overload_types(name@),
            r.signature == signature,
    {
        let overload_types = Self::argument_types(name);
        FunctionDeclaration { name: name.to_owned(), overload_types, signature }
    }

    /// Materializes a declaration only when the catalogue knows the name,
    /// and returns nothing otherwise: the recoverable face of `declare`, for
    /// callers that turn an unknown name into a process abort themselves.
    pub fn try_declare(name: &str, signature: FunctionSignature) -> (r: Option<FunctionDeclaration>)
        ensures
            r is Some <==> is_known_intrinsic(name@),
            r matches Some(d) ==> d.name@ == name@ && d.overload_types@ == spec_overload_types(
                name@,
            ) && d.signature == signature,
    {
        if Self::catalogue_contains(name) {
            Some(Self::declare(name, signature))
        } else {
            None
        }
    }

    /// Whether the catalogue of target-independent primitives knows the
    /// name.
    pub fn catalogue_contains(name: &str) -> (r: bool)
        ensures
            r == is_known_intrinsic(name@),
    {
        let n = name.to_owned();
        if n == "llvm.trap".to_owned() {
            true
        } else if n == "llvm.memcpy.p1.p1.i256".to_owned() {
            true
        } else if n == "llvm.memcpy.p3.p1.i256".to_owned() {
            true
        } else if n == "llvm.bswap.i256".to_owned() {
            true
        } else if n == "llvm.bswap.i160".to_owned() {
            true
        } else {
            false
        }
    }

    /// The operand types that select an intrinsic's overload in the
    /// catalogue.
    pub fn argument_types(name: &str) -> (r: Vec<IrType>)
        ensures
            r@ == spec_overload_types(name@),
    {
        let n = name.to_owned();
        if n == "llvm.memcpy.p1.p1.i256".to_owned() {
            let types: Vec<IrType> = vec![
                IrType::Pointer(AddressSpace::Heap),
                IrType::Pointer(AddressSpace::Heap),
                IrType::Int(BIT_LENGTH_WORD),
            ];
            proof {
                assert(types@ =~= spec_overload_types(name@));
            }
            types
        } else if n == "llvm.memcpy.p3.p1.i256".to_owned() {
            let types: Vec<IrType> = vec![
                IrType::Pointer(AddressSpace::Heap),
                IrType::Pointer(AddressSpace::Generic),
                IrType::Int(BIT_LENGTH_WORD),
            ];
            proof {
                assert(types@ =~= spec_overload_types(name@));
            }
            types
        } else if n == "llvm.bswap.i256".to_owned() {
            let types: Vec<IrType> = vec![IrType::Int(BIT_LENGTH_WORD)];
            proof {
                assert(types@ =~= spec_overload_types(name@));
            }
            types
        } else if n == "llvm.bswap.i160".to_owned() {
            let types: Vec<IrType> = vec![IrType::Int(BIT_LENGTH_ETH_ADDRESS)];
            proof {
                assert(types@ =~= spec_overload_types(name@));
            }
            types
        } else {
            let types: Vec<IrType> = Vec::new();
            proof {
                assert(types@ =~= spec_overload_types(name@));
            }
            types
        }
    }

    /// Looks a declaration up by its catalogue name.
    pub fn lookup(&self, name: &str) -> (r: Option<&FunctionDeclaration>)
        ensures
            match r {
                Some(d) => self.spec_find(name@) == Some(*d),
                None => self.spec_find(name@) is None,
            },
    {
        let n = name.to_owned();
        if n == "llvm.trap".to_owned() {
            Some(&self.trap)
        } else if n == "llvm.memcpy.p1.p1.i256".to_owned() {
            Some(&self.memory_copy)
        } else if n == "llvm.memcpy.p3.p1.i256".to_owned() {
            Some(&self.memory_copy_from_generic)
        } else if n == "llvm.bswap.i256".to_owned() {
            Some(&self.byte_swap_word)
        } else if n == "llvm.bswap.i160".to_owned() {
            Some(&self.byte_swap_eth_address)
        } else {
            None
        }
    }
}

/// The five catalogue names are pairwise distinct, so the registry holds
/// exactly one declaration per name.
pub proof fn lemma_intrinsic_names_distinct()
    ensures
        trap_name() != memory_copy_name(),
        trap_name() != memory_copy_from_generic_name(),
        trap_name() != byte_swap_word_name(),
        trap_name() != byte_swap_eth_address_name(),
        memory_copy_name() != memory_copy_from_generic_name(),
        memory_copy_name() != byte_swap_word_name(),
        memory_copy_name() != byte_swap_eth_address_name(),
        memory_copy_from_generic_name() != byte_swap_word_name(),
        memory_copy_from_generic_name() != byte_swap_eth_address_name(),
        byte_swap_word_name() != byte_swap_eth_address_name(),
{
    reveal_strlit("llvm.trap");
    reveal_strlit("llvm.memcpy.p1.p1.i256");
    reveal_strlit("llvm.memcpy.p3.p1.i256");
    reveal_strlit("llvm.bswap.i256");
    reveal_strlit("llvm.bswap.i160");
    assert(trap_name().len() == 9);
    assert(memory_copy_name().len() == 22);
    assert(memory_copy_from_generic_name().len() == 22);
    assert(byte_swap_word_name().len() == 15);
    assert(byte_swap_eth_address_name().len() == 15);
    assert(memory_copy_name()[13] == '1');
    assert(memory_copy_from_generic_name()[13] == '3');
    assert(byte_swap_word_name()[12] == '2');
    assert(byte_swap_eth_address_name()[12] == '1');
}

/// Constructing the registry yields exactly one declaration per catalogue
/// name: looking any known name up finds the declaration the catalogue
/// materializes for it, and an unknown name finds nothing.
pub proof fn lemma_registry_complete(r: Intrinsics, name: Seq<char>)
    requires
        r.well_formed(),
    ensures
        is_known_intrinsic(name) <==> r.spec_find(name) is Some,
        r.spec_find(name) matches Some(d) ==> decl_matches(d, name),
{
}

/// Repeated lookups of one name return the identical declaration, whether
/// they hit one registry twice or two registries built for the same module:
/// the declaration is determined by the name alone.
pub proof fn lemma_lookup_identical(r1: Intrinsics, r2: Intrinsics, name: Seq<char>)
    requires
        r1.well_formed(),
        r2.well_formed(),
    ensures
        match (r1.spec_find(name), r2.spec_find(name)) {
            (Some(d1), Some(d2)) => {
                &&& d1.name@ == d2.name@
                &&& d1.overload_types@ == d2.overload_types@
                &&& d1.signature.parameters@ == d2.signature.parameters@
                &&& d1.signature.return_type == d2.signature.return_type
            },
            (None, None) => true,
            _ => false,
        },
{
}

/// The two type lists of every catalogue intrinsic stay mutually consistent:
/// the operand list that selects the overload is a prefix of the full
/// callable signature's parameters, which may only append trailing fixed
/// scalar parameters such as the volatile flag.
pub proof fn lemma_type_lists_consistent(name: Seq<char>)
    requires
        is_known_intrinsic(name),
    ensures
        spec_overload_types(name).is_prefix_of(spec_signature_parameters(name)),
{
    lemma_intrinsic_names_distinct();
    assert(spec_overload_types(name) =~= spec_signature_parameters(name).subrange(
        0,
        spec_overload_types(name).len() as int,
    ));
}

/// A name the catalogue does not know is never declared: every registry's
/// lookup returns nothing for it. The unverified shell aborts the process on
/// such a name instead of producing a declaration.
pub proof fn lemma_unknown_name_not_declared(r: Intrinsics, name: Seq<char>)
    requires
        !is_known_intrinsic(name),
    ensures
        r.spec_find(name) is None,
{
}

} // verus!
