//! The input data model: a declaration block, its methods, and the closed
//! set of type descriptors the classifier works on.

use vstd::prelude::*;

verus! {

/// The fixed, closed set of scalar types that cross the ABI boundary
/// unchanged, passed by value in both directions.
#[derive(Clone, Copy, Debug, PartialEq, Eq, Structural)]
pub enum ScalarKind {
    Bool,
    Char,
    I8,
    I16,
    I32,
    I64,
    I128,
    Isize,
    U8,
    U16,
    U32,
    U64,
    U128,
    Usize,
    F32,
    F64,
}

/// A type that can stand behind a reference, pointer or slice: either one of
/// the scalars, or a named type, carried by its written name.
#[derive(Clone, Debug, PartialEq, Eq)]
pub enum ElemType {
    Scalar(ScalarKind),
    Named(String),
}

/// The closed variant set a parameter or return type is classified into.
/// The classifier works on the written, syntactic shape of a type, so a
/// named type is carried as its name, not as a resolved type.
#[derive(Clone, Debug, PartialEq, Eq)]
pub enum TypeDescriptor {
    /// One of the fixed scalars; passed by value in both directions.
    Scalar(ScalarKind),
    /// A reference to a non-slice type, shared or exclusive.
    Reference { mutable: bool, inner: ElemType },
    /// A reference to a slice of some element type.
    SliceReference { mutable: bool, elem: ElemType },
    /// A raw pointer; passed through the ABI unchanged.
    RawPointer { mutable: bool, inner: ElemType },
    /// A named value type, written bare (not behind any indirection).
    Named(String),
}

/// The written receiver form of a method: `self`, `&self` or `&mut self`.
#[derive(Clone, Copy, Debug, PartialEq, Eq, Structural)]
pub enum ReceiverForm {
    Owned,
    Shared,
    Exclusive,
}

/// A non-receiver parameter: its name and its type descriptor.
#[derive(Clone, Debug, PartialEq, Eq)]
pub struct Parameter {
    pub name: String,
    pub ty: TypeDescriptor,
}

/// One input of a method as written: a receiver form, or a typed parameter.
/// Inputs are kept in declared order, so a receiver written out of first
/// position is representable and can be rejected by validation.
#[derive(Clone, Debug, PartialEq, Eq)]
pub enum FnInput {
    Receiver(ReceiverForm),
    Typed(Parameter),
}

/// One method declaration of a block: its name, its inputs in declared
/// order, its return type (`None` for no declared return), and its doc
/// annotations, copied verbatim onto the generated declaration.
#[derive(Clone, Debug, PartialEq, Eq)]
pub struct MethodDeclaration {
    pub name: String,
    pub inputs: Vec<FnInput>,
    pub ret: Option<TypeDescriptor>,
    pub docs: Vec<String>,
}

/// A declaration block: the subject type's name, the capability name when
/// the block implements one, and the methods in declared order.
#[derive(Clone, Debug, PartialEq, Eq)]
pub struct ImplementationBlock {
    pub subject: String,
    pub capability: Option<String>,
    pub methods: Vec<MethodDeclaration>,
}

/// How a method accesses the enclosing type, decided once per method from
/// the receiver form standing in first position (a receiver anywhere else
/// does not count; validation rejects it separately).
#[derive(Clone, Copy, Debug, PartialEq, Eq, Structural)]
pub enum ReceiverMode {
    Absent,
    SharedBorrow,
    ExclusiveBorrow,
    OwningConsume,
}

/// The receiver mode a written receiver form maps to.
pub open spec fn mode_of_form(f: ReceiverForm) -> ReceiverMode {
    match f {
        ReceiverForm::Owned => ReceiverMode::OwningConsume,
        ReceiverForm::Shared => ReceiverMode::SharedBorrow,
        ReceiverForm::Exclusive => ReceiverMode::ExclusiveBorrow,
    }
}

/// The receiver mode of a method: taken from a receiver in first position,
/// `Absent` otherwise.
pub open spec fn receiver_mode(m: MethodDeclaration) -> ReceiverMode {
    if m.inputs@.len() > 0 {
        match m.inputs@[0] {
            FnInput::Receiver(f) => mode_of_form(f),
            FnInput::Typed(_) => ReceiverMode::Absent,
        }
    } else {
        ReceiverMode::Absent
    }
}

/// The typed parameters among the first `n` inputs, in declared order,
/// receivers left out.
pub open spec fn typed_params_upto(inputs: Seq<FnInput>, n: int) -> Seq<Parameter>
    decreases n,
{
    if n <= 0 {
        Seq::empty()
    } else {
        typed_params_upto(inputs, n - 1) + (match inputs[n - 1] {
            FnInput::Typed(p) => seq![p],
            FnInput::Receiver(_) => Seq::empty(),
        })
    }
}

/// The typed parameters of a method's inputs, in declared order.
pub open spec fn typed_params(inputs: Seq<FnInput>) -> Seq<Parameter> {
    typed_params_upto(inputs, inputs.len() as int)
}

/// Whether the method carries the allocator's reserved name.
pub open spec fn is_create_name(name: Seq<char>) -> bool {
    name == "create"@
}

/// Whether the method carries the deallocator's reserved name.
pub open spec fn is_destroy_name(name: Seq<char>) -> bool {
    name == "destroy"@
}

impl MethodDeclaration {
    /// Computes the receiver mode of this method.
    pub fn receiver_mode(&self) -> (r: ReceiverMode)
        ensures
            r == receiver_mode(*self),
    {
        if self.inputs.len() > 0 {
            match &self.inputs[0] {
                FnInput::Receiver(f) => match f {
                    ReceiverForm::Owned => ReceiverMode::OwningConsume,
                    ReceiverForm::Shared => ReceiverMode::SharedBorrow,
                    ReceiverForm::Exclusive => ReceiverMode::ExclusiveBorrow,
                },
                FnInput::Typed(_) => ReceiverMode::Absent,
            }
        } else {
            ReceiverMode::Absent
        }
    }
}

} // verus!
