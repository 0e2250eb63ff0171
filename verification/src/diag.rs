//! Validation diagnostics: the error kinds, their locations and
//! human-readable messages, and the exact sequence of diagnostics one
//! declaration block produces.
//!
//! All diagnostics of a block are collected, never short-circuited; if the
//! collected sequence is non-empty, the block yields the diagnostics and no
//! generated declarations at all.

use vstd::prelude::*;

use crate::model::FnInput;
use crate::model::ImplementationBlock;
use crate::model::MethodDeclaration;
use crate::model::Parameter;
use crate::model::ReceiverMode;
use crate::model::TypeDescriptor;
use crate::model::is_create_name;
use crate::model::is_destroy_name;
use crate::model::receiver_mode;
use crate::names::opt_view;

verus! {

/// The receiver form actually found on a method named `destroy`, kept in the
/// diagnostic so the message can name it.
#[derive(Clone, Copy, Debug, PartialEq, Eq, Structural)]
pub enum DestroyReceiverFound {
    Absent,
    Shared,
    Exclusive,
}

/// Which of the paired lifecycle methods an inherent block is missing.
#[derive(Clone, Copy, Debug, PartialEq, Eq, Structural)]
pub enum LifecycleName {
    Create,
    Destroy,
}

/// The closed set of validation errors.
#[derive(Clone, Copy, Debug, PartialEq, Eq, Structural)]
pub enum DiagnosticKind {
    /// A receiver parameter stands in a position other than the first.
    ReceiverNotFirst,
    /// A method named `create` declares a receiver; the allocator must not.
    CreateWithReceiver,
    /// A method named `destroy` declares a receiver that is not the
    /// ownership-consuming form; the found form is kept.
    DestroyNotOwning { found: DestroyReceiverFound },
    /// An inherent block is missing one of the paired lifecycle methods.
    MissingLifecycle { missing: LifecycleName },
    /// A non-scalar type is passed by value rather than through a
    /// reference or pointer.
    NonScalarByValue,
}

/// The error taxonomy: lifecycle-pairing and receiver violations are
/// structural; a non-scalar value passed without indirection is a type
/// safety violation.
#[derive(Clone, Copy, Debug, PartialEq, Eq, Structural)]
pub enum ErrorCategory {
    StructuralError,
    TypeSafetyError,
}

/// One diagnostic record: the name of the offending method declaration
/// (`None` when the block as a whole is at fault) and the violated rule.
#[derive(Clone, Debug, PartialEq, Eq)]
pub struct Diagnostic {
    pub method: Option<String>,
    pub kind: DiagnosticKind,
}

/// The mathematical image of a diagnostic: the location as a character
/// sequence, and the kind.
pub ghost struct DiagView {
    pub method: Option<Seq<char>>,
    pub kind: DiagnosticKind,
}

impl View for Diagnostic {
    type V = DiagView;

    open spec fn view(&self) -> DiagView {
        DiagView { method: opt_view(self.method), kind: self.kind }
    }
}

/// The views of a sequence of diagnostics.
pub open spec fn views_of(ds: Seq<Diagnostic>) -> Seq<DiagView> {
    ds.map_values(|d: Diagnostic| d@)
}

/// The category each diagnostic kind falls under.
pub open spec fn category_of(kind: DiagnosticKind) -> ErrorCategory {
    match kind {
        DiagnosticKind::NonScalarByValue => ErrorCategory::TypeSafetyError,
        _ => ErrorCategory::StructuralError,
    }
}

/// The human-readable explanation of each diagnostic kind.
pub open spec fn message_of(kind: DiagnosticKind) -> Seq<char> {
    match kind {
        DiagnosticKind::ReceiverNotFirst => "Self parameter must be the first parameter"@,
        DiagnosticKind::CreateWithReceiver => "Create function cannot receive self as argument"@,
        DiagnosticKind::DestroyNotOwning { found } => match found {
            DestroyReceiverFound::Absent => "Destroy function must receive owned self argument. Found no receiver"@,
            DestroyReceiverFound::Shared => "Destroy function must receive owned self argument. &self found instead"@,
            DestroyReceiverFound::Exclusive => "Destroy function must receive owned self argument. &mut self found instead"@,
        },
        DiagnosticKind::MissingLifecycle { missing } => match missing {
            LifecycleName::Create => "Struct must have both 'create' and 'destroy' functions. Missing: create"@,
            LifecycleName::Destroy => "Struct must have both 'create' and 'destroy' functions. Missing: destroy"@,
        },
        DiagnosticKind::NonScalarByValue => "Only scalar types can be passed directly to functions without being behind refs or pointers"@,
    }
}

impl Diagnostic {
    /// The category this diagnostic falls under.
    pub fn category(&self) -> (r: ErrorCategory)
        ensures
            r == category_of(self.kind),
    {
        match self.kind {
            DiagnosticKind::NonScalarByValue => ErrorCategory::TypeSafetyError,
            _ => ErrorCategory::StructuralError,
        }
    }

    /// The human-readable explanation of the violated rule.
    pub fn message(&self) -> (r: String)
        ensures
            r@ == message_of(self.kind),
    {
        match self.kind {
            DiagnosticKind::ReceiverNotFirst => String::from_str(
                "Self parameter must be the first parameter",
            ),
            DiagnosticKind::CreateWithReceiver => String::from_str(
                "Create function cannot receive self as argument",
            ),
            DiagnosticKind::DestroyNotOwning { found } => match found {
                DestroyReceiverFound::Absent => String::from_str(
                    "Destroy function must receive owned self argument. Found no receiver",
                ),
                DestroyReceiverFound::Shared => String::from_str(
                    "Destroy function must receive owned self argument. &self found instead",
                ),
                DestroyReceiverFound::Exclusive => String::from_str(
                    "Destroy function must receive owned self argument. &mut self found instead",
                ),
            },
            DiagnosticKind::MissingLifecycle { missing } => match missing {
                LifecycleName::Create => String::from_str(
                    "Struct must have both 'create' and 'destroy' functions. Missing: create",
                ),
                LifecycleName::Destroy => String::from_str(
                    "Struct must have both 'create' and 'destroy' functions. Missing: destroy",
                ),
            },
            DiagnosticKind::NonScalarByValue => String::from_str(
                "Only scalar types can be passed directly to functions without being behind refs or pointers",
            ),
        }
    }
}

/// One method-level diagnostic view.
pub open spec fn mdiag(name: Seq<char>, kind: DiagnosticKind) -> DiagView {
    DiagView { method: Option::Some(name), kind }
}

/// The receiver-position diagnostics raised while scanning the first `n`
/// inputs of a method: one for each receiver standing past the first
/// position, in input order.
pub open spec fn position_diags_upto(name: Seq<char>, inputs: Seq<FnInput>, n: int) -> Seq<
    DiagView,
>
    decreases n,
{
    if n <= 0 {
        Seq::empty()
    } else {
        position_diags_upto(name, inputs, n - 1) + (if n - 1 > 0 && inputs[n - 1] is Receiver {
            seq![mdiag(name, DiagnosticKind::ReceiverNotFirst)]
        } else {
            Seq::empty()
        })
    }
}

/// All receiver-position diagnostics of a method.
pub open spec fn position_diags(m: MethodDeclaration) -> Seq<DiagView> {
    position_diags_upto(m.name@, m.inputs@, m.inputs@.len() as int)
}

/// The found-form a receiver mode maps to in a `destroy` diagnostic.
pub open spec fn found_of_mode(mode: ReceiverMode) -> DestroyReceiverFound {
    match mode {
        ReceiverMode::Absent => DestroyReceiverFound::Absent,
        ReceiverMode::SharedBorrow => DestroyReceiverFound::Shared,
        ReceiverMode::ExclusiveBorrow => DestroyReceiverFound::Exclusive,
        ReceiverMode::OwningConsume => DestroyReceiverFound::Absent,
    }
}

/// The receiver-shape diagnostics of a method, raised after the input scan:
/// a method named `create` must declare no receiver, and a method named
/// `destroy` must declare the ownership-consuming receiver; the diagnostic
/// for `destroy` names which other form was found.
pub open spec fn shape_diags(m: MethodDeclaration) -> Seq<DiagView> {
    let mode = receiver_mode(m);
    (if !(mode is Absent) && is_create_name(m.name@) {
        seq![mdiag(m.name@, DiagnosticKind::CreateWithReceiver)]
    } else {
        Seq::empty()
    }) + (if !(mode is OwningConsume) && is_destroy_name(m.name@) {
        seq![
            mdiag(
                m.name@,
                DiagnosticKind::DestroyNotOwning { found: found_of_mode(mode) },
            ),
        ]
    } else {
        Seq::empty()
    })
}

/// The type-safety diagnostics raised for the first `n` typed parameters:
/// one for each named value type passed bare, in parameter order.
pub open spec fn value_diags_upto(name: Seq<char>, ps: Seq<Parameter>, n: int) -> Seq<DiagView>
    decreases n,
{
    if n <= 0 {
        Seq::empty()
    } else {
        value_diags_upto(name, ps, n - 1) + (if ps[n - 1].ty is Named {
            seq![mdiag(name, DiagnosticKind::NonScalarByValue)]
        } else {
            Seq::empty()
        })
    }
}

/// All diagnostics of one method, in the order they are raised: receiver
/// position first, then receiver shape, then per-parameter type safety.
pub open spec fn method_diags(m: MethodDeclaration) -> Seq<DiagView> {
    let tps = crate::model::typed_params(m.inputs@);
    position_diags(m) + shape_diags(m) + value_diags_upto(m.name@, tps, tps.len() as int)
}

/// The diagnostics of the first `n` methods of a block, concatenated in
/// method order.
pub open spec fn methods_diags_upto(ms: Seq<MethodDeclaration>, n: int) -> Seq<DiagView>
    decreases n,
{
    if n <= 0 {
        Seq::empty()
    } else {
        methods_diags_upto(ms, n - 1) + method_diags(ms[n - 1])
    }
}

/// Whether some method of the sequence carries the given name.
pub open spec fn has_method_named(ms: Seq<MethodDeclaration>, name: Seq<char>) -> bool {
    exists|i: int| 0 <= i < ms.len() && ms[i].name@ == name
}

/// The lifecycle-pairing diagnostics of a block: an inherent block (one
/// without a capability name) must contain both a `create` and a `destroy`
/// method; the diagnostic names the first missing one. A block with a
/// capability name is exempt.
pub open spec fn lifecycle_diags(b: ImplementationBlock) -> Seq<DiagView> {
    if b.capability is Some {
        Seq::empty()
    } else if !has_method_named(b.methods@, "create"@) {
        seq![
            DiagView {
                method: Option::None,
                kind: DiagnosticKind::MissingLifecycle { missing: LifecycleName::Create },
            },
        ]
    } else if !has_method_named(b.methods@, "destroy"@) {
        seq![
            DiagView {
                method: Option::None,
                kind: DiagnosticKind::MissingLifecycle { missing: LifecycleName::Destroy },
            },
        ]
    } else {
        Seq::empty()
    }
}

/// All diagnostics of a block, in the order they are raised: each method's
/// diagnostics in method order, then the lifecycle-pairing check.
pub open spec fn block_diags(b: ImplementationBlock) -> Seq<DiagView> {
    methods_diags_upto(b.methods@, b.methods@.len() as int) + lifecycle_diags(b)
}

} // verus!
