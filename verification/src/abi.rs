//! The output side of the classifier: ABI-safe types, the decomposition of a
//! parameter into ABI parameters, the return-type classification, and the
//! recovery expressions of the generated body.

use vstd::prelude::*;

use crate::model::ElemType;
use crate::model::Parameter;
use crate::model::ReceiverMode;
use crate::model::ScalarKind;
use crate::model::TypeDescriptor;

verus! {

/// What a generated raw pointer points to: a single element, or a slice of
/// elements (a slice pointee arises only from a slice-reference return type,
/// which is passed through as a pointer to the whole slice).
#[derive(Clone, Debug, PartialEq, Eq)]
pub enum Pointee {
    Elem(ElemType),
    Slice(ElemType),
}

/// An ABI-safe type: a scalar passed by value, or a raw pointer.
#[derive(Clone, Debug, PartialEq, Eq)]
pub enum AbiType {
    Scalar(ScalarKind),
    ConstPtr(Pointee),
    MutPtr(Pointee),
}

/// One parameter of a generated declaration.
#[derive(Clone, Debug, PartialEq, Eq)]
pub struct AbiParam {
    pub name: String,
    pub ty: AbiType,
}

/// The ABI-facing declared type of one type descriptor:
/// a scalar is unchanged; a reference becomes a raw pointer of the matching
/// mutability (for a slice reference, a raw pointer to the element type,
/// i.e. the pointer half of its decomposed pair); a raw pointer passes
/// through unchanged; a bare named value type is declared as a `mut`
/// pointer to it (such a parameter is rejected by validation, so the batch
/// it stands in never produces output).
pub open spec fn abi_of_type(t: TypeDescriptor) -> AbiType {
    match t {
        TypeDescriptor::Scalar(k) => AbiType::Scalar(k),
        TypeDescriptor::Reference { mutable, inner } => if mutable {
            AbiType::MutPtr(Pointee::Elem(inner))
        } else {
            AbiType::ConstPtr(Pointee::Elem(inner))
        },
        TypeDescriptor::SliceReference { mutable, elem } => if mutable {
            AbiType::MutPtr(Pointee::Elem(elem))
        } else {
            AbiType::ConstPtr(Pointee::Elem(elem))
        },
        TypeDescriptor::RawPointer { mutable, inner } => if mutable {
            AbiType::MutPtr(Pointee::Elem(inner))
        } else {
            AbiType::ConstPtr(Pointee::Elem(inner))
        },
        TypeDescriptor::Named(n) => AbiType::MutPtr(Pointee::Elem(ElemType::Named(n))),
    }
}

/// Copies an element type; the copy equals the original.
pub fn clone_elem(e: &ElemType) -> (r: ElemType)
    ensures
        r == *e,
{
    match e {
        ElemType::Scalar(k) => ElemType::Scalar(*k),
        ElemType::Named(s) => ElemType::Named(s.clone()),
    }
}

/// Computes the ABI-facing declared type of one type descriptor.
pub fn abi_pointer_type(t: &TypeDescriptor) -> (a: AbiType)
    ensures
        a == abi_of_type(*t),
{
    match t {
        TypeDescriptor::Scalar(k) => AbiType::Scalar(*k),
        TypeDescriptor::Reference { mutable, inner } => if *mutable {
            AbiType::MutPtr(Pointee::Elem(clone_elem(inner)))
        } else {
            AbiType::ConstPtr(Pointee::Elem(clone_elem(inner)))
        },
        TypeDescriptor::SliceReference { mutable, elem } => if *mutable {
            AbiType::MutPtr(Pointee::Elem(clone_elem(elem)))
        } else {
            AbiType::ConstPtr(Pointee::Elem(clone_elem(elem)))
        },
        TypeDescriptor::RawPointer { mutable, inner } => if *mutable {
            AbiType::MutPtr(Pointee::Elem(clone_elem(inner)))
        } else {
            AbiType::ConstPtr(Pointee::Elem(clone_elem(inner)))
        },
        TypeDescriptor::Named(n) => AbiType::MutPtr(Pointee::Elem(ElemType::Named(n.clone()))),
    }
}

/// How many ABI parameters one declared parameter produces: two for a slice
/// reference (pointer and length), one for everything else.
pub open spec fn param_width(p: Parameter) -> nat {
    match p.ty {
        TypeDescriptor::SliceReference { .. } => 2,
        _ => 1,
    }
}

/// The ABI parameters produced for one declared parameter: a slice reference
/// named `x` decomposes into `x_ptr` (raw pointer to the element type) and
/// `x_len` (pointer-sized unsigned count); any other parameter keeps its
/// name, with its ABI-facing type.
pub open spec fn param_abi(p: Parameter, out: Seq<AbiParam>) -> bool {
    match p.ty {
        TypeDescriptor::SliceReference { .. } => {
            &&& out.len() == 2
            &&& out[0].name@ == p.name@ + "_ptr"@
            &&& out[0].ty == abi_of_type(p.ty)
            &&& out[1].name@ == p.name@ + "_len"@
            &&& out[1].ty == AbiType::Scalar(ScalarKind::Usize)
        },
        _ => {
            &&& out.len() == 1
            &&& out[0].name@ == p.name@
            &&& out[0].ty == abi_of_type(p.ty)
        },
    }
}

/// The ABI parameters produced for a sequence of declared parameters, in
/// declared order, each decomposed as `param_abi` says.
pub open spec fn params_abi(ps: Seq<Parameter>, out: Seq<AbiParam>) -> bool
    decreases ps.len(),
{
    if ps.len() == 0 {
        out.len() == 0
    } else {
        let w = param_width(ps[0]) as int;
        &&& out.len() >= w
        &&& param_abi(ps[0], out.take(w))
        &&& params_abi(ps.drop_first(), out.skip(w))
    }
}

/// Extending a parameter list by one parameter extends its ABI parameter
/// list by that parameter's decomposition.
pub proof fn lemma_params_abi_push(
    ps: Seq<Parameter>,
    out: Seq<AbiParam>,
    p: Parameter,
    add: Seq<AbiParam>,
)
    requires
        params_abi(ps, out),
        param_abi(p, add),
    ensures
        params_abi(ps.push(p), out + add),
    decreases ps.len(),
{
    if ps.len() == 0 {
        let w = param_width(p) as int;
        assert(ps.push(p)[0] == p);
        assert(add.len() == w);
        assert((out + add).take(w) =~= add);
        assert((out + add).skip(w) =~= Seq::<AbiParam>::empty());
        assert(ps.push(p).drop_first() =~= Seq::<Parameter>::empty());
        assert(param_abi(ps.push(p)[0], (out + add).take(w)));
        assert(params_abi(ps.push(p).drop_first(), (out + add).skip(w)));
        assert(params_abi(ps.push(p), out + add));
    } else {
        let w = param_width(ps[0]) as int;
        assert(out.len() >= w);
        assert(ps.push(p)[0] == ps[0]);
        assert((out + add).take(w) =~= out.take(w));
        assert((out + add).skip(w) =~= out.skip(w) + add);
        assert(ps.push(p).drop_first() =~= ps.drop_first().push(p));
        lemma_params_abi_push(ps.drop_first(), out.skip(w), p, add);
        assert(param_abi(ps.push(p)[0], (out + add).take(w)));
        assert(params_abi(ps.push(p).drop_first(), (out + add).skip(w)));
        assert(params_abi(ps.push(p), out + add));
    }
}

/// Builds the ABI parameters of one declared parameter.
pub fn abi_params_for(p: &Parameter) -> (out: Vec<AbiParam>)
    ensures
        param_abi(*p, out@),
{
    match &p.ty {
        TypeDescriptor::SliceReference { .. } => {
            let ptr_name = p.name.clone().concat("_ptr");
            let len_name = p.name.clone().concat("_len");
            let mut out: Vec<AbiParam> = Vec::new();
            out.push(AbiParam { name: ptr_name, ty: abi_pointer_type(&p.ty) });
            out.push(AbiParam { name: len_name, ty: AbiType::Scalar(ScalarKind::Usize) });
            out
        },
        _ => {
            let mut out: Vec<AbiParam> = Vec::new();
            out.push(AbiParam { name: p.name.clone(), ty: abi_pointer_type(&p.ty) });
            out
        },
    }
}

/// The recovery expression of the receiver, standing first in the generated
/// body: nothing for a standalone function; an unchecked dereference into a
/// shared or exclusive reference for a borrowing receiver; reclaiming heap
/// ownership of the pointee for a consuming receiver.
#[derive(Clone, Copy, Debug, PartialEq, Eq, Structural)]
pub enum SelfExpr {
    Absent,
    TakeOwnership,
    DerefExclusive,
    DerefShared,
}

/// The receiver recovery expression of each receiver mode.
pub open spec fn self_expr_of(mode: ReceiverMode) -> SelfExpr {
    match mode {
        ReceiverMode::Absent => SelfExpr::Absent,
        ReceiverMode::SharedBorrow => SelfExpr::DerefShared,
        ReceiverMode::ExclusiveBorrow => SelfExpr::DerefExclusive,
        ReceiverMode::OwningConsume => SelfExpr::TakeOwnership,
    }
}

/// The recovery expression of one declared parameter, rebuilding the
/// original call argument from the ABI parameters: a scalar or raw pointer
/// is passed through by name; a reference is recovered by an unchecked
/// dereference; a slice reference is recovered by unchecked reconstruction
/// of a view over `<name>_len` elements starting at `<name>_ptr`. A bare
/// named value is passed through by name (validation rejects it, so the
/// batch never produces output).
#[derive(Clone, Debug, PartialEq, Eq)]
pub enum ArgExpr {
    Plain(String),
    DerefShared(String),
    DerefExclusive(String),
    SliceShared(String),
    SliceExclusive(String),
}

/// The recovery expression of one declared parameter.
pub open spec fn arg_of(p: Parameter) -> ArgExpr {
    match p.ty {
        TypeDescriptor::Scalar(_) => ArgExpr::Plain(p.name),
        TypeDescriptor::Reference { mutable, .. } => if mutable {
            ArgExpr::DerefExclusive(p.name)
        } else {
            ArgExpr::DerefShared(p.name)
        },
        TypeDescriptor::SliceReference { mutable, .. } => if mutable {
            ArgExpr::SliceExclusive(p.name)
        } else {
            ArgExpr::SliceShared(p.name)
        },
        TypeDescriptor::RawPointer { .. } => ArgExpr::Plain(p.name),
        TypeDescriptor::Named(_) => ArgExpr::Plain(p.name),
    }
}

/// Builds the recovery expression of one declared parameter.
pub fn arg_for(p: &Parameter) -> (r: ArgExpr)
    ensures
        r == arg_of(*p),
{
    match &p.ty {
        TypeDescriptor::Scalar(_) => ArgExpr::Plain(p.name.clone()),
        TypeDescriptor::Reference { mutable, .. } => if *mutable {
            ArgExpr::DerefExclusive(p.name.clone())
        } else {
            ArgExpr::DerefShared(p.name.clone())
        },
        TypeDescriptor::SliceReference { mutable, .. } => if *mutable {
            ArgExpr::SliceExclusive(p.name.clone())
        } else {
            ArgExpr::SliceShared(p.name.clone())
        },
        TypeDescriptor::RawPointer { .. } => ArgExpr::Plain(p.name.clone()),
        TypeDescriptor::Named(_) => ArgExpr::Plain(p.name.clone()),
    }
}

/// The conversion applied to the original call's result: passed through
/// unchanged; heap-allocated with its address returned, transferring
/// ownership to the caller; or cast from a returned reference to a raw
/// pointer that aliases memory already owned by the receiver.
#[derive(Clone, Copy, Debug, PartialEq, Eq, Structural)]
pub enum RetExpr {
    PassThrough,
    HeapAllocate,
    PointerCast,
}

/// The ABI-facing return type: no declared return and scalars are
/// unchanged; a named value type (the subject type `Self` among them) is
/// returned as a `mut` pointer to the heap-allocated value; a returned
/// reference becomes a raw pointer to the referent (for a slice reference,
/// to the whole slice); a raw pointer passes through unchanged.
pub open spec fn ret_abi(ret: Option<TypeDescriptor>, subject: String) -> Option<AbiType> {
    match ret {
        Option::None => Option::None,
        Option::Some(t) => Option::Some(
            match t {
                TypeDescriptor::Scalar(k) => AbiType::Scalar(k),
                TypeDescriptor::Named(n) => if n@ == "Self"@ {
                    AbiType::MutPtr(Pointee::Elem(ElemType::Named(subject)))
                } else {
                    AbiType::MutPtr(Pointee::Elem(ElemType::Named(n)))
                },
                TypeDescriptor::Reference { mutable, inner } => if mutable {
                    AbiType::MutPtr(Pointee::Elem(inner))
                } else {
                    AbiType::ConstPtr(Pointee::Elem(inner))
                },
                TypeDescriptor::SliceReference { mutable, elem } => if mutable {
                    AbiType::MutPtr(Pointee::Slice(elem))
                } else {
                    AbiType::ConstPtr(Pointee::Slice(elem))
                },
                TypeDescriptor::RawPointer { mutable, inner } => if mutable {
                    AbiType::MutPtr(Pointee::Elem(inner))
                } else {
                    AbiType::ConstPtr(Pointee::Elem(inner))
                },
            },
        ),
    }
}

/// The conversion applied to the original call's result for each return
/// type: a named value type is heap-allocated, a returned reference is cast
/// to a raw pointer, everything else passes through.
pub open spec fn ret_expr_of(ret: Option<TypeDescriptor>) -> RetExpr {
    match ret {
        Option::None => RetExpr::PassThrough,
        Option::Some(t) => match t {
            TypeDescriptor::Scalar(_) => RetExpr::PassThrough,
            TypeDescriptor::Named(_) => RetExpr::HeapAllocate,
            TypeDescriptor::Reference { .. } => RetExpr::PointerCast,
            TypeDescriptor::SliceReference { .. } => RetExpr::PointerCast,
            TypeDescriptor::RawPointer { .. } => RetExpr::PassThrough,
        },
    }
}

/// Computes the ABI-facing return type of a method of the given subject.
pub fn abi_return_type(ret: &Option<TypeDescriptor>, subject: &String) -> (r: Option<AbiType>)
    ensures
        r == ret_abi(*ret, *subject),
{
    match ret {
        Option::None => Option::None,
        Option::Some(t) => Option::Some(
            match t {
                TypeDescriptor::Scalar(k) => AbiType::Scalar(*k),
                TypeDescriptor::Named(n) => if crate::names::eq_str(n, "Self") {
                    AbiType::MutPtr(Pointee::Elem(ElemType::Named(subject.clone())))
                } else {
                    AbiType::MutPtr(Pointee::Elem(ElemType::Named(n.clone())))
                },
                TypeDescriptor::Reference { mutable, inner } => if *mutable {
                    AbiType::MutPtr(Pointee::Elem(clone_elem(inner)))
                } else {
                    AbiType::ConstPtr(Pointee::Elem(clone_elem(inner)))
                },
                TypeDescriptor::SliceReference { mutable, elem } => if *mutable {
                    AbiType::MutPtr(Pointee::Slice(clone_elem(elem)))
                } else {
                    AbiType::ConstPtr(Pointee::Slice(clone_elem(elem)))
                },
                TypeDescriptor::RawPointer { mutable, inner } => if *mutable {
                    AbiType::MutPtr(Pointee::Elem(clone_elem(inner)))
                } else {
                    AbiType::ConstPtr(Pointee::Elem(clone_elem(inner)))
                },
            },
        ),
    }
}

/// Computes the return conversion of a method.
pub fn ret_expr_for(ret: &Option<TypeDescriptor>) -> (r: RetExpr)
    ensures
        r == ret_expr_of(*ret),
{
    match ret {
        Option::None => RetExpr::PassThrough,
        Option::Some(t) => match t {
            TypeDescriptor::Scalar(_) => RetExpr::PassThrough,
            TypeDescriptor::Named(_) => RetExpr::HeapAllocate,
            TypeDescriptor::Reference { .. } => RetExpr::PointerCast,
            TypeDescriptor::SliceReference { .. } => RetExpr::PointerCast,
            TypeDescriptor::RawPointer { .. } => RetExpr::PassThrough,
        },
    }
}

} // verus!
