//! Synthesis of one generated declaration: its exported symbol name, its
//! ABI-safe parameter list, its return type, and its body expression tree.

use vstd::prelude::*;

use crate::abi::AbiParam;
use crate::abi::AbiType;
use crate::abi::ArgExpr;
use crate::abi::Pointee;
use crate::abi::RetExpr;
use crate::abi::SelfExpr;
use crate::abi::abi_params_for;
use crate::abi::abi_return_type;
use crate::abi::arg_for;
use crate::abi::arg_of;
use crate::abi::clone_elem;
use crate::abi::lemma_params_abi_push;
use crate::abi::params_abi;
use crate::abi::ret_abi;
use crate::abi::ret_expr_for;
use crate::abi::ret_expr_of;
use crate::abi::self_expr_of;
use crate::model::ElemType;
use crate::model::FnInput;
use crate::model::ImplementationBlock;
use crate::model::MethodDeclaration;
use crate::model::Parameter;
use crate::model::ReceiverMode;
use crate::model::TypeDescriptor;
use crate::model::receiver_mode;
use crate::model::typed_params;
use crate::model::typed_params_upto;
use crate::names::opt_view;
use crate::names::symbol_for;
use crate::names::symbol_of;

verus! {

/// The original call expression of a generated body: the receiver recovery
/// expression, the subject type and method called, and the per-parameter
/// recovery expressions in declared order. Without a receiver the call is a
/// qualified invocation through the subject type.
#[derive(Clone, Debug, PartialEq, Eq)]
pub struct CallExpr {
    pub self_expr: SelfExpr,
    pub subject: String,
    pub method: String,
    pub args: Vec<ArgExpr>,
}

/// One generated, externally-callable declaration: its exported symbol
/// name, whether it is marked unsafe, the doc annotations copied verbatim
/// from the source method, its ABI-safe parameter list (the receiver
/// pointer, named `ptr`, standing first when the method has one), its
/// ABI-safe return type, and its body: the call expression and the
/// conversion applied to the call's result. Every generated declaration
/// suppresses name mangling and uses the platform C calling convention;
/// validity of all pointer and length arguments is an unchecked
/// precondition placed on its caller.
#[derive(Clone, Debug, PartialEq, Eq)]
pub struct GeneratedDeclaration {
    pub name: String,
    pub is_unsafe: bool,
    pub docs: Vec<String>,
    pub params: Vec<AbiParam>,
    pub ret: Option<AbiType>,
    pub ret_expr: RetExpr,
    pub call: CallExpr,
}

/// The type of the generated first parameter recovering the receiver: a
/// `const` pointer to the subject type for a shared borrow, a `mut` pointer
/// for an exclusive borrow and for the ownership-consuming form.
pub open spec fn receiver_ptr_ty(mode: ReceiverMode, subject: String) -> AbiType {
    match mode {
        ReceiverMode::SharedBorrow => AbiType::ConstPtr(Pointee::Elem(ElemType::Named(subject))),
        _ => AbiType::MutPtr(Pointee::Elem(ElemType::Named(subject))),
    }
}

/// What the generated declaration of one method is, in full: the symbol
/// name; the unsafe marking (a standalone function is marked unsafe, a
/// method with a receiver carries its warning in its documentation); the
/// verbatim docs; the parameter list, led by the receiver pointer when the
/// method has a receiver and continuing with each declared parameter's
/// decomposition in order; the classified return type and conversion; and
/// the call expression with its per-parameter recovery expressions.
pub open spec fn decl_of(
    b: ImplementationBlock,
    m: MethodDeclaration,
    d: GeneratedDeclaration,
) -> bool {
    let mode = receiver_mode(m);
    let tps = typed_params(m.inputs@);
    &&& d.name@ == symbol_of(b.subject@, opt_view(b.capability), m.name@)
    &&& d.is_unsafe == (mode is Absent)
    &&& d.docs@ == m.docs@
    &&& if mode is Absent {
        params_abi(tps, d.params@)
    } else {
        &&& d.params@.len() >= 1
        &&& d.params@[0].name@ == "ptr"@
        &&& d.params@[0].ty == receiver_ptr_ty(mode, b.subject)
        &&& params_abi(tps, d.params@.drop_first())
    }
    &&& d.ret == ret_abi(m.ret, b.subject)
    &&& d.ret_expr == ret_expr_of(m.ret)
    &&& d.call.self_expr == self_expr_of(mode)
    &&& d.call.subject == b.subject
    &&& d.call.method == m.name
    &&& d.call.args@ == tps.map_values(|p: Parameter| arg_of(p))
}

/// Copies a type descriptor; the copy equals the original.
pub fn clone_type_descriptor(t: &TypeDescriptor) -> (r: TypeDescriptor)
    ensures
        r == *t,
{
    match t {
        TypeDescriptor::Scalar(k) => TypeDescriptor::Scalar(*k),
        TypeDescriptor::Reference { mutable, inner } => TypeDescriptor::Reference {
            mutable: *mutable,
            inner: clone_elem(inner),
        },
        TypeDescriptor::SliceReference { mutable, elem } => TypeDescriptor::SliceReference {
            mutable: *mutable,
            elem: clone_elem(elem),
        },
        TypeDescriptor::RawPointer { mutable, inner } => TypeDescriptor::RawPointer {
            mutable: *mutable,
            inner: clone_elem(inner),
        },
        TypeDescriptor::Named(n) => TypeDescriptor::Named(n.clone()),
    }
}

/// Copies a parameter; the copy equals the original.
pub fn clone_param(p: &Parameter) -> (r: Parameter)
    ensures
        r == *p,
{
    Parameter { name: p.name.clone(), ty: clone_type_descriptor(&p.ty) }
}

/// Copies a vector of strings; the copy equals the original.
pub fn clone_strings(v: &Vec<String>) -> (r: Vec<String>)
    ensures
        r@ == v@,
{
    let mut r: Vec<String> = Vec::new();
    let mut i: usize = 0;
    while i < v.len()
        invariant
            i <= v@.len(),
            r@ == v@.take(i as int),
        decreases v@.len() - i,
    {
        r.push(v[i].clone());
        i = i + 1;
        assert(r@ =~= v@.take(i as int));
    }
    assert(v@.take(v@.len() as int) =~= v@);
    r
}

/// Collects the typed parameters of a method's inputs, in declared order.
pub fn collect_typed_params(inputs: &Vec<FnInput>) -> (tp: Vec<Parameter>)
    ensures
        tp@ == typed_params(inputs@),
{
    let mut tp: Vec<Parameter> = Vec::new();
    let mut i: usize = 0;
    while i < inputs.len()
        invariant
            i <= inputs@.len(),
            tp@ == typed_params_upto(inputs@, i as int),
        decreases inputs@.len() - i,
    {
        match &inputs[i] {
            FnInput::Typed(p) => {
                tp.push(clone_param(p));
            },
            FnInput::Receiver(_) => {},
        }
        i = i + 1;
        assert(tp@ =~= typed_params_upto(inputs@, i as int));
    }
    tp
}

/// Synthesizes the generated declaration of one method of a block.
pub fn synthesize(b: &ImplementationBlock, m: &MethodDeclaration) -> (d: GeneratedDeclaration)
    ensures
        decl_of(*b, *m, d),
{
    let name = symbol_for(&b.subject, &b.capability, &m.name);
    let mode = m.receiver_mode();
    let tps = collect_typed_params(&m.inputs);
    let ghost tspec = typed_params(m.inputs@);
    let is_absent = match mode {
        ReceiverMode::Absent => true,
        _ => false,
    };

    let mut params: Vec<AbiParam> = Vec::new();
    if !is_absent {
        let pty = match mode {
            ReceiverMode::SharedBorrow => AbiType::ConstPtr(
                Pointee::Elem(ElemType::Named(b.subject.clone())),
            ),
            _ => AbiType::MutPtr(Pointee::Elem(ElemType::Named(b.subject.clone()))),
        };
        params.push(AbiParam { name: String::from_str("ptr"), ty: pty });
    }
    let mut j: usize = 0;
    while j < tps.len()
        invariant
            j <= tspec.len(),
            tps@ == tspec,
            mode == receiver_mode(*m),
            is_absent == (mode is Absent),
            is_absent ==> params_abi(tspec.take(j as int), params@),
            !is_absent ==> {
                &&& params@.len() >= 1
                &&& params@[0].name@ == "ptr"@
                &&& params@[0].ty == receiver_ptr_ty(mode, b.subject)
                &&& params_abi(tspec.take(j as int), params@.drop_first())
            },
        decreases tspec.len() - j,
    {
        let ghost before = params@;
        let mut add = abi_params_for(&tps[j]);
        let ghost added = add@;
        proof {
            let prior = if is_absent {
                before
            } else {
                before.drop_first()
            };
            lemma_params_abi_push(tspec.take(j as int), prior, tspec[j as int], added);
            assert(tspec.take(j as int).push(tspec[j as int]) =~= tspec.take(j as int + 1));
        }
        params.append(&mut add);
        proof {
            assert(params@ == before + added);
            if !is_absent {
                assert(params@.drop_first() =~= before.drop_first() + added);
                assert(params@[0] == before[0]);
            }
        }
        j = j + 1;
    }
    proof {
        assert(tspec.take(tspec.len() as int) =~= tspec);
    }

    let mut args: Vec<ArgExpr> = Vec::new();
    let mut k: usize = 0;
    while k < tps.len()
        invariant
            k <= tspec.len(),
            tps@ == tspec,
            args@ == tspec.take(k as int).map_values(|p: Parameter| arg_of(p)),
        decreases tspec.len() - k,
    {
        args.push(arg_for(&tps[k]));
        k = k + 1;
        assert(args@ =~= tspec.take(k as int).map_values(|p: Parameter| arg_of(p)));
    }
    proof {
        assert(tspec.take(tspec.len() as int) =~= tspec);
    }

    let self_expr = match mode {
        ReceiverMode::Absent => SelfExpr::Absent,
        ReceiverMode::SharedBorrow => SelfExpr::DerefShared,
        ReceiverMode::ExclusiveBorrow => SelfExpr::DerefExclusive,
        ReceiverMode::OwningConsume => SelfExpr::TakeOwnership,
    };
    GeneratedDeclaration {
        name,
        is_unsafe: is_absent,
        docs: clone_strings(&m.docs),
        params,
        ret: abi_return_type(&m.ret, &b.subject),
        ret_expr: ret_expr_for(&m.ret),
        call: CallExpr {
            self_expr,
            subject: b.subject.clone(),
            method: m.name.clone(),
            args,
        },
    }
}

} // verus!
