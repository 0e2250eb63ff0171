//! Properties of the translation, stated once for all inputs and proved
//! from the specifications the executable functions are verified against.

use vstd::prelude::*;

use crate::abi::AbiParam;
use crate::abi::AbiType;
use crate::abi::ArgExpr;
use crate::abi::Pointee;
use crate::abi::RetExpr;
use crate::abi::arg_of;
use crate::abi::param_abi;
use crate::abi::ret_abi;
use crate::abi::ret_expr_of;
use crate::diag::DestroyReceiverFound;
use crate::diag::DiagView;
use crate::diag::DiagnosticKind;
use crate::diag::ErrorCategory;
use crate::diag::LifecycleName;
use crate::diag::block_diags;
use crate::diag::category_of;
use crate::diag::found_of_mode;
use crate::diag::has_method_named;
use crate::diag::lifecycle_diags;
use crate::diag::mdiag;
use crate::diag::message_of;
use crate::diag::method_diags;
use crate::diag::methods_diags_upto;
use crate::diag::position_diags;
use crate::diag::shape_diags;
use crate::diag::value_diags_upto;
use crate::model::ElemType;
use crate::model::ImplementationBlock;
use crate::model::MethodDeclaration;
use crate::model::Parameter;
use crate::model::ScalarKind;
use crate::model::TypeDescriptor;
use crate::model::is_destroy_name;
use crate::model::receiver_mode;
use crate::model::typed_params;

verus! {

/// A block that names a capability is never rejected for lifecycle pairing.
/// An inherent block without a method named `create` — or, having one,
/// without a method named `destroy` — ends its diagnostics with a
/// structural error naming the missing one, so the block is rejected.
pub proof fn lemma_lifecycle_pairing(b: ImplementationBlock)
    ensures
        b.capability is Some ==> lifecycle_diags(b) == Seq::<DiagView>::empty(),
        b.capability is None && !has_method_named(b.methods@, "create"@) ==> {
            &&& block_diags(b).len() > 0
            &&& block_diags(b).last() == (DiagView {
                method: Option::None,
                kind: DiagnosticKind::MissingLifecycle { missing: LifecycleName::Create },
            })
            &&& category_of(block_diags(b).last().kind) == ErrorCategory::StructuralError
        },
        b.capability is None && has_method_named(b.methods@, "create"@) && !has_method_named(
            b.methods@,
            "destroy"@,
        ) ==> {
            &&& block_diags(b).len() > 0
            &&& block_diags(b).last() == (DiagView {
                method: Option::None,
                kind: DiagnosticKind::MissingLifecycle { missing: LifecycleName::Destroy },
            })
            &&& category_of(block_diags(b).last().kind) == ErrorCategory::StructuralError
        },
{
}

/// A method named `destroy` whose receiver mode is not the
/// ownership-consuming form raises a diagnostic that records which form
/// was found instead.
pub proof fn lemma_destroy_receiver_rejected(m: MethodDeclaration)
    requires
        is_destroy_name(m.name@),
        !(receiver_mode(m) is OwningConsume),
    ensures
        method_diags(m).contains(
            mdiag(
                m.name@,
                DiagnosticKind::DestroyNotOwning { found: found_of_mode(receiver_mode(m)) },
            ),
        ),
        method_diags(m).len() > 0,
{
    let d = mdiag(
        m.name@,
        DiagnosticKind::DestroyNotOwning { found: found_of_mode(receiver_mode(m)) },
    );
    let sd = shape_diags(m);
    assert(sd.last() == d);
    let idx = position_diags(m).len() + sd.len() - 1;
    assert(method_diags(m)[idx as int] == d);
    assert(method_diags(m).contains(d));
}

/// A method named `destroy` with a wrong receiver form, in any method of
/// any block, leaves the block's diagnostics non-empty, so the whole batch
/// is rejected.
pub proof fn lemma_destroy_in_block_rejected(b: ImplementationBlock, i: int)
    requires
        0 <= i < b.methods@.len(),
        is_destroy_name(b.methods@[i].name@),
        !(receiver_mode(b.methods@[i]) is OwningConsume),
    ensures
        block_diags(b).contains(
            mdiag(
                b.methods@[i].name@,
                DiagnosticKind::DestroyNotOwning {
                    found: found_of_mode(receiver_mode(b.methods@[i])),
                },
            ),
        ),
        block_diags(b).len() > 0,
{
    let m = b.methods@[i];
    let d = mdiag(
        m.name@,
        DiagnosticKind::DestroyNotOwning { found: found_of_mode(receiver_mode(m)) },
    );
    lemma_destroy_receiver_rejected(m);
    lemma_methods_diags_prefix(b.methods@, b.methods@.len() as int, i, d);
    let all = methods_diags_upto(b.methods@, b.methods@.len() as int);
    let q = choose|q: int| 0 <= q < all.len() && all[q] == d;
    assert(block_diags(b)[q] == d);
    assert(block_diags(b).contains(d));
}

/// The diagnostics for the three wrong receiver forms on `destroy` carry
/// three distinct messages: one for no receiver, one for a shared borrow,
/// one for an exclusive borrow.
pub proof fn lemma_destroy_messages_distinct()
    ensures
        message_of(
            DiagnosticKind::DestroyNotOwning { found: DestroyReceiverFound::Absent },
        ) != message_of(
            DiagnosticKind::DestroyNotOwning { found: DestroyReceiverFound::Shared },
        ),
        message_of(
            DiagnosticKind::DestroyNotOwning { found: DestroyReceiverFound::Absent },
        ) != message_of(
            DiagnosticKind::DestroyNotOwning { found: DestroyReceiverFound::Exclusive },
        ),
        message_of(
            DiagnosticKind::DestroyNotOwning { found: DestroyReceiverFound::Shared },
        ) != message_of(
            DiagnosticKind::DestroyNotOwning { found: DestroyReceiverFound::Exclusive },
        ),
{
    reveal_strlit("Destroy function must receive owned self argument. Found no receiver");
    reveal_strlit("Destroy function must receive owned self argument. &self found instead");
    reveal_strlit("Destroy function must receive owned self argument. &mut self found instead");
    assert(("Destroy function must receive owned self argument. Found no receiver"@).len()
        == 68);
    assert(("Destroy function must receive owned self argument. &self found instead"@).len()
        == 70);
    assert(("Destroy function must receive owned self argument. &mut self found instead"@).len()
        == 74);
}

/// A scalar parameter crosses the boundary unchanged: it yields exactly one
/// ABI parameter, keeping its name and its scalar type, and the call passes
/// it through by name.
pub proof fn lemma_scalar_param_unchanged(p: Parameter, k: ScalarKind, out: Seq<AbiParam>)
    requires
        p.ty == TypeDescriptor::Scalar(k),
        param_abi(p, out),
    ensures
        out.len() == 1,
        out[0].name@ == p.name@,
        out[0].ty == AbiType::Scalar(k),
        arg_of(p) == ArgExpr::Plain(p.name),
{
}

/// A slice-reference parameter named `x` decomposes into exactly two ABI
/// parameters, `x_ptr` (a raw pointer to the element type, of the matching
/// mutability) and `x_len` (a pointer-sized unsigned count), and the call
/// recovers a view of `x_len` elements starting at `x_ptr`.
pub proof fn lemma_slice_param_decomposition(
    p: Parameter,
    mutable: bool,
    elem: ElemType,
    out: Seq<AbiParam>,
)
    requires
        p.ty == (TypeDescriptor::SliceReference { mutable, elem }),
        param_abi(p, out),
    ensures
        out.len() == 2,
        out[0].name@ == p.name@ + "_ptr"@,
        out[1].name@ == p.name@ + "_len"@,
        out[1].ty == AbiType::Scalar(ScalarKind::Usize),
        out[0].ty == (if mutable {
            AbiType::MutPtr(Pointee::Elem(elem))
        } else {
            AbiType::ConstPtr(Pointee::Elem(elem))
        }),
        arg_of(p) == (if mutable {
            ArgExpr::SliceExclusive(p.name)
        } else {
            ArgExpr::SliceShared(p.name)
        }),
{
}

/// A return type naming a value type — the subject type written `Self`
/// among them — yields a `mut`-pointer ABI return, and the body
/// heap-allocates the result and returns its address.
pub proof fn lemma_named_return_heap_allocates(n: String, subject: String)
    ensures
        ret_expr_of(Option::Some(TypeDescriptor::Named(n))) == RetExpr::HeapAllocate,
        n@ == "Self"@ ==> ret_abi(Option::Some(TypeDescriptor::Named(n)), subject)
            == Option::Some(AbiType::MutPtr(Pointee::Elem(ElemType::Named(subject)))),
        n@ != "Self"@ ==> ret_abi(Option::Some(TypeDescriptor::Named(n)), subject)
            == Option::Some(AbiType::MutPtr(Pointee::Elem(ElemType::Named(n)))),
{
}

/// The type-safety diagnostic for one bare named parameter stands in the
/// method's collected diagnostics.
proof fn lemma_value_diags_contains(name: Seq<char>, ps: Seq<Parameter>, n: int, j: int)
    requires
        0 <= j < n <= ps.len(),
        ps[j].ty is Named,
    ensures
        value_diags_upto(name, ps, n).contains(mdiag(name, DiagnosticKind::NonScalarByValue)),
    decreases n,
{
    let d = mdiag(name, DiagnosticKind::NonScalarByValue);
    if j == n - 1 {
        let pre = value_diags_upto(name, ps, n - 1);
        assert(value_diags_upto(name, ps, n)[pre.len() as int] == d);
        assert(value_diags_upto(name, ps, n).contains(d));
    } else {
        lemma_value_diags_contains(name, ps, n - 1, j);
        let pre = value_diags_upto(name, ps, n - 1);
        let i = choose|i: int| 0 <= i < pre.len() && pre[i] == d;
        assert(value_diags_upto(name, ps, n)[i] == d);
        assert(value_diags_upto(name, ps, n).contains(d));
    }
}

/// A diagnostic of one method stands in the concatenated diagnostics of the
/// whole method list.
proof fn lemma_methods_diags_prefix(ms: Seq<MethodDeclaration>, n: int, i: int, d: DiagView)
    requires
        0 <= i < n <= ms.len(),
        method_diags(ms[i]).contains(d),
    ensures
        methods_diags_upto(ms, n).contains(d),
    decreases n,
{
    if i == n - 1 {
        let md = method_diags(ms[i]);
        let j = choose|j: int| 0 <= j < md.len() && md[j] == d;
        let pre = methods_diags_upto(ms, n - 1);
        assert(methods_diags_upto(ms, n)[pre.len() + j] == d);
        assert(methods_diags_upto(ms, n).contains(d));
    } else {
        lemma_methods_diags_prefix(ms, n - 1, i, d);
        let pre = methods_diags_upto(ms, n - 1);
        let j = choose|j: int| 0 <= j < pre.len() && pre[j] == d;
        assert(methods_diags_upto(ms, n)[j] == d);
        assert(methods_diags_upto(ms, n).contains(d));
    }
}

/// A named value type passed bare, in any method of any block, raises a
/// type-safety diagnostic for that method, so the block's diagnostics are
/// non-empty and the whole batch is rejected — whatever else the block
/// contains.
pub proof fn lemma_bare_named_param_rejected(b: ImplementationBlock, i: int, j: int)
    requires
        0 <= i < b.methods@.len(),
        0 <= j < typed_params(b.methods@[i].inputs@).len(),
        typed_params(b.methods@[i].inputs@)[j].ty is Named,
    ensures
        method_diags(b.methods@[i]).contains(
            mdiag(b.methods@[i].name@, DiagnosticKind::NonScalarByValue),
        ),
        category_of(DiagnosticKind::NonScalarByValue) == ErrorCategory::TypeSafetyError,
        block_diags(b).len() > 0,
{
    let m = b.methods@[i];
    let tps = typed_params(m.inputs@);
    let d = mdiag(m.name@, DiagnosticKind::NonScalarByValue);
    lemma_value_diags_contains(m.name@, tps, tps.len() as int, j);
    let vd = value_diags_upto(m.name@, tps, tps.len() as int);
    let k = choose|k: int| 0 <= k < vd.len() && vd[k] == d;
    let off = position_diags(m).len() + shape_diags(m).len();
    assert(method_diags(m)[off + k] == d);
    assert(method_diags(m).contains(d));
    lemma_methods_diags_prefix(b.methods@, b.methods@.len() as int, i, d);
    let all = methods_diags_upto(b.methods@, b.methods@.len() as int);
    let q = choose|q: int| 0 <= q < all.len() && all[q] == d;
    assert(block_diags(b)[q] == d);
}

} // verus!
