//! The whole-block pass: collect every diagnostic of the block, and emit one
//! generated declaration per method only when the collected set is empty —
//! all-or-nothing per block.

use vstd::prelude::*;

use crate::diag::Diagnostic;
use crate::diag::DiagnosticKind;
use crate::diag::DestroyReceiverFound;
use crate::diag::LifecycleName;
use crate::diag::block_diags;
use crate::diag::has_method_named;
use crate::diag::method_diags;
use crate::diag::methods_diags_upto;
use crate::diag::position_diags;
use crate::diag::position_diags_upto;
use crate::diag::shape_diags;
use crate::diag::value_diags_upto;
use crate::diag::views_of;
use crate::model::FnInput;
use crate::model::ImplementationBlock;
use crate::model::MethodDeclaration;
use crate::model::ReceiverMode;
use crate::model::TypeDescriptor;
use crate::model::typed_params;
use crate::names::eq_str;
use crate::synth::GeneratedDeclaration;
use crate::synth::collect_typed_params;
use crate::synth::decl_of;
use crate::synth::synthesize;

verus! {

/// Concatenating diagnostic lists concatenates their views.
pub proof fn lemma_views_of_concat(a: Seq<Diagnostic>, b: Seq<Diagnostic>)
    ensures
        views_of(a + b) == views_of(a) + views_of(b),
{
    assert(views_of(a + b) =~= views_of(a) + views_of(b));
}

/// Scanning one more method either finds the name or keeps the result.
pub proof fn lemma_has_method_take_succ(ms: Seq<MethodDeclaration>, name: Seq<char>, i: int)
    requires
        0 <= i < ms.len(),
    ensures
        has_method_named(ms.take(i + 1), name) == (has_method_named(ms.take(i), name)
            || ms[i].name@ == name),
{
    let prev = ms.take(i);
    let cur = ms.take(i + 1);
    assert(cur =~= prev.push(ms[i]));
    if has_method_named(prev, name) {
        let j = choose|j: int| 0 <= j < prev.len() && prev[j].name@ == name;
        assert(cur[j].name@ == name);
        assert(has_method_named(cur, name));
    }
    if ms[i].name@ == name {
        assert(cur[i].name@ == name);
        assert(has_method_named(cur, name));
    }
    if has_method_named(cur, name) {
        let j = choose|j: int| 0 <= j < cur.len() && cur[j].name@ == name;
        if j < prev.len() {
            assert(prev[j].name@ == name);
        } else {
            assert(cur[j] == ms[i]);
        }
    }
}

/// Collects all diagnostics of one method, in the order they are raised:
/// receiver-position violations during the input scan, then the receiver
/// shape of a `create` or `destroy`, then each named value type passed bare.
pub fn method_diagnostics(m: &MethodDeclaration) -> (ds: Vec<Diagnostic>)
    ensures
        views_of(ds@) == method_diags(*m),
{
    let mut ds: Vec<Diagnostic> = Vec::new();
    let mut i: usize = 0;
    while i < m.inputs.len()
        invariant
            i <= m.inputs@.len(),
            views_of(ds@) == position_diags_upto(m.name@, m.inputs@, i as int),
        decreases m.inputs@.len() - i,
    {
        match &m.inputs[i] {
            FnInput::Receiver(_) => {
                if i > 0 {
                    ds.push(
                        Diagnostic {
                            method: Option::Some(m.name.clone()),
                            kind: DiagnosticKind::ReceiverNotFirst,
                        },
                    );
                }
            },
            FnInput::Typed(_) => {},
        }
        i = i + 1;
        assert(views_of(ds@) =~= position_diags_upto(m.name@, m.inputs@, i as int));
    }
    assert(views_of(ds@) == position_diags(*m));

    let mode = m.receiver_mode();
    let is_absent = match mode {
        ReceiverMode::Absent => true,
        _ => false,
    };
    if !is_absent && eq_str(&m.name, "create") {
        ds.push(
            Diagnostic {
                method: Option::Some(m.name.clone()),
                kind: DiagnosticKind::CreateWithReceiver,
            },
        );
    }
    let is_owning = match mode {
        ReceiverMode::OwningConsume => true,
        _ => false,
    };
    if !is_owning && eq_str(&m.name, "destroy") {
        let found = match mode {
            ReceiverMode::SharedBorrow => DestroyReceiverFound::Shared,
            ReceiverMode::ExclusiveBorrow => DestroyReceiverFound::Exclusive,
            _ => DestroyReceiverFound::Absent,
        };
        ds.push(
            Diagnostic {
                method: Option::Some(m.name.clone()),
                kind: DiagnosticKind::DestroyNotOwning { found },
            },
        );
    }
    assert(views_of(ds@) =~= position_diags(*m) + shape_diags(*m));

    let tps = collect_typed_params(&m.inputs);
    let ghost tspec = typed_params(m.inputs@);
    let mut k: usize = 0;
    while k < tps.len()
        invariant
            k <= tspec.len(),
            tps@ == tspec,
            views_of(ds@) == position_diags(*m) + shape_diags(*m) + value_diags_upto(
                m.name@,
                tspec,
                k as int,
            ),
        decreases tspec.len() - k,
    {
        let ghost pre = ds@;
        match &tps[k].ty {
            TypeDescriptor::Named(_) => {
                ds.push(
                    Diagnostic {
                        method: Option::Some(m.name.clone()),
                        kind: DiagnosticKind::NonScalarByValue,
                    },
                );
            },
            _ => {},
        }
        proof {
            let kk = k as int;
            if tspec[kk].ty is Named {
                assert(views_of(ds@) =~= views_of(pre).push(
                    crate::diag::mdiag(m.name@, DiagnosticKind::NonScalarByValue),
                ));
                assert(value_diags_upto(m.name@, tspec, kk + 1) =~= value_diags_upto(
                    m.name@,
                    tspec,
                    kk,
                ) + seq![crate::diag::mdiag(m.name@, DiagnosticKind::NonScalarByValue)]);
            } else {
                assert(ds@ == pre);
                assert(value_diags_upto(m.name@, tspec, kk + 1) =~= value_diags_upto(
                    m.name@,
                    tspec,
                    kk,
                ));
            }
        }
        k = k + 1;
        assert(views_of(ds@) =~= position_diags(*m) + shape_diags(*m) + value_diags_upto(
            m.name@,
            tspec,
            k as int,
        ));
    }
    ds
}

/// Translates one declaration block: every method's diagnostics are
/// collected (never short-circuited) and the lifecycle pairing of an
/// inherent block is checked; if any diagnostic was raised the whole batch
/// is rejected with the full list and no output, otherwise one generated
/// declaration is produced per method, in method order.
pub fn c_compatible(block: &ImplementationBlock) -> (r: Result<
    Vec<GeneratedDeclaration>,
    Vec<Diagnostic>,
>)
    ensures
        (block_diags(*block).len() == 0) == (r is Ok),
        r matches Ok(decls) ==> decls@.len() == block.methods@.len() && (forall|i: int|
            0 <= i < decls@.len() ==> decl_of(*block, block.methods@[i], #[trigger] decls@[i])),
        r matches Err(ds) ==> views_of(ds@) == block_diags(*block),
{
    let mut diags: Vec<Diagnostic> = Vec::new();
    let mut decls: Vec<GeneratedDeclaration> = Vec::new();
    let mut has_create = false;
    let mut has_destroy = false;
    let mut i: usize = 0;
    while i < block.methods.len()
        invariant
            i <= block.methods@.len(),
            views_of(diags@) == methods_diags_upto(block.methods@, i as int),
            decls@.len() == i,
            forall|j: int|
                0 <= j < i ==> decl_of(*block, block.methods@[j], #[trigger] decls@[j]),
            has_create == has_method_named(block.methods@.take(i as int), "create"@),
            has_destroy == has_method_named(block.methods@.take(i as int), "destroy"@),
        decreases block.methods@.len() - i,
    {
        let m = &block.methods[i];
        if eq_str(&m.name, "create") {
            has_create = true;
        }
        if eq_str(&m.name, "destroy") {
            has_destroy = true;
        }
        let mut md = method_diagnostics(m);
        let ghost before = diags@;
        let ghost added = md@;
        diags.append(&mut md);
        proof {
            lemma_views_of_concat(before, added);
        }
        decls.push(synthesize(block, m));
        proof {
            lemma_has_method_take_succ(block.methods@, "create"@, i as int);
            lemma_has_method_take_succ(block.methods@, "destroy"@, i as int);
        }
        i = i + 1;
    }
    proof {
        assert(block.methods@.take(block.methods@.len() as int) =~= block.methods@);
    }

    match &block.capability {
        Option::Some(_) => {},
        Option::None => {
            if !has_create {
                diags.push(
                    Diagnostic {
                        method: Option::None,
                        kind: DiagnosticKind::MissingLifecycle {
                            missing: LifecycleName::Create,
                        },
                    },
                );
            } else if !has_destroy {
                diags.push(
                    Diagnostic {
                        method: Option::None,
                        kind: DiagnosticKind::MissingLifecycle {
                            missing: LifecycleName::Destroy,
                        },
                    },
                );
            }
        },
    }
    assert(views_of(diags@) =~= block_diags(*block));

    if diags.len() == 0 {
        Result::Ok(decls)
    } else {
        Result::Err(diags)
    }
}

} // verus!
