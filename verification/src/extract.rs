//! Pure projections out of a function declaration: result type, parameter
//! types and bindings, and the generic parameter list, whole or filtered.

use vstd::prelude::*;

use crate::ExpandError;
use crate::decl::{
    FnDecl, FnArg, GenericParam, arg_pat_text, arg_ty_text, copy_generics, lemma_lifetime_push,
    lemma_non_lifetime_push, lifetime_view, non_lifetime_view, ret_ty_text, seq_gp_view,
    seq_str_view, spec_arg_pats, spec_arg_tys, spec_has_receiver,
};
use crate::decl::RetTy;

verus! {

/// The declared result type's token text, `()` when none is declared.
pub fn extract_return_ty(d: &FnDecl) -> (r: String)
    ensures
        r@ == ret_ty_text(d@.output),
{
    match &d.output {
        RetTy::Unit => String::from_str("()"),
        RetTy::Declared(t) => t.clone(),
    }
}

/// The ordered parameter type texts, refused when any parameter is a
/// receiver: a receiver-style parameter is unsupported and must be rejected.
pub fn fn_args_ty(d: &FnDecl) -> (r: Result<Vec<String>, ExpandError>)
    ensures
        match r {
            Result::Ok(v) => !spec_has_receiver(d@.inputs) && seq_str_view(v@) == spec_arg_tys(
                d@.inputs,
            ),
            Result::Err(e) => e is ReceiverParam && spec_has_receiver(d@.inputs),
        },
{
    let mut out: Vec<String> = Vec::new();
    let mut i: usize = 0;
    while i < d.inputs.len()
        invariant
            i <= d.inputs.len(),
            out@.len() == i,
            forall|j: int| 0 <= j < i ==> !(d@.inputs[j] is Receiver),
            forall|j: int| 0 <= j < i ==> out@[j]@ == arg_ty_text(d@.inputs[j]),
        decreases d.inputs.len() - i,
    {
        match &d.inputs[i] {
            FnArg::Receiver => {
                proof {
                    assert(d@.inputs[i as int] is Receiver);
                }
                return Result::Err(ExpandError::ReceiverParam);
            },
            FnArg::Typed { pat: _, ty } => {
                out.push(ty.clone());
            },
        }
        i += 1;
    }
    proof {
        assert(seq_str_view(out@) =~= spec_arg_tys(d@.inputs));
    }
    Result::Ok(out)
}

/// The ordered parameter binding texts, refused when any parameter is a
/// receiver.
pub fn fn_arg_pat(d: &FnDecl) -> (r: Result<Vec<String>, ExpandError>)
    ensures
        match r {
            Result::Ok(v) => !spec_has_receiver(d@.inputs) && seq_str_view(v@) == spec_arg_pats(
                d@.inputs,
            ),
            Result::Err(e) => e is ReceiverParam && spec_has_receiver(d@.inputs),
        },
{
    let mut out: Vec<String> = Vec::new();
    let mut i: usize = 0;
    while i < d.inputs.len()
        invariant
            i <= d.inputs.len(),
            out@.len() == i,
            forall|j: int| 0 <= j < i ==> !(d@.inputs[j] is Receiver),
            forall|j: int| 0 <= j < i ==> out@[j]@ == arg_pat_text(d@.inputs[j]),
        decreases d.inputs.len() - i,
    {
        match &d.inputs[i] {
            FnArg::Receiver => {
                proof {
                    assert(d@.inputs[i as int] is Receiver);
                }
                return Result::Err(ExpandError::ReceiverParam);
            },
            FnArg::Typed { pat, ty: _ } => {
                out.push(pat.clone());
            },
        }
        i += 1;
    }
    proof {
        assert(seq_str_view(out@) =~= spec_arg_pats(d@.inputs));
    }
    Result::Ok(out)
}

/// The declaration's full generic parameter list, unfiltered.
pub fn fn_generics(d: &FnDecl) -> (r: Vec<GenericParam>)
    ensures
        r@ == d.generics@,
{
    copy_generics(&d.generics)
}

/// The non-lifetime generic parameters, order preserved.
pub fn non_lifetime_generics(gs: &Vec<GenericParam>) -> (r: Vec<GenericParam>)
    ensures
        seq_gp_view(r@) == non_lifetime_view(seq_gp_view(gs@)),
{
    let mut out: Vec<GenericParam> = Vec::new();
    let mut i: usize = 0;
    proof {
        assert(seq_gp_view(gs@.take(0)) =~= Seq::<crate::decl::GenericParamV>::empty());
        assert(non_lifetime_view(Seq::<crate::decl::GenericParamV>::empty())
            =~= Seq::<crate::decl::GenericParamV>::empty());
    }
    while i < gs.len()
        invariant
            i <= gs.len(),
            seq_gp_view(out@) == non_lifetime_view(seq_gp_view(gs@.take(i as int))),
        decreases gs.len() - i,
    {
        let ghost prefix = seq_gp_view(gs@.take(i as int));
        let ghost x = gs@[i as int]@;
        proof {
            assert(seq_gp_view(gs@.take(i + 1)) =~= prefix.push(x));
            lemma_non_lifetime_push(prefix, x);
        }
        match &gs[i] {
            GenericParam::Lifetime(_) => {},
            GenericParam::Plain(s) => {
                let ghost before = out@;
                out.push(GenericParam::Plain(s.clone()));
                proof {
                    assert(seq_gp_view(out@) =~= seq_gp_view(before).push(x));
                }
            },
        }
        i += 1;
    }
    proof {
        assert(gs@.take(gs@.len() as int) =~= gs@);
    }
    out
}

/// The lifetime generic parameters, order preserved.
pub fn lifetime_generics(gs: &Vec<GenericParam>) -> (r: Vec<GenericParam>)
    ensures
        seq_gp_view(r@) == lifetime_view(seq_gp_view(gs@)),
{
    let mut out: Vec<GenericParam> = Vec::new();
    let mut i: usize = 0;
    proof {
        assert(seq_gp_view(gs@.take(0)) =~= Seq::<crate::decl::GenericParamV>::empty());
        assert(lifetime_view(Seq::<crate::decl::GenericParamV>::empty())
            =~= Seq::<crate::decl::GenericParamV>::empty());
    }
    while i < gs.len()
        invariant
            i <= gs.len(),
            seq_gp_view(out@) == lifetime_view(seq_gp_view(gs@.take(i as int))),
        decreases gs.len() - i,
    {
        let ghost prefix = seq_gp_view(gs@.take(i as int));
        let ghost x = gs@[i as int]@;
        proof {
            assert(seq_gp_view(gs@.take(i + 1)) =~= prefix.push(x));
            lemma_lifetime_push(prefix, x);
        }
        match &gs[i] {
            GenericParam::Plain(_) => {},
            GenericParam::Lifetime(s) => {
                let ghost before = out@;
                out.push(GenericParam::Lifetime(s.clone()));
                proof {
                    assert(seq_gp_view(out@) =~= seq_gp_view(before).push(x));
                }
            },
        }
        i += 1;
    }
    proof {
        assert(gs@.take(gs@.len() as int) =~= gs@);
    }
    out
}

} // verus!
