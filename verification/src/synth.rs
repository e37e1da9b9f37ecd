//! Builders for the generated declarations: the two layout probes, the
//! synthetic future type, and the future and drop capability implementations.

use vstd::prelude::*;

use vstd::pervasive::unreached;

use crate::decl::{
    FnDecl, copy_strings, lifetime_view, non_lifetime_view, ret_ty_text, seq_gp_view,
    spec_arg_tys, spec_has_receiver,
};
use crate::extract::{
    extract_return_ty, fn_args_ty, fn_generics, lifetime_generics, non_lifetime_generics,
};
use crate::gen::{
    DropImplDef, DummyField, FutureImplDef, FutureStructDef, FutureTy, LayoutKind, ProbeFnDef,
    spec_aof_ident, spec_sof_ident,
};

verus! {

/// The generated size probe: a compile-time-evaluable function, generic over
/// a callable with the original parameter types plus the declaration's full
/// generic list, reporting the byte size of the callable's result type.
pub fn crate_size_of_fut_def(ident_org: &String, d: &FnDecl) -> (r: ProbeFnDef)
    requires
        !spec_has_receiver(d@.inputs),
    ensures
        r@.ident == spec_sof_ident(ident_org@),
        r@.generics == d@.generics,
        r@.arg_tys == spec_arg_tys(d@.inputs),
        r@.measure is Size,
{
    let mut ident = ident_org.clone();
    ident.append("_sof");
    ProbeFnDef {
        ident,
        generics: fn_generics(d),
        arg_tys: match fn_args_ty(d) {
            Result::Ok(v) => v,
            Result::Err(_) => unreached(),
        },
        measure: LayoutKind::Size,
    }
}

/// The generated alignment probe, the size probe's twin: it reports the byte
/// alignment of the callable's result type.
pub fn crate_align_of_fut_def(ident_org: &String, d: &FnDecl) -> (r: ProbeFnDef)
    requires
        !spec_has_receiver(d@.inputs),
    ensures
        r@.ident == spec_aof_ident(ident_org@),
        r@.generics == d@.generics,
        r@.arg_tys == spec_arg_tys(d@.inputs),
        r@.measure is Align,
{
    let mut ident = ident_org.clone();
    ident.append("_aof");
    ProbeFnDef {
        ident,
        generics: fn_generics(d),
        arg_tys: match fn_args_ty(d) {
            Result::Ok(v) => v,
            Result::Err(_) => unreached(),
        },
        measure: LayoutKind::Align,
    }
}

/// The synthetic future type: public, carrying the declaration's full generic
/// parameter list, with the opaque storage field, a zero-sized marker
/// borrowing every original parameter type, and a pinning marker.
pub fn create_future_struct_def(ident: &String, dummy_field: DummyField, d: &FnDecl) -> (r:
    FutureStructDef)
    requires
        !spec_has_receiver(d@.inputs),
    ensures
        r@.ident == ident@,
        r@.generics == d@.generics,
        r@.dummy == dummy_field@,
        r@.arg_tys == spec_arg_tys(d@.inputs),
{
    FutureStructDef {
        ident: ident.clone(),
        generics: fn_generics(d),
        dummy: dummy_field,
        arg_tys: match fn_args_ty(d) {
            Result::Ok(v) => v,
            Result::Err(_) => unreached(),
        },
    }
}

/// The future-capability implementation: generic over the declaration's full
/// list, with the polling helper generic over the original lifetimes first
/// and the non-lifetime parameters last, requiring the cross-thread-transfer
/// capability of the real suspension type unless opted out.
pub fn create_future_impl_def(ty_fut: &FutureTy, ident_org: &String, d: &FnDecl, is_unsend: bool)
    -> (r: FutureImplDef)
    requires
        !spec_has_receiver(d@.inputs),
    ensures
        r@.self_ty == ty_fut@,
        r@.generics == d@.generics,
        r@.output == ret_ty_text(d@.output),
        r@.arg_tys == spec_arg_tys(d@.inputs),
        r@.helper_lifetimes == lifetime_view(d@.generics),
        r@.helper_ty_params == non_lifetime_view(d@.generics),
        r@.hidden_ident == ident_org@,
        r@.send_bound == !is_unsend,
{
    FutureImplDef {
        self_ty: ty_fut.clone(),
        generics: fn_generics(d),
        output: extract_return_ty(d),
        arg_tys: match fn_args_ty(d) {
            Result::Ok(v) => v,
            Result::Err(_) => unreached(),
        },
        helper_lifetimes: lifetime_generics(&d.generics),
        helper_ty_params: non_lifetime_generics(&d.generics),
        hidden_ident: ident_org.clone(),
        send_bound: !is_unsend,
    }
}

/// The destructor-capability implementation: its helper, generic over the
/// original lifetimes first and the non-lifetime parameters last,
/// reinterprets the storage as the real suspension type and destroys it in
/// place only when that type needs it.
pub fn create_drop_impl_def(ty_fut: &FutureTy, ident_org: &String, d: &FnDecl) -> (r: DropImplDef)
    requires
        !spec_has_receiver(d@.inputs),
    ensures
        r@.self_ty == ty_fut@,
        r@.generics == d@.generics,
        r@.arg_tys == spec_arg_tys(d@.inputs),
        r@.helper_lifetimes == lifetime_view(d@.generics),
        r@.helper_ty_params == non_lifetime_view(d@.generics),
        r@.hidden_ident == ident_org@,
{
    DropImplDef {
        self_ty: ty_fut.clone(),
        generics: fn_generics(d),
        arg_tys: match fn_args_ty(d) {
            Result::Ok(v) => v,
            Result::Err(_) => unreached(),
        },
        helper_lifetimes: lifetime_generics(&d.generics),
        helper_ty_params: non_lifetime_generics(&d.generics),
        hidden_ident: ident_org.clone(),
    }
}

} // verus!
