//! Properties of the expansion, stated over [`crate::spec_expansion`] and
//! proved once for every admissible declaration. Each law speaks only of the
//! structure of the generated declarations; what the host compiler then does
//! with them (layouts, capability checking, running the suspension) is
//! outside this library.

use vstd::prelude::*;

use crate::decl::{FnDeclV, lifetime_view, non_lifetime_view, ret_ty_text, spec_arg_pats,
    spec_has_receiver};
use crate::gen::spec_hidden_ident;
use crate::spec_expansion;

verus! {

/// Layout parity, by construction: the synthetic type's opaque buffer is
/// sized and aligned by exactly the two emitted probes, applied to exactly
/// the hidden implementation function, instantiated at exactly the same
/// non-lifetime generic parameters that the polling helper is instantiated
/// at, and both probes constrain their callable by the same parameter types
/// that bound the helper's callable. The probes carry the declaration's full
/// generic list, so every instantiation of the synthetic type instantiates
/// probe and real suspension type identically.
pub proof fn lemma_layout_parity(name: Seq<char>, unsend: bool, d: FnDeclV)
    requires
        d.is_async,
        !spec_has_receiver(d.inputs),
    ensures
        ({
            let e = spec_expansion(name, unsend, d);
            &&& e.future_struct.dummy.size_probe == e.size_probe.ident
            &&& e.future_struct.dummy.align_probe == e.align_probe.ident
            &&& e.future_struct.dummy.hidden_ident == e.hidden_fn.ident
            &&& e.future_struct.dummy.probe_args == e.future_impl.helper_ty_params
            &&& e.size_probe.arg_tys == e.future_impl.arg_tys
            &&& e.align_probe.arg_tys == e.future_impl.arg_tys
            &&& e.size_probe.generics == d.generics
            &&& e.align_probe.generics == d.generics
            &&& e.future_struct.generics == d.generics
        }),
{
}

/// Round-trip preservation, by construction: the hidden function keeps the
/// original body, parameters and suspension sugar under the new private
/// name; the replacement function carries the original name, calls the
/// hidden function with the original bindings in order, and declares the
/// synthetic type whose polling capability's result type is the original
/// declared result type. Polling the synthetic value therefore forwards to
/// the original computation unchanged.
pub proof fn lemma_round_trip_preservation(name: Seq<char>, unsend: bool, d: FnDeclV)
    requires
        d.is_async,
        !spec_has_receiver(d.inputs),
    ensures
        ({
            let e = spec_expansion(name, unsend, d);
            &&& e.hidden_fn.body == d.body
            &&& e.hidden_fn.inputs == d.inputs
            &&& e.hidden_fn.output == d.output
            &&& e.hidden_fn.is_async == d.is_async
            &&& e.hidden_fn.ident == spec_hidden_ident(d.ident)
            &&& e.hidden_fn.vis == Seq::<char>::empty()
            &&& e.new_fn.ident == d.ident
            &&& e.new_fn.vis == d.vis
            &&& e.new_fn.inputs == d.inputs
            &&& e.new_fn.hidden_ident == e.hidden_fn.ident
            &&& e.new_fn.arg_pats == spec_arg_pats(d.inputs)
            &&& e.new_fn.ret == e.future_impl.self_ty
            &&& e.future_impl.output == ret_ty_text(d.output)
            &&& e.future_impl.hidden_ident == e.hidden_fn.ident
        }),
{
}

/// Send-capability enforcement, structural side: the polling helper requires
/// the cross-thread-transfer capability of the real suspension type exactly
/// when the opt-out was not requested, and the opt-out marker field is
/// present in the synthetic type exactly when it was.
pub proof fn lemma_send_capability(name: Seq<char>, unsend: bool, d: FnDeclV)
    requires
        d.is_async,
        !spec_has_receiver(d.inputs),
    ensures
        ({
            let e = spec_expansion(name, unsend, d);
            &&& e.future_impl.send_bound == !unsend
            &&& e.future_struct.dummy.unsend_marker == unsend
        }),
{
}

/// Generic propagation: the synthetic type and both capability
/// implementations carry the declaration's full generic list, while the
/// helpers' own lists hold every original lifetime first and every original
/// non-lifetime parameter last — no lifetime among the helper's type
/// parameters, no type parameter among its lifetimes, order preserved, and
/// the synthetic type named in return position carries the full list as
/// arguments whenever the declaration has generics at all.
pub proof fn lemma_generic_propagation(name: Seq<char>, unsend: bool, d: FnDeclV)
    requires
        d.is_async,
        !spec_has_receiver(d.inputs),
    ensures
        ({
            let e = spec_expansion(name, unsend, d);
            &&& e.future_impl.generics == d.generics
            &&& e.drop_impl.generics == d.generics
            &&& e.future_impl.helper_ty_params == non_lifetime_view(d.generics)
            &&& e.future_impl.helper_lifetimes == lifetime_view(d.generics)
            &&& forall|i: int|
                0 <= i < e.future_impl.helper_ty_params.len() ==> !(
                e.future_impl.helper_ty_params[i] is Lifetime)
            &&& forall|i: int|
                0 <= i < e.future_impl.helper_lifetimes.len()
                    ==> e.future_impl.helper_lifetimes[i] is Lifetime
            &&& forall|i: int|
                0 <= i < d.generics.len() && !(d.generics[i] is Lifetime)
                    ==> e.future_impl.helper_ty_params.contains(d.generics[i])
            &&& forall|i: int|
                0 <= i < d.generics.len() && d.generics[i] is Lifetime
                    ==> e.future_impl.helper_lifetimes.contains(d.generics[i])
            &&& (d.generics.len() == 0 ==> e.new_fn.ret.args is None)
            &&& (d.generics.len() > 0 ==> e.new_fn.ret.args == Option::Some(d.generics))
        }),
{
    let e = spec_expansion(name, unsend, d);
    assert forall|i: int|
        0 <= i < e.future_impl.helper_ty_params.len() implies !(
    e.future_impl.helper_ty_params[i] is Lifetime) by {
        d.generics.lemma_filter_pred(|g: crate::decl::GenericParamV| !(g is Lifetime), i);
    }
    assert forall|i: int|
        0 <= i < e.future_impl.helper_lifetimes.len() implies e.future_impl.helper_lifetimes[i]
        is Lifetime by {
        d.generics.lemma_filter_pred(|g: crate::decl::GenericParamV| g is Lifetime, i);
    }
    assert forall|i: int|
        0 <= i < d.generics.len() && !(d.generics[i] is Lifetime)
            implies e.future_impl.helper_ty_params.contains(d.generics[i]) by {
        d.generics.lemma_filter_contains(|g: crate::decl::GenericParamV| !(g is Lifetime), i);
    }
    assert forall|i: int|
        0 <= i < d.generics.len() && d.generics[i] is Lifetime
            implies e.future_impl.helper_lifetimes.contains(d.generics[i]) by {
        d.generics.lemma_filter_contains(|g: crate::decl::GenericParamV| g is Lifetime, i);
    }
}

/// Cleanup correctness, structural side: exactly one destructor capability
/// is emitted, for the synthetic type itself, and its helper receives the
/// same hidden function, the same parameter-type bounds and the same
/// generic instantiation as the polling helper — so the value it tears down
/// in place is the same real suspension type the poll operates on, and the
/// opaque buffer field contributes no teardown of its own.
pub proof fn lemma_cleanup_shape(name: Seq<char>, unsend: bool, d: FnDeclV)
    requires
        d.is_async,
        !spec_has_receiver(d.inputs),
    ensures
        ({
            let e = spec_expansion(name, unsend, d);
            &&& e.drop_impl.self_ty == e.future_impl.self_ty
            &&& e.drop_impl.generics == e.future_impl.generics
            &&& e.drop_impl.arg_tys == e.future_impl.arg_tys
            &&& e.drop_impl.helper_lifetimes == e.future_impl.helper_lifetimes
            &&& e.drop_impl.helper_ty_params == e.future_impl.helper_ty_params
            &&& e.drop_impl.hidden_ident == e.hidden_fn.ident
        }),
{
}

} // verus!
