//! The plain-value model of everything the expansion generates: the two
//! layout-probe functions, the synthetic future type, its future and drop
//! capability implementations, the hidden implementation function and the
//! replacement public function.

use vstd::prelude::*;

use crate::decl::{FnDecl, FnDeclV, GenericParam, GenericParamV, seq_gp_view, seq_str_view};

verus! {

/// Which layout quantity a probe function reports.
pub enum LayoutKind {
    Size,
    Align,
}

/// One generated compile-time layout probe: a function, generic over a
/// callable `F` with the original parameter types, its result type, and the
/// original declaration's full generic parameter list, that reports the byte
/// size or alignment of the callable's result type.
pub struct ProbeFnDef {
    /// The probe's own identifier.
    pub ident: String,
    /// The full generic parameter list of the original declaration.
    pub generics: Vec<GenericParam>,
    /// The original parameter type texts, bounding the probed callable.
    pub arg_tys: Vec<String>,
    /// Whether the probe reports size or alignment.
    pub measure: LayoutKind,
}

/// Spec-level counterpart of [`ProbeFnDef`].
#[verifier::ext_equal]
pub struct ProbeFnDefV {
    pub ident: Seq<char>,
    pub generics: Seq<GenericParamV>,
    pub arg_tys: Seq<Seq<char>>,
    pub measure: LayoutKind,
}

impl View for ProbeFnDef {
    type V = ProbeFnDefV;

    open spec fn view(&self) -> ProbeFnDefV {
        ProbeFnDefV {
            ident: self.ident@,
            generics: seq_gp_view(self.generics@),
            arg_tys: seq_str_view(self.arg_tys@),
            measure: self.measure,
        }
    }
}

/// The opaque storage field of the synthetic type: a byte buffer whose size
/// and alignment are the two probes applied to the hidden function, plus,
/// when requested, the thread-affinity opt-out marker.
pub struct DummyField {
    /// Identifier of the size probe the buffer's length invokes.
    pub size_probe: String,
    /// Identifier of the alignment probe the buffer's alignment invokes.
    pub align_probe: String,
    /// Identifier of the hidden implementation function both probes receive.
    pub hidden_ident: String,
    /// The non-lifetime generic parameters passed to both probe invocations.
    pub probe_args: Vec<GenericParam>,
    /// Whether the cross-thread-transfer opt-out marker field is present.
    pub unsend_marker: bool,
}

/// Spec-level counterpart of [`DummyField`].
#[verifier::ext_equal]
pub struct DummyFieldV {
    pub size_probe: Seq<char>,
    pub align_probe: Seq<char>,
    pub hidden_ident: Seq<char>,
    pub probe_args: Seq<GenericParamV>,
    pub unsend_marker: bool,
}

impl View for DummyField {
    type V = DummyFieldV;

    open spec fn view(&self) -> DummyFieldV {
        DummyFieldV {
            size_probe: self.size_probe@,
            align_probe: self.align_probe@,
            hidden_ident: self.hidden_ident@,
            probe_args: seq_gp_view(self.probe_args@),
            unsend_marker: self.unsend_marker,
        }
    }
}

/// The generated public future type: the opaque storage field, a zero-sized
/// marker borrowing every original parameter type, and a pinning marker.
pub struct FutureStructDef {
    /// The caller-chosen name of the type.
    pub ident: String,
    /// The full generic parameter list of the original declaration.
    pub generics: Vec<GenericParam>,
    /// The opaque storage field.
    pub dummy: DummyField,
    /// The original parameter type texts, borrowed by the zero-sized marker.
    pub arg_tys: Vec<String>,
}

/// Spec-level counterpart of [`FutureStructDef`].
#[verifier::ext_equal]
pub struct FutureStructDefV {
    pub ident: Seq<char>,
    pub generics: Seq<GenericParamV>,
    pub dummy: DummyFieldV,
    pub arg_tys: Seq<Seq<char>>,
}

impl View for FutureStructDef {
    type V = FutureStructDefV;

    open spec fn view(&self) -> FutureStructDefV {
        FutureStructDefV {
            ident: self.ident@,
            generics: seq_gp_view(self.generics@),
            dummy: self.dummy@,
            arg_tys: seq_str_view(self.arg_tys@),
        }
    }
}

/// A reference to the synthetic type: its identifier, with the generic
/// argument list present only when the original declared generics (an empty
/// angle-bracket list would not be well formed).
pub struct FutureTy {
    pub ident: String,
    pub args: Option<Vec<GenericParam>>,
}

/// Spec-level counterpart of [`FutureTy`].
#[verifier::ext_equal]
pub struct FutureTyV {
    pub ident: Seq<char>,
    pub args: Option<Seq<GenericParamV>>,
}

impl View for FutureTy {
    type V = FutureTyV;

    open spec fn view(&self) -> FutureTyV {
        FutureTyV {
            ident: self.ident@,
            args: match &self.args {
                Option::None => Option::None,
                Option::Some(v) => Option::Some(seq_gp_view(v@)),
            },
        }
    }
}

impl Clone for FutureTy {
    fn clone(&self) -> (r: Self)
        ensures
            r@ == self@,
    {
        FutureTy {
            ident: self.ident.clone(),
            args: match &self.args {
                Option::None => Option::None,
                Option::Some(v) => Option::Some(crate::decl::copy_generics(v)),
            },
        }
    }
}

/// The generated future-capability implementation for the synthetic type.
/// Its polling operation delegates to an inner helper, generic over the
/// hidden function's type, the real suspension type, and the original
/// non-lifetime generics, with the original lifetimes leading the helper's
/// own generic list.
pub struct FutureImplDef {
    /// The implemented-for type.
    pub self_ty: FutureTy,
    /// The full generic parameter list on the implementation itself.
    pub generics: Vec<GenericParam>,
    /// The associated result type's token text.
    pub output: String,
    /// The original parameter type texts, bounding the helper's callable.
    pub arg_tys: Vec<String>,
    /// The original lifetime parameters, leading the helper's generic list.
    pub helper_lifetimes: Vec<GenericParam>,
    /// The original non-lifetime parameters, closing the helper's generic
    /// list and instantiating the helper at the call site.
    pub helper_ty_params: Vec<GenericParam>,
    /// Identifier of the hidden function handed to the helper.
    pub hidden_ident: String,
    /// Whether the helper requires the real suspension type to satisfy the
    /// cross-thread-transfer capability.
    pub send_bound: bool,
}

/// Spec-level counterpart of [`FutureImplDef`].
#[verifier::ext_equal]
pub struct FutureImplDefV {
    pub self_ty: FutureTyV,
    pub generics: Seq<GenericParamV>,
    pub output: Seq<char>,
    pub arg_tys: Seq<Seq<char>>,
    pub helper_lifetimes: Seq<GenericParamV>,
    pub helper_ty_params: Seq<GenericParamV>,
    pub hidden_ident: Seq<char>,
    pub send_bound: bool,
}

impl View for FutureImplDef {
    type V = FutureImplDefV;

    open spec fn view(&self) -> FutureImplDefV {
        FutureImplDefV {
            self_ty: self.self_ty@,
            generics: seq_gp_view(self.generics@),
            output: self.output@,
            arg_tys: seq_str_view(self.arg_tys@),
            helper_lifetimes: seq_gp_view(self.helper_lifetimes@),
            helper_ty_params: seq_gp_view(self.helper_ty_params@),
            hidden_ident: self.hidden_ident@,
            send_bound: self.send_bound,
        }
    }
}

/// The generated destructor-capability implementation: its helper
/// reinterprets the storage as the real suspension type and tears it down in
/// place only when that type needs it.
pub struct DropImplDef {
    /// The implemented-for type.
    pub self_ty: FutureTy,
    /// The full generic parameter list on the implementation itself.
    pub generics: Vec<GenericParam>,
    /// The original parameter type texts, bounding the helper's callable.
    pub arg_tys: Vec<String>,
    /// The original lifetime parameters, leading the helper's generic list.
    pub helper_lifetimes: Vec<GenericParam>,
    /// The original non-lifetime parameters, closing the helper's generic list.
    pub helper_ty_params: Vec<GenericParam>,
    /// Identifier of the hidden function handed to the helper.
    pub hidden_ident: String,
}

/// Spec-level counterpart of [`DropImplDef`].
#[verifier::ext_equal]
pub struct DropImplDefV {
    pub self_ty: FutureTyV,
    pub generics: Seq<GenericParamV>,
    pub arg_tys: Seq<Seq<char>>,
    pub helper_lifetimes: Seq<GenericParamV>,
    pub helper_ty_params: Seq<GenericParamV>,
    pub hidden_ident: Seq<char>,
}

impl View for DropImplDef {
    type V = DropImplDefV;

    open spec fn view(&self) -> DropImplDefV {
        DropImplDefV {
            self_ty: self.self_ty@,
            generics: seq_gp_view(self.generics@),
            arg_tys: seq_str_view(self.arg_tys@),
            helper_lifetimes: seq_gp_view(self.helper_lifetimes@),
            helper_ty_params: seq_gp_view(self.helper_ty_params@),
            hidden_ident: self.hidden_ident@,
        }
    }
}

/// The replacement public function: the original name, visibility, attributes,
/// generics and parameters, the suspension sugar removed, the synthetic type
/// as the declared result, and a body that calls the hidden function with the
/// original bindings and reinterprets the result.
pub struct NewFnDef {
    pub attrs: Vec<String>,
    pub vis: String,
    pub ident: String,
    pub generics: Vec<GenericParam>,
    pub inputs: Vec<crate::decl::FnArg>,
    /// The declared result: the synthetic type.
    pub ret: FutureTy,
    /// Identifier of the hidden function the body calls.
    pub hidden_ident: String,
    /// The original parameter binding texts, forwarded to the call.
    pub arg_pats: Vec<String>,
}

/// Spec-level counterpart of [`NewFnDef`].
#[verifier::ext_equal]
pub struct NewFnDefV {
    pub attrs: Seq<Seq<char>>,
    pub vis: Seq<char>,
    pub ident: Seq<char>,
    pub generics: Seq<GenericParamV>,
    pub inputs: Seq<crate::decl::FnArgV>,
    pub ret: FutureTyV,
    pub hidden_ident: Seq<char>,
    pub arg_pats: Seq<Seq<char>>,
}

impl View for NewFnDef {
    type V = NewFnDefV;

    open spec fn view(&self) -> NewFnDefV {
        NewFnDefV {
            attrs: seq_str_view(self.attrs@),
            vis: self.vis@,
            ident: self.ident@,
            generics: seq_gp_view(self.generics@),
            inputs: crate::decl::seq_arg_view(self.inputs@),
            ret: self.ret@,
            hidden_ident: self.hidden_ident@,
            arg_pats: seq_str_view(self.arg_pats@),
        }
    }
}

/// Everything one successful expansion emits, in emission order.
pub struct Expansion {
    pub size_probe: ProbeFnDef,
    pub align_probe: ProbeFnDef,
    pub future_struct: FutureStructDef,
    pub future_impl: FutureImplDef,
    pub drop_impl: DropImplDef,
    pub hidden_fn: FnDecl,
    pub new_fn: NewFnDef,
}

/// Spec-level counterpart of [`Expansion`].
#[verifier::ext_equal]
pub struct ExpansionV {
    pub size_probe: ProbeFnDefV,
    pub align_probe: ProbeFnDefV,
    pub future_struct: FutureStructDefV,
    pub future_impl: FutureImplDefV,
    pub drop_impl: DropImplDefV,
    pub hidden_fn: FnDeclV,
    pub new_fn: NewFnDefV,
}

impl View for Expansion {
    type V = ExpansionV;

    open spec fn view(&self) -> ExpansionV {
        ExpansionV {
            size_probe: self.size_probe@,
            align_probe: self.align_probe@,
            future_struct: self.future_struct@,
            future_impl: self.future_impl@,
            drop_impl: self.drop_impl@,
            hidden_fn: self.hidden_fn@,
            new_fn: self.new_fn@,
        }
    }
}

/// The hidden implementation function's identifier: the original prefixed
/// with a fixed internal marker.
pub open spec fn spec_hidden_ident(ident: Seq<char>) -> Seq<char> {
    "__internal_"@ + ident
}

/// The size probe's identifier, derived from the hidden identifier.
pub open spec fn spec_sof_ident(hidden: Seq<char>) -> Seq<char> {
    hidden + "_sof"@
}

/// The alignment probe's identifier, derived from the hidden identifier.
pub open spec fn spec_aof_ident(hidden: Seq<char>) -> Seq<char> {
    hidden + "_aof"@
}

} // verus!
