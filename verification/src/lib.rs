//! Rewrites a cooperative-suspension (`async`) function declaration into a
//! pair of declarations: a hidden implementation function and a newly named
//! public future type backed by an opaque, layout-probed byte buffer.
//!
//! The library works on a plain-value model of the declaration: identifiers,
//! type and pattern token texts, generic parameters and the async marker.
//! Parsing real token streams into this model, and printing the generated
//! declarations back out, is the caller's concern.

use vstd::prelude::*;

pub mod synth;
pub mod checks;
pub mod decl;
pub mod extract;
pub mod gen;
pub mod laws;

use crate::decl::{
    FnDecl, FnDeclV, copy_args, copy_strings, lifetime_view, non_lifetime_view, ret_ty_text,
    spec_arg_pats, spec_arg_tys, spec_has_receiver,
};
use crate::gen::{
    DropImplDefV, DummyField, DummyFieldV, Expansion, ExpansionV, FutureImplDefV,
    FutureStructDefV, FutureTy, FutureTyV, LayoutKind, NewFnDefV, ProbeFnDefV, spec_aof_ident,
    spec_hidden_ident, spec_sof_ident,
};

verus! {

/// Why an expansion was refused. Every failure aborts the whole expansion;
/// no partial output is ever produced.
pub enum ExpandError {
    /// The attribute was invoked without the required target type name.
    MissingFutureName,
    /// The annotated item is not marked with the suspension sugar.
    NotAsyncFn,
    /// The annotated function takes a receiver-style first parameter.
    ReceiverParam,
}

/// The token text of the only recognized second attribute argument, the one
/// opting out of the cross-thread-transfer capability.
pub open spec fn unsend_marker_text() -> Seq<char> {
    "(! Send)"@
}

/// Whether the attribute arguments request the opt-out: a second argument
/// whose token text is exactly the recognized form. Any other second
/// argument is treated as absent.
pub open spec fn spec_unsend(args: Seq<String>) -> bool {
    args.len() >= 2 && args[1]@ == unsend_marker_text()
}

/// How the synthetic type is referred to in return-type and implementation
/// position: with the declaration's full generic parameter list as arguments,
/// or bare when the declaration has no generics (empty angle brackets would
/// not be well formed).
pub open spec fn spec_future_ty(name: Seq<char>, d: FnDeclV) -> FutureTyV {
    FutureTyV {
        ident: name,
        args: if d.generics.len() == 0 {
            Option::None
        } else {
            Option::Some(d.generics)
        },
    }
}

/// Everything a successful expansion emits, as a function of the requested
/// type name, the opt-out flag and the annotated declaration.
pub open spec fn spec_expansion(name: Seq<char>, unsend: bool, d: FnDeclV) -> ExpansionV {
    let hidden = spec_hidden_ident(d.ident);
    let tys = spec_arg_tys(d.inputs);
    let fut_ty = spec_future_ty(name, d);
    ExpansionV {
        size_probe: ProbeFnDefV {
            ident: spec_sof_ident(hidden),
            generics: d.generics,
            arg_tys: tys,
            measure: LayoutKind::Size,
        },
        align_probe: ProbeFnDefV {
            ident: spec_aof_ident(hidden),
            generics: d.generics,
            arg_tys: tys,
            measure: LayoutKind::Align,
        },
        future_struct: FutureStructDefV {
            ident: name,
            generics: d.generics,
            dummy: DummyFieldV {
                size_probe: spec_sof_ident(hidden),
                align_probe: spec_aof_ident(hidden),
                hidden_ident: hidden,
                probe_args: non_lifetime_view(d.generics),
                unsend_marker: unsend,
            },
            arg_tys: tys,
        },
        future_impl: FutureImplDefV {
            self_ty: fut_ty,
            generics: d.generics,
            output: ret_ty_text(d.output),
            arg_tys: tys,
            helper_lifetimes: lifetime_view(d.generics),
            helper_ty_params: non_lifetime_view(d.generics),
            hidden_ident: hidden,
            send_bound: !unsend,
        },
        drop_impl: DropImplDefV {
            self_ty: fut_ty,
            generics: d.generics,
            arg_tys: tys,
            helper_lifetimes: lifetime_view(d.generics),
            helper_ty_params: non_lifetime_view(d.generics),
            hidden_ident: hidden,
        },
        hidden_fn: FnDeclV {
            vis: Seq::empty(),
            ident: hidden,
            is_async: d.is_async,
            generics: d.generics,
            inputs: d.inputs,
            output: d.output,
            attrs: d.attrs,
            body: d.body,
        },
        new_fn: NewFnDefV {
            attrs: d.attrs,
            vis: d.vis,
            ident: d.ident,
            generics: d.generics,
            inputs: d.inputs,
            ret: fut_ty,
            hidden_ident: hidden,
            arg_pats: spec_arg_pats(d.inputs),
        },
    }
}

/// The whole transformation. `args` are the attribute's argument token trees;
/// `input` is the annotated declaration. On success the result is exactly
/// [`spec_expansion`] of the requested name, the opt-out flag and the input;
/// each refusal names its reason and arises on exactly the inputs stated.
pub fn rename_future(args: &Vec<String>, input: &FnDecl) -> (r: Result<Expansion, ExpandError>)
    ensures
        match r {
            Result::Ok(e) => args@.len() >= 1 && input@.is_async && !spec_has_receiver(
                input@.inputs,
            ) && e@ == spec_expansion(args@[0]@, spec_unsend(args@), input@),
            Result::Err(e) => match e {
                ExpandError::MissingFutureName => args@.len() == 0,
                ExpandError::NotAsyncFn => args@.len() >= 1 && !input@.is_async,
                ExpandError::ReceiverParam => args@.len() >= 1 && input@.is_async
                    && spec_has_receiver(input@.inputs),
            },
        },
{
    if args.len() == 0 {
        return Result::Err(ExpandError::MissingFutureName);
    }
    let fut_name: String = args[0].clone();

    // Recognize the opt-out marker in the second argument token, if any.
    let is_unsend: bool = if args.len() >= 2 {
        let marker = String::from_str("(! Send)");
        let second: &String = &args[1];
        second.eq(&marker)
    } else {
        false
    };
    proof {
        assert(is_unsend == spec_unsend(args@));
    }

    if !checks::is_async_fn(input) {
        return Result::Err(ExpandError::NotAsyncFn);
    }

    // Reject receiver-style parameters before anything is synthesized.
    let fn_pat: Vec<String> = match extract::fn_arg_pat(input) {
        Result::Ok(v) => v,
        Result::Err(_) => {
            return Result::Err(ExpandError::ReceiverParam);
        },
    };

    // The hidden implementation function's identifier.
    let mut ident_org = String::from_str("__internal_");
    ident_org.append(input.ident.as_str());

    let def_size_of_fut = synth::crate_size_of_fut_def(&ident_org, input);
    let def_align_of_fut = synth::crate_align_of_fut_def(&ident_org, input);

    // The opaque storage field: the byte buffer sized and aligned by the two
    // probes applied to the hidden function, instantiated at the non-lifetime
    // generics, plus the opt-out marker when requested.
    let dummy_field = DummyField {
        size_probe: def_size_of_fut.ident.clone(),
        align_probe: def_align_of_fut.ident.clone(),
        hidden_ident: ident_org.clone(),
        probe_args: extract::non_lifetime_generics(&input.generics),
        unsend_marker: is_unsend,
    };
    let def_future = synth::create_future_struct_def(&fut_name, dummy_field, input);

    // The synthetic type as written in return-type position.
    let ty_future = if input.generics.len() == 0 {
        FutureTy { ident: fut_name, args: Option::None }
    } else {
        FutureTy { ident: fut_name, args: Option::Some(extract::fn_generics(input)) }
    };

    let future_impl = synth::create_future_impl_def(&ty_future, &ident_org, input, is_unsend);
    let drop_impl = synth::create_drop_impl_def(&ty_future, &ident_org, input);

    // The original declaration, renamed and demoted to a private item; body
    // and suspension sugar stay untouched.
    let mut org_func = input.clone();
    org_func.ident = ident_org.clone();
    org_func.vis = String::new();

    // The replacement public function: the original signature without the
    // sugar, returning the synthetic type, calling the hidden function with
    // the original bindings.
    let def_new_func = gen::NewFnDef {
        attrs: copy_strings(&input.attrs),
        vis: input.vis.clone(),
        ident: input.ident.clone(),
        generics: extract::fn_generics(input),
        inputs: copy_args(&input.inputs),
        ret: ty_future,
        hidden_ident: ident_org,
        arg_pats: fn_pat,
    };

    let e = Expansion {
        size_probe: def_size_of_fut,
        align_probe: def_align_of_fut,
        future_struct: def_future,
        future_impl,
        drop_impl,
        hidden_fn: org_func,
        new_fn: def_new_func,
    };
    proof {
        assert(e@ =~~= spec_expansion(args@[0]@, spec_unsend(args@), input@));
    }
    Result::Ok(e)
}

} // verus!
