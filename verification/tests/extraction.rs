//! Unit tests of the signature projections and the generic filters.

use rename_future::decl::{FnArg, FnDecl, GenericParam, RetTy};
use rename_future::checks::is_async_fn;
use rename_future::extract::{
    extract_return_ty, fn_arg_pat, fn_args_ty, fn_generics, lifetime_generics,
    non_lifetime_generics,
};

fn decl_with(inputs: Vec<FnArg>, output: RetTy) -> FnDecl {
    FnDecl {
        vis: String::new(),
        ident: "f".to_string(),
        is_async: true,
        generics: Vec::new(),
        inputs,
        output,
        attrs: Vec::new(),
        body: "{}".to_string(),
    }
}

#[test]
fn return_ty_defaults_to_unit() {
    let d = decl_with(Vec::new(), RetTy::Unit);
    assert_eq!(extract_return_ty(&d), "()");
}

#[test]
fn return_ty_declared_is_kept() {
    let d = decl_with(Vec::new(), RetTy::Declared("Result<u8, E>".to_string()));
    assert_eq!(extract_return_ty(&d), "Result<u8, E>");
}

#[test]
fn arg_types_in_order() {
    let d = decl_with(
        vec![
            FnArg::Typed { pat: "a".to_string(), ty: "u8".to_string() },
            FnArg::Typed { pat: "b".to_string(), ty: "&str".to_string() },
        ],
        RetTy::Unit,
    );
    assert_eq!(
        fn_args_ty(&d).ok().unwrap(),
        vec!["u8".to_string(), "&str".to_string()]
    );
    assert_eq!(
        fn_arg_pat(&d).ok().unwrap(),
        vec!["a".to_string(), "b".to_string()]
    );
}

#[test]
fn receiver_refused_by_projections() {
    let d = decl_with(
        vec![
            FnArg::Receiver,
            FnArg::Typed { pat: "b".to_string(), ty: "u8".to_string() },
        ],
        RetTy::Unit,
    );
    assert!(fn_args_ty(&d).is_err());
    assert!(fn_arg_pat(&d).is_err());
}

#[test]
fn async_marker_read() {
    let mut d = decl_with(Vec::new(), RetTy::Unit);
    assert!(is_async_fn(&d));
    d.is_async = false;
    assert!(!is_async_fn(&d));
}

fn texts(gs: &[GenericParam]) -> Vec<String> {
    gs.iter()
        .map(|g| match g {
            GenericParam::Lifetime(s) => format!("lt {s}"),
            GenericParam::Plain(s) => format!("ty {s}"),
        })
        .collect()
}

#[test]
fn generic_filters_preserve_order() {
    let gs = vec![
        GenericParam::Lifetime("'a".to_string()),
        GenericParam::Plain("T".to_string()),
        GenericParam::Lifetime("'b".to_string()),
        GenericParam::Plain("const N: usize".to_string()),
    ];
    let full = fn_generics(&decl_with_generics(gs.clone()));
    assert_eq!(texts(&full), texts(&gs));

    let plains = non_lifetime_generics(&gs);
    assert_eq!(
        texts(&plains),
        vec!["ty T".to_string(), "ty const N: usize".to_string()]
    );

    let lifetimes = lifetime_generics(&gs);
    assert_eq!(
        texts(&lifetimes),
        vec!["lt 'a".to_string(), "lt 'b".to_string()]
    );
}

fn decl_with_generics(generics: Vec<GenericParam>) -> FnDecl {
    let mut d = decl_with(Vec::new(), RetTy::Unit);
    d.generics = generics;
    d
}

#[test]
fn empty_generics_filter_to_empty() {
    let gs: Vec<GenericParam> = Vec::new();
    assert!(non_lifetime_generics(&gs).is_empty());
    assert!(lifetime_generics(&gs).is_empty());
}
