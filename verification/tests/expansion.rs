//! End-to-end tests of the expansion on concrete declarations.

use rename_future::decl::{FnArg, FnDecl, GenericParam, RetTy};
use rename_future::gen::{Expansion, LayoutKind};
use rename_future::{rename_future, ExpandError};

fn plain_decl(ident: &str, is_async: bool) -> FnDecl {
    FnDecl {
        vis: "pub".to_string(),
        ident: ident.to_string(),
        is_async,
        generics: Vec::new(),
        inputs: Vec::new(),
        output: RetTy::Declared("i32".to_string()),
        attrs: Vec::new(),
        body: "{ 42 }".to_string(),
    }
}

fn expand_ok(args: &[&str], d: &FnDecl) -> Expansion {
    let args: Vec<String> = args.iter().map(|s| s.to_string()).collect();
    match rename_future(&args, d) {
        Ok(e) => e,
        Err(_) => panic!("expansion unexpectedly failed"),
    }
}

#[test]
fn missing_argument_aborts() {
    let d = plain_decl("foo", true);
    let args: Vec<String> = Vec::new();
    match rename_future(&args, &d) {
        Err(ExpandError::MissingFutureName) => {}
        _ => panic!("expected the missing-name error"),
    }
}

#[test]
fn non_async_function_rejected() {
    let d = plain_decl("foo", false);
    let args = vec!["FooFut".to_string()];
    match rename_future(&args, &d) {
        Err(ExpandError::NotAsyncFn) => {}
        _ => panic!("expected the not-async error"),
    }
}

#[test]
fn receiver_parameter_rejected() {
    let mut d = plain_decl("foo", true);
    d.inputs.push(FnArg::Receiver);
    let args = vec!["FooFut".to_string()];
    match rename_future(&args, &d) {
        Err(ExpandError::ReceiverParam) => {}
        _ => panic!("expected the receiver error"),
    }
}

#[test]
fn simple_expansion_names_and_shape() {
    let d = plain_decl("foo", true);
    let e = expand_ok(&["AnswerFut"], &d);

    assert_eq!(e.hidden_fn.ident, "__internal_foo");
    assert_eq!(e.hidden_fn.vis, "");
    assert!(e.hidden_fn.is_async);
    assert_eq!(e.hidden_fn.body, "{ 42 }");

    assert_eq!(e.size_probe.ident, "__internal_foo_sof");
    assert_eq!(e.align_probe.ident, "__internal_foo_aof");
    assert!(matches!(e.size_probe.measure, LayoutKind::Size));
    assert!(matches!(e.align_probe.measure, LayoutKind::Align));

    assert_eq!(e.future_struct.ident, "AnswerFut");
    assert!(e.future_struct.generics.is_empty());
    assert!(!e.future_struct.dummy.unsend_marker);

    assert_eq!(e.new_fn.ident, "foo");
    assert_eq!(e.new_fn.vis, "pub");
    assert_eq!(e.new_fn.ret.ident, "AnswerFut");
    // no generics: the reference must omit the argument list entirely
    assert!(e.new_fn.ret.args.is_none());
    assert_eq!(e.new_fn.hidden_ident, "__internal_foo");
    assert!(e.new_fn.arg_pats.is_empty());

    assert_eq!(e.future_impl.output, "i32");
    assert!(e.future_impl.send_bound);
    assert_eq!(e.future_impl.hidden_ident, "__internal_foo");
}

#[test]
fn unit_return_type_becomes_unit_output() {
    let mut d = plain_decl("tick", true);
    d.output = RetTy::Unit;
    let e = expand_ok(&["TickFut"], &d);
    assert_eq!(e.future_impl.output, "()");
}

#[test]
fn unsend_marker_recognized() {
    let d = plain_decl("foo", true);
    let e = expand_ok(&["FooFut", "(! Send)"], &d);
    assert!(!e.future_impl.send_bound);
    assert!(e.future_struct.dummy.unsend_marker);
}

#[test]
fn second_token_is_read_verbatim() {
    // argument token trees are read one by one; when a separator token stands
    // second, it is the second argument and is not the recognized form
    let d = plain_decl("foo", true);
    let e = expand_ok(&["FooFut", ",", "(! Send)"], &d);
    assert!(e.future_impl.send_bound);
    assert!(!e.future_struct.dummy.unsend_marker);
}

#[test]
fn unrecognized_second_argument_treated_as_absent() {
    let d = plain_decl("foo", true);
    let e = expand_ok(&["FooFut", "(!Sync)"], &d);
    assert!(e.future_impl.send_bound);
    assert!(!e.future_struct.dummy.unsend_marker);
}

fn gp_is_plain(g: &GenericParam, text: &str) -> bool {
    match g {
        GenericParam::Plain(s) => s == text,
        GenericParam::Lifetime(_) => false,
    }
}

fn gp_is_lifetime(g: &GenericParam, text: &str) -> bool {
    match g {
        GenericParam::Lifetime(s) => s == text,
        GenericParam::Plain(_) => false,
    }
}

#[test]
fn generic_propagation_filters_lifetimes() {
    let mut d = plain_decl("pick", true);
    d.generics = vec![
        GenericParam::Lifetime("'a".to_string()),
        GenericParam::Plain("T".to_string()),
    ];
    d.inputs = vec![FnArg::Typed { pat: "x".to_string(), ty: "&'a T".to_string() }];
    d.output = RetTy::Declared("T".to_string());
    let e = expand_ok(&["PickFut"], &d);

    // the synthetic type itself carries the full generic list
    assert_eq!(e.future_struct.generics.len(), 2);
    assert!(gp_is_lifetime(&e.future_struct.generics[0], "'a"));
    assert!(gp_is_plain(&e.future_struct.generics[1], "T"));

    // the type parameter, but not the lifetime, instantiates probes and helper
    assert_eq!(e.future_struct.dummy.probe_args.len(), 1);
    assert!(gp_is_plain(&e.future_struct.dummy.probe_args[0], "T"));
    assert_eq!(e.future_impl.helper_ty_params.len(), 1);
    assert!(gp_is_plain(&e.future_impl.helper_ty_params[0], "T"));

    // the lifetime leads the helper's own generic list instead
    assert_eq!(e.future_impl.helper_lifetimes.len(), 1);
    assert!(gp_is_lifetime(&e.future_impl.helper_lifetimes[0], "'a"));

    // with generics present the return-type reference carries the full list
    match &e.new_fn.ret.args {
        Some(args) => {
            assert_eq!(args.len(), 2);
            assert!(gp_is_lifetime(&args[0], "'a"));
            assert!(gp_is_plain(&args[1], "T"));
        }
        None => panic!("expected generic arguments on the return type"),
    }

    assert_eq!(e.future_impl.arg_tys, vec!["&'a T".to_string()]);
    assert_eq!(e.new_fn.arg_pats, vec!["x".to_string()]);
}

#[test]
fn layout_probes_match_buffer_references() {
    let mut d = plain_decl("job", true);
    d.generics = vec![GenericParam::Plain("A".to_string())];
    d.inputs = vec![
        FnArg::Typed { pat: "a".to_string(), ty: "A".to_string() },
        FnArg::Typed { pat: "n".to_string(), ty: "usize".to_string() },
    ];
    let e = expand_ok(&["JobFut"], &d);

    // the buffer invokes exactly the emitted probes on the hidden function
    assert_eq!(e.future_struct.dummy.size_probe, e.size_probe.ident);
    assert_eq!(e.future_struct.dummy.align_probe, e.align_probe.ident);
    assert_eq!(e.future_struct.dummy.hidden_ident, e.hidden_fn.ident);

    // probes and polling helper are instantiated identically
    assert_eq!(
        e.future_struct.dummy.probe_args.len(),
        e.future_impl.helper_ty_params.len()
    );
    assert!(gp_is_plain(&e.future_struct.dummy.probe_args[0], "A"));
    assert!(gp_is_plain(&e.future_impl.helper_ty_params[0], "A"));
    assert_eq!(e.size_probe.arg_tys, e.future_impl.arg_tys);
    assert_eq!(e.align_probe.arg_tys, e.future_impl.arg_tys);
    assert_eq!(e.size_probe.arg_tys, vec!["A".to_string(), "usize".to_string()]);
}

#[test]
fn drop_impl_mirrors_future_impl() {
    let mut d = plain_decl("hold", true);
    d.generics = vec![
        GenericParam::Lifetime("'a".to_string()),
        GenericParam::Plain("R".to_string()),
    ];
    d.inputs = vec![FnArg::Typed { pat: "r".to_string(), ty: "&'a R".to_string() }];
    let e = expand_ok(&["HoldFut"], &d);

    assert_eq!(e.drop_impl.hidden_ident, e.hidden_fn.ident);
    assert_eq!(e.drop_impl.self_ty.ident, e.future_impl.self_ty.ident);
    assert_eq!(e.drop_impl.arg_tys, e.future_impl.arg_tys);
    assert_eq!(e.drop_impl.generics.len(), e.future_impl.generics.len());
    assert_eq!(
        e.drop_impl.helper_ty_params.len(),
        e.future_impl.helper_ty_params.len()
    );
    assert!(gp_is_plain(&e.drop_impl.helper_ty_params[0], "R"));
    assert!(gp_is_lifetime(&e.drop_impl.helper_lifetimes[0], "'a"));
}

#[test]
fn attributes_and_inputs_carried_onto_new_fn() {
    let mut d = plain_decl("send_all", true);
    d.attrs = vec!["#[inline]".to_string()];
    d.inputs = vec![
        FnArg::Typed { pat: "buf".to_string(), ty: "Vec<u8>".to_string() },
        FnArg::Typed { pat: "n".to_string(), ty: "usize".to_string() },
    ];
    let e = expand_ok(&["SendAllFut"], &d);

    assert_eq!(e.new_fn.attrs, vec!["#[inline]".to_string()]);
    assert_eq!(e.new_fn.inputs.len(), 2);
    assert_eq!(e.new_fn.arg_pats, vec!["buf".to_string(), "n".to_string()]);
    match &e.new_fn.inputs[0] {
        FnArg::Typed { pat, ty } => {
            assert_eq!(pat, "buf");
            assert_eq!(ty, "Vec<u8>");
        }
        FnArg::Receiver => panic!("unexpected receiver"),
    }
    // the hidden function keeps the original parameter list too
    assert_eq!(e.hidden_fn.inputs.len(), 2);
}
