//! The plain-value model of an annotated function declaration: everything the
//! transformation reads out of the source item, with token texts held as
//! strings and a mathematical view for every type.

use vstd::prelude::*;

verus! {

/// One declared generic parameter, distinguishing lifetimes from the rest.
/// The text is the parameter as written, bounds included.
pub enum GenericParam {
    Lifetime(String),
    Plain(String),
}

/// Spec-level counterpart of [`GenericParam`].
#[verifier::ext_equal]
pub enum GenericParamV {
    Lifetime(Seq<char>),
    Plain(Seq<char>),
}

impl View for GenericParam {
    type V = GenericParamV;

    open spec fn view(&self) -> GenericParamV {
        match self {
            GenericParam::Lifetime(s) => GenericParamV::Lifetime(s@),
            GenericParam::Plain(s) => GenericParamV::Plain(s@),
        }
    }
}

impl Clone for GenericParam {
    fn clone(&self) -> (r: Self)
        ensures
            r == *self,
    {
        match self {
            GenericParam::Lifetime(s) => GenericParam::Lifetime(s.clone()),
            GenericParam::Plain(s) => GenericParam::Plain(s.clone()),
        }
    }
}

/// One parameter of the declaration: either a receiver (`self`-style, which
/// the transformation rejects) or a typed binding.
pub enum FnArg {
    Receiver,
    Typed { pat: String, ty: String },
}

/// Spec-level counterpart of [`FnArg`].
#[verifier::ext_equal]
pub enum FnArgV {
    Receiver,
    Typed { pat: Seq<char>, ty: Seq<char> },
}

impl View for FnArg {
    type V = FnArgV;

    open spec fn view(&self) -> FnArgV {
        match self {
            FnArg::Receiver => FnArgV::Receiver,
            FnArg::Typed { pat, ty } => FnArgV::Typed { pat: pat@, ty: ty@ },
        }
    }
}

impl Clone for FnArg {
    fn clone(&self) -> (r: Self)
        ensures
            r == *self,
    {
        match self {
            FnArg::Receiver => FnArg::Receiver,
            FnArg::Typed { pat, ty } => FnArg::Typed { pat: pat.clone(), ty: ty.clone() },
        }
    }
}

/// The declared result type: absent (unit) or a type's token text.
pub enum RetTy {
    Unit,
    Declared(String),
}

/// Spec-level counterpart of [`RetTy`].
#[verifier::ext_equal]
pub enum RetTyV {
    Unit,
    Declared(Seq<char>),
}

impl View for RetTy {
    type V = RetTyV;

    open spec fn view(&self) -> RetTyV {
        match self {
            RetTy::Unit => RetTyV::Unit,
            RetTy::Declared(s) => RetTyV::Declared(s@),
        }
    }
}

impl Clone for RetTy {
    fn clone(&self) -> (r: Self)
        ensures
            r == *self,
    {
        match self {
            RetTy::Unit => RetTy::Unit,
            RetTy::Declared(s) => RetTy::Declared(s.clone()),
        }
    }
}

/// A function declaration as the transformation sees it. Attribute, body and
/// visibility texts are carried through opaquely; the rest is read.
pub struct FnDecl {
    /// Visibility as written; the empty string means inherited (private).
    pub vis: String,
    pub ident: String,
    /// Whether the declaration carries the suspension sugar marker.
    pub is_async: bool,
    pub generics: Vec<GenericParam>,
    pub inputs: Vec<FnArg>,
    pub output: RetTy,
    pub attrs: Vec<String>,
    /// The body's token text, never inspected.
    pub body: String,
}

/// Spec-level counterpart of [`FnDecl`].
#[verifier::ext_equal]
pub struct FnDeclV {
    pub vis: Seq<char>,
    pub ident: Seq<char>,
    pub is_async: bool,
    pub generics: Seq<GenericParamV>,
    pub inputs: Seq<FnArgV>,
    pub output: RetTyV,
    pub attrs: Seq<Seq<char>>,
    pub body: Seq<char>,
}

/// The views of a sequence of strings.
pub open spec fn seq_str_view(s: Seq<String>) -> Seq<Seq<char>> {
    s.map_values(|x: String| x@)
}

/// The views of a sequence of generic parameters.
pub open spec fn seq_gp_view(s: Seq<GenericParam>) -> Seq<GenericParamV> {
    s.map_values(|x: GenericParam| x@)
}

/// The views of a sequence of parameters.
pub open spec fn seq_arg_view(s: Seq<FnArg>) -> Seq<FnArgV> {
    s.map_values(|x: FnArg| x@)
}

impl View for FnDecl {
    type V = FnDeclV;

    open spec fn view(&self) -> FnDeclV {
        FnDeclV {
            vis: self.vis@,
            ident: self.ident@,
            is_async: self.is_async,
            generics: seq_gp_view(self.generics@),
            inputs: seq_arg_view(self.inputs@),
            output: self.output@,
            attrs: seq_str_view(self.attrs@),
            body: self.body@,
        }
    }
}

/// Whether any parameter is a receiver.
pub open spec fn spec_has_receiver(inputs: Seq<FnArgV>) -> bool {
    exists|i: int| 0 <= i < inputs.len() && inputs[i] is Receiver
}

/// The type text of a typed parameter; the empty text for a receiver
/// (receivers are rejected before this is ever relied upon).
pub open spec fn arg_ty_text(a: FnArgV) -> Seq<char> {
    match a {
        FnArgV::Receiver => Seq::empty(),
        FnArgV::Typed { pat: _, ty } => ty,
    }
}

/// The binding-pattern text of a typed parameter; empty for a receiver.
pub open spec fn arg_pat_text(a: FnArgV) -> Seq<char> {
    match a {
        FnArgV::Receiver => Seq::empty(),
        FnArgV::Typed { pat, ty: _ } => pat,
    }
}

/// The ordered parameter type texts of a declaration.
pub open spec fn spec_arg_tys(inputs: Seq<FnArgV>) -> Seq<Seq<char>> {
    inputs.map_values(|a: FnArgV| arg_ty_text(a))
}

/// The ordered parameter binding texts of a declaration.
pub open spec fn spec_arg_pats(inputs: Seq<FnArgV>) -> Seq<Seq<char>> {
    inputs.map_values(|a: FnArgV| arg_pat_text(a))
}

/// The result type's token text, with `()` standing in when none is declared.
pub open spec fn ret_ty_text(o: RetTyV) -> Seq<char> {
    match o {
        RetTyV::Unit => "()"@,
        RetTyV::Declared(t) => t,
    }
}

/// The non-lifetime generic parameters, order preserved.
pub open spec fn non_lifetime_view(gs: Seq<GenericParamV>) -> Seq<GenericParamV> {
    gs.filter(|g: GenericParamV| !(g is Lifetime))
}

/// The lifetime generic parameters, order preserved.
pub open spec fn lifetime_view(gs: Seq<GenericParamV>) -> Seq<GenericParamV> {
    gs.filter(|g: GenericParamV| g is Lifetime)
}

/// How [`non_lifetime_view`] grows when one parameter is appended.
pub proof fn lemma_non_lifetime_push(s: Seq<GenericParamV>, x: GenericParamV)
    ensures
        (x is Lifetime) ==> non_lifetime_view(s.push(x)) == non_lifetime_view(s),
        !(x is Lifetime) ==> non_lifetime_view(s.push(x)) == non_lifetime_view(s).push(x),
{
    reveal_with_fuel(Seq::filter, 2);
    assert(s.push(x).drop_last() =~= s);
    assert(s.push(x).last() == x);
}

/// How [`lifetime_view`] grows when one parameter is appended.
pub proof fn lemma_lifetime_push(s: Seq<GenericParamV>, x: GenericParamV)
    ensures
        !(x is Lifetime) ==> lifetime_view(s.push(x)) == lifetime_view(s),
        (x is Lifetime) ==> lifetime_view(s.push(x)) == lifetime_view(s).push(x),
{
    reveal_with_fuel(Seq::filter, 2);
    assert(s.push(x).drop_last() =~= s);
    assert(s.push(x).last() == x);
}

/// An element-for-element copy of a generic parameter list.
pub fn copy_generics(v: &Vec<GenericParam>) -> (r: Vec<GenericParam>)
    ensures
        r@ == v@,
{
    let mut out: Vec<GenericParam> = Vec::new();
    let mut i: usize = 0;
    while i < v.len()
        invariant
            i <= v.len(),
            out@.len() == i,
            forall|j: int| 0 <= j < i ==> out@[j] == v@[j],
        decreases v.len() - i,
    {
        out.push(v[i].clone());
        i += 1;
    }
    proof {
        assert(out@ =~= v@);
    }
    out
}

/// An element-for-element copy of a parameter list.
pub fn copy_args(v: &Vec<FnArg>) -> (r: Vec<FnArg>)
    ensures
        r@ == v@,
{
    let mut out: Vec<FnArg> = Vec::new();
    let mut i: usize = 0;
    while i < v.len()
        invariant
            i <= v.len(),
            out@.len() == i,
            forall|j: int| 0 <= j < i ==> out@[j] == v@[j],
        decreases v.len() - i,
    {
        out.push(v[i].clone());
        i += 1;
    }
    proof {
        assert(out@ =~= v@);
    }
    out
}

/// An element-for-element copy of a list of token texts.
pub fn copy_strings(v: &Vec<String>) -> (r: Vec<String>)
    ensures
        r@ == v@,
{
    let mut out: Vec<String> = Vec::new();
    let mut i: usize = 0;
    while i < v.len()
        invariant
            i <= v.len(),
            out@.len() == i,
            forall|j: int| 0 <= j < i ==> out@[j] == v@[j],
        decreases v.len() - i,
    {
        out.push(v[i].clone());
        i += 1;
    }
    proof {
        assert(out@ =~= v@);
    }
    out
}

impl Clone for FnDecl {
    fn clone(&self) -> (r: Self)
        ensures
            r@ == self@,
    {
        FnDecl {
            vis: self.vis.clone(),
            ident: self.ident.clone(),
            is_async: self.is_async,
            generics: copy_generics(&self.generics),
            inputs: copy_args(&self.inputs),
            output: self.output.clone(),
            attrs: copy_strings(&self.attrs),
            body: self.body.clone(),
        }
    }
}

} // verus!
