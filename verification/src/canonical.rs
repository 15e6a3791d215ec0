//! The canonical form of a signature, by which a handler is held against the
//! interface: every name replaced by one placeholder, nothing else changed.

use crate::declaration::{
    param_views, Declaration, DeclarationView, Param, ParamView, Signature, SignatureView,
};
use crate::render::{declaration_text, render_declaration, render_signature, signature_text};
use crate::syntax::{Pattern, PatternView};
use crate::text::{push_token, spaced};
use vstd::prelude::*;
use vstd::string::StringExecFns;

verus! {

/// The name that stands for every identifier in a canonical signature.
pub open spec fn placeholder() -> Seq<char> {
    "_"@
}

/// The parameter that stands for the command itself.
pub open spec fn receiver() -> ParamView {
    ParamView::Receiver { text: "& self"@ }
}

/// The pattern with the placeholder for its name, where it has one.
pub open spec fn erase_pattern_name(p: PatternView) -> PatternView {
    match p {
        PatternView::Ident { by_ref, mutable, name, subpattern } => PatternView::Ident {
            by_ref,
            mutable,
            name: placeholder(),
            subpattern,
        },
        PatternView::Other { text } => p,
    }
}

/// The parameter with the placeholder for its name, where it has one.
pub open spec fn erase_param_name(p: ParamView) -> ParamView {
    match p {
        ParamView::Receiver { text } => p,
        ParamView::Typed { attrs, pattern, ty } => ParamView::Typed {
            attrs,
            pattern: erase_pattern_name(pattern),
            ty,
        },
    }
}

/// The signature with the placeholder for its own name and for the name of
/// every parameter; types, order and everything else stay.
pub open spec fn erase_names(s: SignatureView) -> SignatureView {
    SignatureView {
        ident: placeholder(),
        params: Seq::new(s.params.len(), |i: int| erase_param_name(s.params[i])),
        ..s
    }
}

/// The signature with the receiver put before its parameters.
pub open spec fn with_receiver(s: SignatureView) -> SignatureView {
    SignatureView { params: seq![receiver()] + s.params, ..s }
}

/// The signature as it is compared: with the receiver first where `receiver`
/// asks for it, as it stands where the source declares the receiver itself.
pub open spec fn compared_signature(s: SignatureView, receiver: bool) -> SignatureView {
    if receiver {
        with_receiver(s)
    } else {
        s
    }
}

/// The canonical signature of a declaration: attributes, visibility and body
/// left out, the receiver put first where `receiver` asks for it, names
/// erased, printed and closed with `;`.
pub open spec fn canonical_signature(d: DeclarationView, receiver: bool) -> Seq<char> {
    spaced(signature_text(erase_names(compared_signature(d.sig, receiver))), ";"@)
}

/// What is recorded of the interface: the declaration without attributes and
/// visibility, its names erased, printed with its body or `;`.
pub open spec fn interface_text(d: DeclarationView) -> Seq<char> {
    declaration_text(
        DeclarationView {
            attrs: Seq::empty(),
            vis: Seq::empty(),
            sig: erase_names(d.sig),
            body: d.body,
        },
    )
}

/// The declaration as a method: the receiver put before its parameters.
pub open spec fn as_method(d: DeclarationView) -> DeclarationView {
    DeclarationView { sig: with_receiver(d.sig), ..d }
}

/// Two parameters that differ at most in the identifier that binds them.
pub open spec fn same_param_shape(a: ParamView, b: ParamView) -> bool {
    match (a, b) {
        (
            ParamView::Typed {
                attrs: a_attrs,
                pattern: PatternView::Ident {
                    by_ref: a_ref,
                    mutable: a_mut,
                    name: _,
                    subpattern: a_sub,
                },
                ty: a_ty,
            },
            ParamView::Typed {
                attrs: b_attrs,
                pattern: PatternView::Ident {
                    by_ref: b_ref,
                    mutable: b_mut,
                    name: _,
                    subpattern: b_sub,
                },
                ty: b_ty,
            },
        ) => a_attrs == b_attrs && a_ref == b_ref && a_mut == b_mut && a_sub == b_sub && a_ty
            == b_ty,
        _ => a == b,
    }
}

/// Two signatures that differ at most in their own name and in the
/// identifiers that bind their parameters.
pub open spec fn same_shape(a: SignatureView, b: SignatureView) -> bool {
    &&& a.constness == b.constness
    &&& a.asyncness == b.asyncness
    &&& a.unsafety == b.unsafety
    &&& a.abi == b.abi
    &&& a.generics == b.generics
    &&& a.params.len() == b.params.len()
    &&& forall|i: int| 0 <= i < a.params.len() ==> same_param_shape(a.params[i], b.params[i])
    &&& a.variadic == b.variadic
    &&& a.output == b.output
    &&& a.where_clause == b.where_clause
}

/// Canonicalization does not see names: two declarations whose signatures
/// differ only in the name of the function and in the names of parameters
/// have the same canonical signature, whatever their attributes, visibility
/// and bodies are.
pub proof fn canonical_ignores_names(a: DeclarationView, b: DeclarationView, receiver: bool)
    requires
        same_shape(a.sig, b.sig),
    ensures
        canonical_signature(a, receiver) == canonical_signature(b, receiver),
{
    let sa = compared_signature(a.sig, receiver);
    let sb = compared_signature(b.sig, receiver);
    assert(same_shape(sa, sb));
    assert(erase_names(sa).params =~= erase_names(sb).params);
}

/// Canonicalization yields one text for one declaration, and the interface
/// is recorded in the form that a handler without parameter names of its own
/// is held against: where the method is written with `;` and declares the
/// receiver itself, its record is its canonical signature.
pub proof fn interface_record_is_canonical(d: DeclarationView)
    requires
        d.body is None,
    ensures
        interface_text(d) == canonical_signature(d, false),
{
    assert(crate::render::attrs_text(Seq::empty(), false) == Seq::<char>::empty());
}

/// The pattern with the placeholder for its name, where it has one.
fn erased_pattern(p: &Pattern) -> (r: Pattern)
    ensures
        r@ == erase_pattern_name(p@),
{
    match p {
        Pattern::Ident { by_ref, mutable, name, subpattern } => Pattern::Ident {
            by_ref: *by_ref,
            mutable: *mutable,
            name: String::from_str("_"),
            subpattern: subpattern.clone(),
        },
        Pattern::Other { text } => Pattern::Other { text: text.clone() },
    }
}

/// The parameter with the placeholder for its name, where it has one.
fn erased_param(p: &Param) -> (r: Param)
    ensures
        r@ == erase_param_name(p@),
{
    match p {
        Param::Receiver { text } => Param::Receiver { text: text.clone() },
        Param::Typed { attrs, pattern, ty } => Param::Typed {
            attrs: attrs.clone(),
            pattern: erased_pattern(pattern),
            ty: ty.clone(),
        },
    }
}

/// The signature with its names erased, the receiver put first where asked.
fn erased_signature(sig: &Signature, receiver: bool) -> (r: Signature)
    ensures
        r@ == erase_names(compared_signature(sig@, receiver)),
{
    let ghost source = compared_signature(sig@, receiver).params;
    let mut params: Vec<Param> = Vec::new();
    if receiver {
        params.push(Param::Receiver { text: String::from_str("& self") });
    }
    let ghost lead: int = if receiver {
        1
    } else {
        0
    };
    let mut i: usize = 0;
    while i < sig.params.len()
        invariant
            i <= sig.params.len(),
            receiver ==> lead == 1,
            !receiver ==> lead == 0,
            source == compared_signature(sig@, receiver).params,
            params.len() == lead + i,
            forall|j: int| 0 <= j < params.len() ==> (#[trigger] params[j])@ == erase_param_name(source[j]),
        decreases sig.params.len() - i,
    {
        let p = erased_param(&sig.params[i]);
        assert(source[lead + i] == sig.params[i as int]@);
        params.push(p);
        i += 1;
    }
    let r = Signature {
        constness: sig.constness,
        asyncness: sig.asyncness,
        unsafety: sig.unsafety,
        abi: sig.abi.clone(),
        ident: String::from_str("_"),
        generics: sig.generics.clone(),
        params,
        variadic: sig.variadic.clone(),
        output: sig.output.clone(),
        where_clause: sig.where_clause.clone(),
    };
    assert(r@.params =~= Seq::new(source.len(), |i: int| erase_param_name(source[i])));
    r
}

/// Prints the canonical signature of a declaration.
pub fn render_canonical(decl: &Declaration, receiver: bool) -> (out: String)
    ensures
        out@ == canonical_signature(decl@, receiver),
{
    let sig = erased_signature(&decl.sig, receiver);
    let mut out = render_signature(&sig);
    push_token(&mut out, ";");
    out
}

/// Prints what is recorded of the interface.
pub fn render_interface(decl: &Declaration) -> (out: String)
    ensures
        out@ == interface_text(decl@),
{
    let shown = Declaration {
        attrs: Vec::new(),
        vis: String::new(),
        sig: erased_signature(&decl.sig, false),
        body: decl.body.clone(),
    };
    assert(shown@.attrs =~= Seq::empty());
    render_declaration(&shown)
}

/// Puts the receiver before the parameters of a declaration.
pub fn insert_receiver(decl: Declaration) -> (r: Declaration)
    ensures
        r@ == as_method(decl@),
{
    let mut decl = decl;
    let ghost before = param_views(decl.sig.params@);
    decl.sig.params.insert(0, Param::Receiver { text: String::from_str("& self") });
    assert(param_views(decl.sig.params@) =~= seq![receiver()] + before);
    decl
}

} // verus!
