//! The textual form of a declaration: its tokens in order, one blank between
//! two of them.
//!
//! The parts that the pipeline only carries along (a type, an attribute, the
//! statements of a body) are text already, as the parser printed them. Here
//! they are put in their places between the parts that the pipeline works on.

use crate::declaration::{
    param_views, Declaration, DeclarationView, Param, ParamView, Signature, SignatureView,
};
use crate::syntax::{attribute_views, Attribute, AttributeView, Pattern, PatternView};
use crate::text::{push_token, spaced};
use vstd::prelude::*;

verus! {

/// `word` where `on` holds, nothing otherwise.
pub open spec fn flag(on: bool, word: Seq<char>) -> Seq<char> {
    if on {
        word
    } else {
        Seq::empty()
    }
}

/// A pattern as text: `ref`, `mut`, the name, then `@` and the pattern behind it.
pub open spec fn pattern_text(p: PatternView) -> Seq<char> {
    match p {
        PatternView::Ident { by_ref, mutable, name, subpattern } => {
            let head = spaced(spaced(flag(by_ref, "ref"@), flag(mutable, "mut"@)), name);
            if subpattern.len() == 0 {
                head
            } else {
                spaced(spaced(head, "@"@), subpattern)
            }
        },
        PatternView::Other { text } => text,
    }
}

/// A parameter as text: attributes, pattern, `:` and type; a receiver as it was written.
pub open spec fn param_text(p: ParamView) -> Seq<char> {
    match p {
        ParamView::Receiver { text } => text,
        ParamView::Typed { attrs, pattern, ty } => spaced(
            spaced(spaced(attrs, pattern_text(pattern)), ":"@),
            ty,
        ),
    }
}

/// The parameters as text, a comma between two of them and none at the end.
pub open spec fn params_text(ps: Seq<ParamView>) -> Seq<char>
    decreases ps.len(),
{
    if ps.len() == 0 {
        Seq::empty()
    } else if ps.len() == 1 {
        param_text(ps[0])
    } else {
        spaced(spaced(params_text(ps.drop_last()), ","@), param_text(ps.last()))
    }
}

/// A signature as text, from its qualifiers to its `where` clause.
pub open spec fn signature_text(s: SignatureView) -> Seq<char> {
    let t = flag(s.constness, "const"@);
    let t = spaced(t, flag(s.asyncness, "async"@));
    let t = spaced(t, flag(s.unsafety, "unsafe"@));
    let t = spaced(t, s.abi);
    let t = spaced(t, "fn"@);
    let t = spaced(t, s.ident);
    let t = spaced(t, s.generics);
    let t = spaced(t, "("@);
    let t = spaced(t, params_text(s.params));
    let t = if s.variadic.len() > 0 && s.params.len() > 0 {
        spaced(t, ","@)
    } else {
        t
    };
    let t = spaced(t, s.variadic);
    let t = spaced(t, ")"@);
    let t = spaced(t, s.output);
    spaced(t, s.where_clause)
}

/// The attributes written inside the item (`inner`) or before it, as text.
pub open spec fn attrs_text(attrs: Seq<AttributeView>, inner: bool) -> Seq<char>
    decreases attrs.len(),
{
    if attrs.len() == 0 {
        Seq::empty()
    } else {
        let rest = attrs_text(attrs.drop_last(), inner);
        if attrs.last().inner == inner {
            spaced(rest, attrs.last().text)
        } else {
            rest
        }
    }
}

/// A declaration as text: outer attributes, visibility, signature, then `;`
/// or the braces around inner attributes and statements.
pub open spec fn declaration_text(d: DeclarationView) -> Seq<char> {
    let t = spaced(spaced(attrs_text(d.attrs, false), d.vis), signature_text(d.sig));
    match d.body {
        None => spaced(t, ";"@),
        Some(statements) => spaced(
            spaced(spaced(spaced(t, "{"@), attrs_text(d.attrs, true)), statements),
            "}"@,
        ),
    }
}

/// Prints a pattern.
pub fn render_pattern(p: &Pattern) -> (out: String)
    ensures
        out@ == pattern_text(p@),
{
    match p {
        Pattern::Ident { by_ref, mutable, name, subpattern } => {
            let mut out = String::new();
            if *by_ref {
                push_token(&mut out, "ref");
            }
            if *mutable {
                push_token(&mut out, "mut");
            }
            push_token(&mut out, name.as_str());
            if !subpattern.as_str().is_empty() {
                push_token(&mut out, "@");
                push_token(&mut out, subpattern.as_str());
            }
            out
        },
        Pattern::Other { text } => text.clone(),
    }
}

/// Prints a parameter.
pub fn render_param(p: &Param) -> (out: String)
    ensures
        out@ == param_text(p@),
{
    match p {
        Param::Receiver { text } => text.clone(),
        Param::Typed { attrs, pattern, ty } => {
            let mut out = attrs.clone();
            let pat = render_pattern(pattern);
            push_token(&mut out, pat.as_str());
            push_token(&mut out, ":");
            push_token(&mut out, ty.as_str());
            out
        },
    }
}

/// Prints a list of parameters.
pub fn render_params(params: &Vec<Param>) -> (out: String)
    ensures
        out@ == params_text(param_views(params@)),
{
    let ghost views = param_views(params@);
    let mut out = String::new();
    let mut i: usize = 0;
    while i < params.len()
        invariant
            i <= params.len(),
            views == param_views(params@),
            out@ == params_text(views.take(i as int)),
        decreases params.len() - i,
    {
        let piece = render_param(&params[i]);
        if i > 0 {
            push_token(&mut out, ",");
        }
        push_token(&mut out, piece.as_str());
        proof {
            let next = views.take(i + 1);
            assert(next.drop_last() =~= views.take(i as int));
            assert(next.last() == params[i as int]@);
            if i == 0 {
                assert(views.take(0).len() == 0);
            }
        }
        i += 1;
    }
    assert(views.take(i as int) =~= views);
    out
}

/// Prints a signature.
pub fn render_signature(sig: &Signature) -> (out: String)
    ensures
        out@ == signature_text(sig@),
{
    let mut out = String::new();
    if sig.constness {
        push_token(&mut out, "const");
    }
    if sig.asyncness {
        push_token(&mut out, "async");
    }
    if sig.unsafety {
        push_token(&mut out, "unsafe");
    }
    push_token(&mut out, sig.abi.as_str());
    push_token(&mut out, "fn");
    push_token(&mut out, sig.ident.as_str());
    push_token(&mut out, sig.generics.as_str());
    push_token(&mut out, "(");
    let params = render_params(&sig.params);
    push_token(&mut out, params.as_str());
    if !sig.variadic.as_str().is_empty() && sig.params.len() > 0 {
        push_token(&mut out, ",");
    }
    push_token(&mut out, sig.variadic.as_str());
    push_token(&mut out, ")");
    push_token(&mut out, sig.output.as_str());
    push_token(&mut out, sig.where_clause.as_str());
    out
}

/// Prints the attributes of one kind, inner or outer, in order.
pub fn render_attrs(attrs: &Vec<Attribute>, inner: bool) -> (out: String)
    ensures
        out@ == attrs_text(attribute_views(attrs@), inner),
{
    let ghost views = attribute_views(attrs@);
    let mut out = String::new();
    let mut i: usize = 0;
    while i < attrs.len()
        invariant
            i <= attrs.len(),
            views == attribute_views(attrs@),
            out@ == attrs_text(views.take(i as int), inner),
        decreases attrs.len() - i,
    {
        if attrs[i].inner == inner {
            push_token(&mut out, attrs[i].text.as_str());
        }
        proof {
            let next = views.take(i + 1);
            assert(next.drop_last() =~= views.take(i as int));
            assert(next.last() == attrs[i as int]@);
        }
        i += 1;
    }
    assert(views.take(i as int) =~= views);
    out
}

/// Prints a declaration.
pub fn render_declaration(decl: &Declaration) -> (out: String)
    ensures
        out@ == declaration_text(decl@),
{
    let mut out = render_attrs(&decl.attrs, false);
    push_token(&mut out, decl.vis.as_str());
    let sig = render_signature(&decl.sig);
    push_token(&mut out, sig.as_str());
    match &decl.body {
        None => {
            push_token(&mut out, ";");
        },
        Some(statements) => {
            push_token(&mut out, "{");
            let inner = render_attrs(&decl.attrs, true);
            push_token(&mut out, inner.as_str());
            push_token(&mut out, statements.as_str());
            push_token(&mut out, "}");
        },
    }
    out
}

} // verus!
