//! A handler declaration as the pipeline sees it: attributes, visibility, a
//! signature with its parameters told apart, and a body.

use crate::syntax::{
    attribute_views, fn_item_parts, param_parts, pattern_parts, signature_frame, split_fn_item,
    split_param, split_pattern, split_signature, split_trait_fn, text_views, trait_fn_parts,
    Attribute, AttributeView, ItemParts, ItemPartsView, Pattern, PatternView, RawParam,
    RawParamView,
};
use vstd::prelude::*;

verus! {

/// One parameter of a signature.
#[derive(Clone, Debug, PartialEq, Eq)]
pub enum Param {
    /// A `self` parameter, printed as it was written.
    Receiver { text: String },
    /// A parameter with a pattern and a type.
    Typed { attrs: String, pattern: Pattern, ty: String },
}

pub enum ParamView {
    Receiver { text: Seq<char> },
    Typed { attrs: Seq<char>, pattern: PatternView, ty: Seq<char> },
}

impl View for Param {
    type V = ParamView;

    open spec fn view(&self) -> ParamView {
        match self {
            Param::Receiver { text } => ParamView::Receiver { text: text@ },
            Param::Typed { attrs, pattern, ty } => ParamView::Typed {
                attrs: attrs@,
                pattern: pattern@,
                ty: ty@,
            },
        }
    }
}

/// The views of a vector of parameters, in order.
pub open spec fn param_views(params: Seq<Param>) -> Seq<ParamView> {
    Seq::new(params.len(), |i: int| params[i]@)
}

/// The signature of a function.
#[derive(Clone, Debug, PartialEq, Eq)]
pub struct Signature {
    pub constness: bool,
    pub asyncness: bool,
    pub unsafety: bool,
    /// `extern "C"` and the like, empty where there is none.
    pub abi: String,
    pub ident: String,
    /// The generic parameters with their angle brackets, or empty.
    pub generics: String,
    pub params: Vec<Param>,
    /// The variadic argument `...`, or empty.
    pub variadic: String,
    /// `->` and the return type, or empty.
    pub output: String,
    pub where_clause: String,
}

pub struct SignatureView {
    pub constness: bool,
    pub asyncness: bool,
    pub unsafety: bool,
    pub abi: Seq<char>,
    pub ident: Seq<char>,
    pub generics: Seq<char>,
    pub params: Seq<ParamView>,
    pub variadic: Seq<char>,
    pub output: Seq<char>,
    pub where_clause: Seq<char>,
}

impl View for Signature {
    type V = SignatureView;

    open spec fn view(&self) -> SignatureView {
        SignatureView {
            constness: self.constness,
            asyncness: self.asyncness,
            unsafety: self.unsafety,
            abi: self.abi@,
            ident: self.ident@,
            generics: self.generics@,
            params: param_views(self.params@),
            variadic: self.variadic@,
            output: self.output@,
            where_clause: self.where_clause@,
        }
    }
}

/// A function declaration: a handler, or the method that handlers must match.
#[derive(Clone, Debug, PartialEq, Eq)]
pub struct Declaration {
    pub attrs: Vec<Attribute>,
    /// The visibility qualifier, empty where the declaration has none.
    pub vis: String,
    pub sig: Signature,
    /// The statements between the braces; `None` where `;` stands for the body.
    pub body: Option<String>,
}

pub struct DeclarationView {
    pub attrs: Seq<AttributeView>,
    pub vis: Seq<char>,
    pub sig: SignatureView,
    pub body: Option<Seq<char>>,
}

impl View for Declaration {
    type V = DeclarationView;

    open spec fn view(&self) -> DeclarationView {
        DeclarationView {
            attrs: attribute_views(self.attrs@),
            vis: self.vis@,
            sig: self.sig@,
            body: match self.body {
                Some(b) => Some(b@),
                None => None,
            },
        }
    }
}

/// What one printed parameter stands for: its parts, and for a typed
/// parameter the parts of its pattern. `None` where either does not parse.
pub open spec fn param_model(text: Seq<char>) -> Option<ParamView> {
    match param_parts(text) {
        None => None,
        Some(RawParamView::Receiver { text }) => Some(ParamView::Receiver { text }),
        Some(RawParamView::Typed { attrs, pattern, ty }) => match pattern_parts(pattern) {
            None => None,
            Some(p) => Some(ParamView::Typed { attrs, pattern: p, ty }),
        },
    }
}

/// The parameters that a list of printed parameters stands for; `None` where
/// one of them does not parse.
pub open spec fn params_model(texts: Seq<Seq<char>>) -> Option<Seq<ParamView>> {
    if forall|i: int| 0 <= i < texts.len() ==> (#[trigger] param_model(texts[i])) is Some {
        Some(Seq::new(texts.len(), |i: int| param_model(texts[i]).unwrap()))
    } else {
        None
    }
}

/// The signature that `text` stands for; `None` where it does not parse.
pub open spec fn signature_model(text: Seq<char>) -> Option<SignatureView> {
    match signature_frame(text) {
        None => None,
        Some(frame) => match params_model(frame.params) {
            None => None,
            Some(params) => Some(
                SignatureView {
                    constness: frame.constness,
                    asyncness: frame.asyncness,
                    unsafety: frame.unsafety,
                    abi: frame.abi,
                    ident: frame.ident,
                    generics: frame.generics,
                    params,
                    variadic: frame.variadic,
                    output: frame.output,
                    where_clause: frame.where_clause,
                },
            ),
        },
    }
}

/// The declaration that the parts of an item stand for; `None` where the
/// item or its signature does not parse.
pub open spec fn declaration_model(parts: Option<ItemPartsView>) -> Option<DeclarationView> {
    match parts {
        None => None,
        Some(parts) => match signature_model(parts.signature) {
            None => None,
            Some(sig) => Some(
                DeclarationView { attrs: parts.attrs, vis: parts.vis, sig, body: parts.body },
            ),
        },
    }
}

/// The declaration that `text` stands for, read as a free function with a body.
pub open spec fn handler_model(text: Seq<char>) -> Option<DeclarationView> {
    declaration_model(fn_item_parts(text))
}

/// The declaration that `text` stands for, read as a method of a trait.
pub open spec fn interface_model(text: Seq<char>) -> Option<DeclarationView> {
    declaration_model(trait_fn_parts(text))
}

/// The view of an optional declaration.
pub open spec fn declaration_view(d: Option<Declaration>) -> Option<DeclarationView> {
    match d {
        Some(d) => Some(d@),
        None => None,
    }
}

/// Reads one printed parameter.
pub fn parse_param(text: &str) -> (r: Option<Param>)
    ensures
        match r {
            Some(p) => param_model(text@) == Some(p@),
            None => param_model(text@) is None,
        },
{
    match split_param(text) {
        Err(_) => None,
        Ok(RawParam::Receiver { text }) => Some(Param::Receiver { text }),
        Ok(RawParam::Typed { attrs, pattern, ty }) => match split_pattern(pattern.as_str()) {
            Err(_) => None,
            Ok(p) => Some(Param::Typed { attrs, pattern: p, ty }),
        },
    }
}

/// Reads a signature, parameter by parameter.
pub fn parse_signature(text: &str) -> (r: Option<Signature>)
    ensures
        match r {
            Some(sig) => signature_model(text@) == Some(sig@),
            None => signature_model(text@) is None,
        },
{
    let frame = match split_signature(text) {
        Err(_) => {
            return None;
        },
        Ok(frame) => frame,
    };
    let ghost texts = text_views(frame.params@);
    let mut params: Vec<Param> = Vec::new();
    let mut i: usize = 0;
    while i < frame.params.len()
        invariant
            i <= frame.params.len(),
            texts == text_views(frame.params@),
            signature_frame(text@) == Some(frame@),
            params.len() == i,
            forall|j: int| 0 <= j < i ==> #[trigger] param_model(texts[j]) == Some(params[j]@),
        decreases frame.params.len() - i,
    {
        match parse_param(frame.params[i].as_str()) {
            None => {
                assert(texts[i as int] == frame.params[i as int]@);
                assert(param_model(texts[i as int]) is None);
                return None;
            },
            Some(p) => {
                assert(texts[i as int] == frame.params[i as int]@);
                params.push(p);
            },
        }
        i += 1;
    }
    assert(params_model(texts) is Some);
    assert(param_views(params@) =~= params_model(texts).unwrap());
    Some(
        Signature {
            constness: frame.constness,
            asyncness: frame.asyncness,
            unsafety: frame.unsafety,
            abi: frame.abi,
            ident: frame.ident,
            generics: frame.generics,
            params,
            variadic: frame.variadic,
            output: frame.output,
            where_clause: frame.where_clause,
        },
    )
}

/// Puts the parts of an item together with its parsed signature.
fn assemble(parts: ItemParts) -> (r: Option<Declaration>)
    ensures
        declaration_view(r) == declaration_model(Some(parts@)),
{
    match parse_signature(parts.signature.as_str()) {
        None => None,
        Some(sig) => Some(Declaration { attrs: parts.attrs, vis: parts.vis, sig, body: parts.body }),
    }
}

/// Reads a handler: a free function with a body.
pub fn parse_handler(text: &str) -> (r: Option<Declaration>)
    ensures
        declaration_view(r) == handler_model(text@),
{
    match split_fn_item(text) {
        Err(_) => None,
        Ok(parts) => assemble(parts),
    }
}

/// Reads the method of a trait that handlers must match, with a body or with `;`.
pub fn parse_interface_method(text: &str) -> (r: Option<Declaration>)
    ensures
        declaration_view(r) == interface_model(text@),
{
    match split_trait_fn(text) {
        Err(_) => None,
        Ok(parts) => assemble(parts),
    }
}

} // verus!
