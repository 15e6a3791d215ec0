//! The boundary to the Rust grammar: what `syn` makes of a piece of source
//! text, handed over as plain values.
//!
//! Nothing here is proved. Each function parses its argument with `syn` and
//! moves the fields of the syntax tree into the library's own types, every
//! part printed with `quote` where the library only carries it along.

use quote::ToTokens;
use vstd::prelude::*;

verus! {

#[verifier::external_type_specification]
#[verifier::external_body]
pub struct ExSynError(syn::Error);

/// One attribute, as its printed tokens.
#[derive(Clone, Debug, PartialEq, Eq)]
pub struct Attribute {
    /// Whether the attribute is written inside the item it belongs to (`#![..]`).
    pub inner: bool,
    pub text: String,
}

pub struct AttributeView {
    pub inner: bool,
    pub text: Seq<char>,
}

impl View for Attribute {
    type V = AttributeView;

    open spec fn view(&self) -> AttributeView {
        AttributeView { inner: self.inner, text: self.text@ }
    }
}

/// The views of a vector of attributes, in order.
pub open spec fn attribute_views(attrs: Seq<Attribute>) -> Seq<AttributeView> {
    Seq::new(attrs.len(), |i: int| attrs[i]@)
}

/// The pattern that binds a parameter.
#[derive(Clone, Debug, PartialEq, Eq)]
pub enum Pattern {
    /// A plain identifier, such as `n`, `mut n` or `ref n @ 1..=9`.
    Ident {
        by_ref: bool,
        mutable: bool,
        name: String,
        /// The pattern behind `@`, empty where there is none.
        subpattern: String,
    },
    /// Any other pattern, such as `(a, b)` or `_`, printed as it was written.
    Other { text: String },
}

pub enum PatternView {
    Ident { by_ref: bool, mutable: bool, name: Seq<char>, subpattern: Seq<char> },
    Other { text: Seq<char> },
}

impl View for Pattern {
    type V = PatternView;

    open spec fn view(&self) -> PatternView {
        match self {
            Pattern::Ident { by_ref, mutable, name, subpattern } => PatternView::Ident {
                by_ref: *by_ref,
                mutable: *mutable,
                name: name@,
                subpattern: subpattern@,
            },
            Pattern::Other { text } => PatternView::Other { text: text@ },
        }
    }
}

/// One parameter of a signature, its pattern still text.
#[derive(Clone, Debug, PartialEq, Eq)]
pub enum RawParam {
    /// A `self` parameter, printed as it was written.
    Receiver { text: String },
    /// A parameter with a pattern and a type.
    Typed { attrs: String, pattern: String, ty: String },
}

pub enum RawParamView {
    Receiver { text: Seq<char> },
    Typed { attrs: Seq<char>, pattern: Seq<char>, ty: Seq<char> },
}

impl View for RawParam {
    type V = RawParamView;

    open spec fn view(&self) -> RawParamView {
        match self {
            RawParam::Receiver { text } => RawParamView::Receiver { text: text@ },
            RawParam::Typed { attrs, pattern, ty } => RawParamView::Typed {
                attrs: attrs@,
                pattern: pattern@,
                ty: ty@,
            },
        }
    }
}

/// The views of a vector of strings, in order.
pub open spec fn text_views(texts: Seq<String>) -> Seq<Seq<char>> {
    Seq::new(texts.len(), |i: int| texts[i]@)
}

/// A function item cut into its four parts. The signature is still text.
#[derive(Clone, Debug, PartialEq, Eq)]
pub struct ItemParts {
    pub attrs: Vec<Attribute>,
    /// The visibility qualifier, empty where the item has none.
    pub vis: String,
    pub signature: String,
    /// The statements between the braces; `None` where `;` stands for the body.
    pub body: Option<String>,
}

pub struct ItemPartsView {
    pub attrs: Seq<AttributeView>,
    pub vis: Seq<char>,
    pub signature: Seq<char>,
    pub body: Option<Seq<char>>,
}

impl View for ItemParts {
    type V = ItemPartsView;

    open spec fn view(&self) -> ItemPartsView {
        ItemPartsView {
            attrs: attribute_views(self.attrs@),
            vis: self.vis@,
            signature: self.signature@,
            body: match self.body {
                Some(b) => Some(b@),
                None => None,
            },
        }
    }
}

/// A signature, each parameter still text.
#[derive(Clone, Debug, PartialEq, Eq)]
pub struct Frame {
    pub constness: bool,
    pub asyncness: bool,
    pub unsafety: bool,
    /// `extern "C"` and the like, empty where there is none.
    pub abi: String,
    pub ident: String,
    /// The generic parameters with their angle brackets, or empty.
    pub generics: String,
    /// The parameters, each printed on its own.
    pub params: Vec<String>,
    /// The variadic argument `...`, or empty.
    pub variadic: String,
    /// `->` and the return type, or empty.
    pub output: String,
    pub where_clause: String,
}

pub struct FrameView {
    pub constness: bool,
    pub asyncness: bool,
    pub unsafety: bool,
    pub abi: Seq<char>,
    pub ident: Seq<char>,
    pub generics: Seq<char>,
    pub params: Seq<Seq<char>>,
    pub variadic: Seq<char>,
    pub output: Seq<char>,
    pub where_clause: Seq<char>,
}

impl View for Frame {
    type V = FrameView;

    open spec fn view(&self) -> FrameView {
        FrameView {
            constness: self.constness,
            asyncness: self.asyncness,
            unsafety: self.unsafety,
            abi: self.abi@,
            ident: self.ident@,
            generics: self.generics@,
            params: text_views(self.params@),
            variadic: self.variadic@,
            output: self.output@,
            where_clause: self.where_clause@,
        }
    }
}

/// One literal of an argument list.
#[derive(Clone, Debug, PartialEq, Eq)]
pub enum Literal {
    /// An integer literal, by its digits in base ten.
    Int { digits: String },
    /// A string literal, by the text it stands for.
    Str { value: String },
    Other,
}

pub enum LiteralView {
    Int { digits: Seq<char> },
    Str { value: Seq<char> },
    Other,
}

impl View for Literal {
    type V = LiteralView;

    open spec fn view(&self) -> LiteralView {
        match self {
            Literal::Int { digits } => LiteralView::Int { digits: digits@ },
            Literal::Str { value } => LiteralView::Str { value: value@ },
            Literal::Other => LiteralView::Other,
        }
    }
}

/// The views of a vector of literals, in order.
pub open spec fn literal_views(literals: Seq<Literal>) -> Seq<LiteralView> {
    Seq::new(literals.len(), |i: int| literals[i]@)
}

/// The parts of `text` read as a free function with a body, where `syn` accepts it.
pub uninterp spec fn fn_item_parts(text: Seq<char>) -> Option<ItemPartsView>;

/// The parts of `text` read as a method of a trait, where `syn` accepts it.
pub uninterp spec fn trait_fn_parts(text: Seq<char>) -> Option<ItemPartsView>;

/// The parts of `text` read as a signature, where `syn` accepts it.
pub uninterp spec fn signature_frame(text: Seq<char>) -> Option<FrameView>;

/// The parts of `text` read as one parameter, where `syn` accepts it.
pub uninterp spec fn param_parts(text: Seq<char>) -> Option<RawParamView>;

/// The parts of `text` read as the pattern of a parameter, where `syn` accepts it.
pub uninterp spec fn pattern_parts(text: Seq<char>) -> Option<PatternView>;

/// The literals of `text` read as a list separated by commas, where `syn` accepts it.
pub uninterp spec fn literal_list(text: Seq<char>) -> Option<Seq<LiteralView>>;

/// The identifier that `text` is, as `syn` prints it, where `syn` accepts
/// the text as a single identifier.
pub uninterp spec fn identifier_name(text: Seq<char>) -> Option<Seq<char>>;

/// The name of the enum that `text` declares, where `syn` accepts it as one.
pub uninterp spec fn enum_name(text: Seq<char>) -> Option<Seq<char>>;

/// `syn::parse_str::<syn::ItemFn>`: parses `text` as a function with a body
/// and hands out its attributes, visibility, signature and statements, each
/// printed by `quote`. The contract only names that result.
#[verifier::external_body]
pub(crate) fn split_fn_item(text: &str) -> (r: Result<ItemParts, syn::Error>)
    ensures
        match r {
            Ok(parts) => fn_item_parts(text@) == Some(parts@),
            Err(_) => fn_item_parts(text@) is None,
        },
{
    let item = syn::parse_str::<syn::ItemFn>(text)?;
    Ok(ItemParts {
        attrs: item.attrs.iter().map(|a| Attribute {
            inner: matches!(a.style, syn::AttrStyle::Inner(_)),
            text: a.to_token_stream().to_string(),
        }).collect(),
        vis: item.vis.to_token_stream().to_string(),
        signature: item.sig.to_token_stream().to_string(),
        body: Some(item.block.stmts.iter().map(|s| s.to_token_stream()).collect::<proc_macro2::TokenStream>().to_string()),
    })
}

/// `syn::parse_str::<syn::TraitItemFn>`: parses `text` as a method of a trait,
/// with a body or with `;`, and hands out its attributes, signature and
/// statements, each printed by `quote`. Such a method has no visibility.
#[verifier::external_body]
pub(crate) fn split_trait_fn(text: &str) -> (r: Result<ItemParts, syn::Error>)
    ensures
        match r {
            Ok(parts) => trait_fn_parts(text@) == Some(parts@),
            Err(_) => trait_fn_parts(text@) is None,
        },
{
    let item = syn::parse_str::<syn::TraitItemFn>(text)?;
    Ok(ItemParts {
        attrs: item.attrs.iter().map(|a| Attribute {
            inner: matches!(a.style, syn::AttrStyle::Inner(_)),
            text: a.to_token_stream().to_string(),
        }).collect(),
        vis: String::new(),
        signature: item.sig.to_token_stream().to_string(),
        body: item.default.map(|b| b.stmts.iter().map(|s| s.to_token_stream()).collect::<proc_macro2::TokenStream>().to_string()),
    })
}

/// `syn::parse_str::<syn::Signature>`: parses `text` as a signature and hands
/// out its parts, each printed by `quote`, the parameters one by one.
#[verifier::external_body]
pub(crate) fn split_signature(text: &str) -> (r: Result<Frame, syn::Error>)
    ensures
        match r {
            Ok(frame) => signature_frame(text@) == Some(frame@),
            Err(_) => signature_frame(text@) is None,
        },
{
    let sig = syn::parse_str::<syn::Signature>(text)?;
    Ok(Frame {
        constness: sig.constness.is_some(),
        asyncness: sig.asyncness.is_some(),
        unsafety: sig.unsafety.is_some(),
        abi: sig.abi.to_token_stream().to_string(),
        ident: sig.ident.to_string(),
        generics: sig.generics.to_token_stream().to_string(),
        params: sig.inputs.iter().map(|p| p.to_token_stream().to_string()).collect(),
        variadic: sig.variadic.to_token_stream().to_string(),
        output: sig.output.to_token_stream().to_string(),
        where_clause: sig.generics.where_clause.to_token_stream().to_string(),
    })
}

/// `syn::parse_str::<syn::FnArg>`: parses `text` as one parameter and tells a
/// receiver from a parameter with a pattern and a type, whose attributes,
/// pattern and type it hands out, each printed by `quote`.
#[verifier::external_body]
pub(crate) fn split_param(text: &str) -> (r: Result<RawParam, syn::Error>)
    ensures
        match r {
            Ok(param) => param_parts(text@) == Some(param@),
            Err(_) => param_parts(text@) is None,
        },
{
    Ok(match syn::parse_str::<syn::FnArg>(text)? {
        syn::FnArg::Receiver(r) => RawParam::Receiver { text: r.to_token_stream().to_string() },
        syn::FnArg::Typed(t) => RawParam::Typed {
            attrs: t.attrs.iter().map(|a| a.to_token_stream()).collect::<proc_macro2::TokenStream>().to_string(),
            pattern: t.pat.to_token_stream().to_string(),
            ty: t.ty.to_token_stream().to_string(),
        },
    })
}

/// `syn::Pat::parse_single`: parses `text` as the pattern of a parameter and
/// tells a plain identifier, with its `ref`, `mut` and the pattern behind `@`,
/// from any other pattern, which it prints with `quote`.
#[verifier::external_body]
pub(crate) fn split_pattern(text: &str) -> (r: Result<Pattern, syn::Error>)
    ensures
        match r {
            Ok(pattern) => pattern_parts(text@) == Some(pattern@),
            Err(_) => pattern_parts(text@) is None,
        },
{
    Ok(match syn::parse::Parser::parse_str(syn::Pat::parse_single, text)? {
        syn::Pat::Ident(p) => Pattern::Ident {
            by_ref: p.by_ref.is_some(),
            mutable: p.mutability.is_some(),
            name: p.ident.to_string(),
            subpattern: p.subpat.map(|s| s.1.to_token_stream().to_string()).unwrap_or_default(),
        },
        other => Pattern::Other { text: other.to_token_stream().to_string() },
    })
}

/// `syn::punctuated::Punctuated::<syn::Lit, syn::token::Comma>::parse_terminated`:
/// parses `text` as literals separated by commas and hands them out in order,
/// an integer by `LitInt::base10_digits`, a string by `LitStr::value`.
#[verifier::external_body]
pub(crate) fn split_literals(text: &str) -> (r: Result<Vec<Literal>, syn::Error>)
    ensures
        match r {
            Ok(literals) => literal_list(text@) == Some(literal_views(literals@)),
            Err(_) => literal_list(text@) is None,
        },
{
    let list = syn::parse::Parser::parse_str(
        syn::punctuated::Punctuated::<syn::Lit, syn::token::Comma>::parse_terminated,
        text,
    )?;
    Ok(list.iter().map(|lit| match lit {
        syn::Lit::Int(i) => Literal::Int { digits: i.base10_digits().to_string() },
        syn::Lit::Str(s) => Literal::Str { value: s.value() },
        _ => Literal::Other,
    }).collect())
}

/// `syn::parse_str::<syn::Ident>`: parses `text` as one identifier that is
/// no keyword and hands it out as printed.
#[verifier::external_body]
pub(crate) fn split_identifier(text: &str) -> (r: Result<String, syn::Error>)
    ensures
        match r {
            Ok(name) => identifier_name(text@) == Some(name@),
            Err(_) => identifier_name(text@) is None,
        },
{
    syn::parse_str::<syn::Ident>(text).map(|ident| ident.to_string())
}

/// `syn::parse_str::<syn::ItemEnum>`: parses `text` as the declaration of an
/// enum and hands out its name.
#[verifier::external_body]
pub(crate) fn split_enum(text: &str) -> (r: Result<String, syn::Error>)
    ensures
        match r {
            Ok(name) => enum_name(text@) == Some(name@),
            Err(_) => enum_name(text@) is None,
        },
{
    syn::parse_str::<syn::ItemEnum>(text).map(|item| item.ident.to_string())
}

} // verus!
