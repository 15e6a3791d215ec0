use wgse_meta::canonical::{insert_receiver, render_canonical, render_interface};
use wgse_meta::declaration::{
    parse_handler, parse_interface_method, parse_param, parse_signature, Declaration, Param,
    Signature,
};
use wgse_meta::render::{
    render_attrs, render_declaration, render_param, render_params, render_pattern,
    render_signature,
};
use wgse_meta::syntax::{Attribute, Pattern};

fn named(name: &str, ty: &str) -> Param {
    Param::Typed {
        attrs: String::new(),
        pattern: Pattern::Ident {
            by_ref: false,
            mutable: false,
            name: name.to_string(),
            subpattern: String::new(),
        },
        ty: ty.to_string(),
    }
}

fn plain_signature(ident: &str, params: Vec<Param>, output: &str) -> Signature {
    Signature {
        constness: false,
        asyncness: false,
        unsafety: false,
        abi: String::new(),
        ident: ident.to_string(),
        generics: String::new(),
        params,
        variadic: String::new(),
        output: output.to_string(),
        where_clause: String::new(),
    }
}

#[test]
fn handler_is_read_part_by_part() {
    let decl = parse_handler(
        "/// doc here\npub fn panic(count: u8) -> Result<()> { println!(\"Panic!\"); unreachable!() }",
    )
    .unwrap();
    assert_eq!(
        decl,
        Declaration {
            attrs: vec![Attribute { inner: false, text: "# [doc = \" doc here\"]".to_string() }],
            vis: "pub".to_string(),
            sig: plain_signature("panic", vec![named("count", "u8")], "-> Result < () >"),
            body: Some("println ! (\"Panic!\") ; unreachable ! ()".to_string()),
        }
    );
}

#[test]
fn interface_method_is_read_without_a_body() {
    let decl = parse_interface_method("fn execute(&self) -> Result<()>;").unwrap();
    assert_eq!(
        decl,
        Declaration {
            attrs: vec![],
            vis: String::new(),
            sig: plain_signature(
                "execute",
                vec![Param::Receiver { text: "& self".to_string() }],
                "-> Result < () >"
            ),
            body: None,
        }
    );
}

#[test]
fn interface_method_may_have_a_default_body() {
    let decl = parse_interface_method("fn execute(&self) -> u8 { 7 }").unwrap();
    assert_eq!(decl.body, Some("7".to_string()));
    assert_eq!(render_interface(&decl), "fn _ ( & self ) -> u8 { 7 }");
}

#[test]
fn text_that_is_no_function_is_not_read() {
    assert_eq!(parse_handler("fn execute(&self) -> Result<()>;"), None);
    assert_eq!(parse_handler("struct Nope;"), None);
    assert_eq!(parse_handler(""), None);
    assert_eq!(parse_handler("fn broken( {"), None);
    assert_eq!(parse_interface_method("pub fn execute(&self);"), None);
    assert_eq!(parse_interface_method("fn execute(&self)"), None);
    assert_eq!(parse_signature("fn"), None);
    assert_eq!(parse_param("a b c"), None);
}

#[test]
fn signature_keeps_qualifiers_generics_and_where_clause() {
    let sig = parse_signature(
        "const async unsafe extern \"C\" fn run<'a, T: Clone>(x: &'a T) -> T where T: Copy",
    )
    .unwrap();
    assert!(sig.constness && sig.asyncness && sig.unsafety);
    assert_eq!(sig.abi, "extern \"C\"");
    assert_eq!(sig.ident, "run");
    assert_eq!(sig.generics, "< 'a , T : Clone >");
    assert_eq!(sig.params, vec![named("x", "& 'a T")]);
    assert_eq!(sig.variadic, "");
    assert_eq!(sig.output, "-> T");
    assert_eq!(sig.where_clause, "where T : Copy");
    assert_eq!(
        render_signature(&sig),
        "const async unsafe extern \"C\" fn run < 'a , T : Clone > ( x : & 'a T ) -> T where T : Copy"
    );
}

#[test]
fn variadic_argument_follows_the_parameters() {
    let sig = parse_signature("unsafe extern \"C\" fn log(level: u8, ...)").unwrap();
    assert_eq!(sig.variadic, "...");
    assert_eq!(render_signature(&sig), "unsafe extern \"C\" fn log ( level : u8 , ... )");
    let alone = parse_signature("unsafe extern \"C\" fn log(...)").unwrap();
    assert_eq!(render_signature(&alone), "unsafe extern \"C\" fn log ( ... )");
}

#[test]
fn patterns_are_told_apart() {
    assert_eq!(parse_param("count: u8"), Some(named("count", "u8")));
    assert_eq!(
        parse_param("#[cfg(test)] ref mut count @ 1..=9: u8"),
        Some(Param::Typed {
            attrs: "# [cfg (test)]".to_string(),
            pattern: Pattern::Ident {
                by_ref: true,
                mutable: true,
                name: "count".to_string(),
                subpattern: "1 ..= 9".to_string(),
            },
            ty: "u8".to_string(),
        })
    );
    assert_eq!(
        parse_param("(a, b): (u8, u8)"),
        Some(Param::Typed {
            attrs: String::new(),
            pattern: Pattern::Other { text: "(a , b)".to_string() },
            ty: "(u8 , u8)".to_string(),
        })
    );
    assert_eq!(
        parse_param("_: u8"),
        Some(Param::Typed {
            attrs: String::new(),
            pattern: Pattern::Other { text: "_".to_string() },
            ty: "u8".to_string(),
        })
    );
    assert_eq!(
        parse_param("mut self: Box<Self>"),
        Some(Param::Receiver { text: "mut self : Box < Self >".to_string() })
    );
}

#[test]
fn pattern_is_printed_token_by_token() {
    let full = Pattern::Ident {
        by_ref: true,
        mutable: true,
        name: "count".to_string(),
        subpattern: "1 ..= 9".to_string(),
    };
    assert_eq!(render_pattern(&full), "ref mut count @ 1 ..= 9");
    let bare = Pattern::Ident {
        by_ref: false,
        mutable: false,
        name: "count".to_string(),
        subpattern: String::new(),
    };
    assert_eq!(render_pattern(&bare), "count");
    assert_eq!(render_pattern(&Pattern::Other { text: "(a , b)".to_string() }), "(a , b)");
}

#[test]
fn parameters_are_joined_by_commas() {
    assert_eq!(render_params(&vec![]), "");
    assert_eq!(render_params(&vec![named("a", "u8")]), "a : u8");
    assert_eq!(
        render_params(&vec![
            Param::Receiver { text: "& self".to_string() },
            named("a", "u8"),
            named("b", "String"),
        ]),
        "& self , a : u8 , b : String"
    );
    let with_attrs = Param::Typed {
        attrs: "# [cfg (test)]".to_string(),
        pattern: Pattern::Other { text: "_".to_string() },
        ty: "u8".to_string(),
    };
    assert_eq!(render_param(&with_attrs), "# [cfg (test)] _ : u8");
}

#[test]
fn attributes_are_printed_by_kind() {
    let attrs = vec![
        Attribute { inner: false, text: "# [inline]".to_string() },
        Attribute { inner: true, text: "# ! [allow (unused)]".to_string() },
        Attribute { inner: false, text: "# [must_use]".to_string() },
    ];
    assert_eq!(render_attrs(&attrs, false), "# [inline] # [must_use]");
    assert_eq!(render_attrs(&attrs, true), "# ! [allow (unused)]");
    assert_eq!(render_attrs(&vec![], false), "");
}

#[test]
fn declaration_is_printed_with_inner_attributes_inside_the_body() {
    let decl = parse_handler("#[inline] pub(crate) fn run() { #![allow(unused)] let x = 1; }")
        .unwrap();
    assert_eq!(
        render_declaration(&decl),
        "# [inline] pub (crate) fn run ( ) { # ! [allow (unused)] let x = 1 ; }"
    );
    let empty = parse_handler("fn run() {}").unwrap();
    assert_eq!(render_declaration(&empty), "fn run ( ) { }");
}

#[test]
fn printed_declaration_reads_back_as_the_same_declaration() {
    let text = "/// doc\npub async fn run<T>(mut a: T, (b, c): (u8, u8)) -> Option<T> where T: Clone { #![allow(unused)] let d = a.clone(); Some(d) }";
    let decl = parse_handler(text).unwrap();
    let again = parse_handler(&render_declaration(&decl)).unwrap();
    assert_eq!(decl, again);
}

#[test]
fn canonical_signature_erases_names_and_puts_the_receiver_first() {
    let decl = parse_handler(
        "/// doc here\npub fn panic(mut a: u8, (b, c): (u8, u8), ref d @ 1..=9: u8) -> Result<()> { unreachable!() }",
    )
    .unwrap();
    assert_eq!(
        render_canonical(&decl, true),
        "fn _ ( & self , mut _ : u8 , (b , c) : (u8 , u8) , ref _ @ 1 ..= 9 : u8 ) -> Result < () > ;"
    );
    assert_eq!(
        render_canonical(&decl, false),
        "fn _ ( mut _ : u8 , (b , c) : (u8 , u8) , ref _ @ 1 ..= 9 : u8 ) -> Result < () > ;"
    );
}

#[test]
fn canonical_signature_is_the_same_for_other_names() {
    let a = parse_handler("fn first(x: u8, y: String) -> u8 { x }").unwrap();
    let b = parse_handler("#[inline] pub fn second(left: u8, right: String) -> u8 { 0 }").unwrap();
    assert_eq!(render_canonical(&a, true), render_canonical(&b, true));
    assert_eq!(render_canonical(&a, true), "fn _ ( & self , _ : u8 , _ : String ) -> u8 ;");
    assert_eq!(render_canonical(&a, true), render_canonical(&a, true));
}

#[test]
fn canonical_signature_differs_with_the_types() {
    let base = parse_handler("fn f(x: u8) -> u8 { x }").unwrap();
    let other_type = parse_handler("fn f(x: u16) -> u8 { 0 }").unwrap();
    let other_return = parse_handler("fn f(x: u8) -> u16 { 0 }").unwrap();
    let extra = parse_handler("fn f(x: u8, y: u8) -> u8 { x }").unwrap();
    let swapped = parse_handler("fn f(y: String, x: u8) -> u8 { x }").unwrap();
    let canonical = render_canonical(&base, true);
    assert_ne!(canonical, render_canonical(&other_type, true));
    assert_ne!(canonical, render_canonical(&other_return, true));
    assert_ne!(canonical, render_canonical(&extra, true));
    assert_ne!(render_canonical(&extra, true), render_canonical(&swapped, true));
}

#[test]
fn trailing_comma_does_not_show_in_the_canonical_signature() {
    let a = parse_handler("fn f(x: u8,) {}").unwrap();
    let b = parse_handler("fn f(x: u8) {}").unwrap();
    assert_eq!(render_canonical(&a, true), render_canonical(&b, true));
}

#[test]
fn interface_record_is_the_canonical_signature_of_the_method() {
    let method = parse_interface_method(
        "#[allow(unused_variables)]\n/// summary\nfn execute(&self, input: u8) -> Result<()>;",
    )
    .unwrap();
    assert_eq!(render_interface(&method), "fn _ ( & self , _ : u8 ) -> Result < () > ;");
    assert_eq!(render_interface(&method), render_canonical(&method, false));
    let handler = parse_handler("fn run(value: u8) -> Result<()> { Ok(()) }").unwrap();
    assert_eq!(render_interface(&method), render_canonical(&handler, true));
}

#[test]
fn receiver_is_put_before_the_parameters() {
    let decl = parse_handler("pub fn run(a: u8) -> u8 { a }").unwrap();
    let method = insert_receiver(decl.clone());
    assert_eq!(method.sig.params.len(), 2);
    assert_eq!(method.sig.params[0], Param::Receiver { text: "& self".to_string() });
    assert_eq!(method.sig.params[1], decl.sig.params[0]);
    assert_eq!(method.attrs, decl.attrs);
    assert_eq!(method.vis, decl.vis);
    assert_eq!(method.body, decl.body);
    assert_eq!(render_declaration(&method), "pub fn run ( & self , a : u8 ) -> u8 { a }");
}

#[test]
fn inserted_receiver_is_the_one_that_a_method_declares() {
    let declared = parse_param("&self").unwrap();
    let decl = insert_receiver(parse_handler("fn run() {}").unwrap());
    assert_eq!(decl.sig.params[0], declared);
}
