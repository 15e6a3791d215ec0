use wgse_meta::capture::wgse_command_interface;
use wgse_meta::collect::wgse_command;
use wgse_meta::commands::{
    execute_nope, Effect, Ending, Nope, Panic, WgseCommandInterface, WgseCommands, NOPE, PANIC,
};
use wgse_meta::declaration::parse_handler;
use wgse_meta::error::PipelineError;
use wgse_meta::generate::{
    check_closed_set, command_artifact, entry_artifact, generate_dispatch,
    generate_wgse_commands, generate_wgse_commands_impl, CommandArtifact, DispatchTable,
    Strictness,
};
use wgse_meta::record::{set_json_value, Record};
use wgse_meta::store::{Key, ManifestStore};

const NOPE_SOURCE: &str = "fn execute_nope() -> Result<()> { println!(\"Nope!\"); Ok(()) }";
const PANIC_SOURCE: &str =
    "/// doc here\npub fn panic() -> Result<()> { println!(\"Panic!\"); unreachable!() }";

fn host_store() -> ManifestStore {
    let mut store = ManifestStore::new();
    wgse_command_interface(&mut store, "fn execute(&self) -> Result<()>;").unwrap();
    wgse_command(&mut store, "0x01, \"Nope\"", NOPE_SOURCE, true).unwrap();
    wgse_command(&mut store, "0xFF, \"Panic\"", PANIC_SOURCE, true).unwrap();
    store
}

fn artifact(constant: &str, code: u64, variant: &str, method: &str) -> CommandArtifact {
    CommandArtifact {
        constant: constant.to_string(),
        code,
        variant: variant.to_string(),
        method: method.to_string(),
    }
}

fn tokens(source: &str) -> String {
    source.parse::<proc_macro2::TokenStream>().unwrap().to_string()
}

#[test]
fn generation_yields_one_artifact_for_each_command() {
    let table =
        generate_wgse_commands_impl(&host_store(), "WgseCommandInterface", "pub enum WgseCommands {}")
            .unwrap();
    assert_eq!(
        table,
        DispatchTable {
            interface: "WgseCommandInterface".to_string(),
            target: "WgseCommands".to_string(),
            commands: vec![
                artifact(
                    "NOPE",
                    1,
                    "Nope",
                    "fn execute ( & self ) -> Result < () > { println ! (\"Nope!\") ; Ok (()) }"
                ),
                artifact(
                    "PANIC",
                    255,
                    "Panic",
                    "# [doc = \" doc here\"] fn execute ( & self ) -> Result < () > { println ! (\"Panic!\") ; unreachable ! () }"
                ),
            ],
        }
    );
}

#[test]
fn generated_source_is_the_closed_dispatch_type() {
    let source =
        generate_wgse_commands(&host_store(), "WgseCommandInterface", "pub enum WgseCommands {}")
            .unwrap();
    let expected = "
        const NOPE: u64 = 1u64;
        #[derive(Debug, Default, Clone, Eq, PartialEq)]
        pub struct Nope;
        impl WgseCommandInterface for Nope {
            fn execute(&self) -> Result<()> { println!(\"Nope!\"); Ok(()) }
        }
        const PANIC: u64 = 255u64;
        #[derive(Debug, Default, Clone, Eq, PartialEq)]
        pub struct Panic;
        impl WgseCommandInterface for Panic {
            #[doc = \" doc here\"]
            fn execute(&self) -> Result<()> { println!(\"Panic!\"); unreachable!() }
        }
        #[enum_dispatch(WgseCommandInterface)]
        #[derive(Debug, Clone, Eq, PartialEq)]
        pub enum WgseCommands { Nope, Panic, }
        impl std::default::Default for WgseCommands {
            fn default() -> Self { WgseCommands::Nope(Nope {}) }
        }
    ";
    assert_eq!(tokens(&source), tokens(expected));
}

#[test]
fn generated_source_has_two_of_everything_for_two_commands() {
    let source =
        generate_wgse_commands(&host_store(), "WgseCommandInterface", "pub enum WgseCommands {}")
            .unwrap();
    let file = syn::parse_file(&source).unwrap();
    let mut constants = Vec::new();
    let mut units = Vec::new();
    let mut impls = Vec::new();
    let mut enums = Vec::new();
    for item in &file.items {
        match item {
            syn::Item::Const(c) => constants.push(c.ident.to_string()),
            syn::Item::Struct(s) => {
                assert!(matches!(s.fields, syn::Fields::Unit));
                units.push(s.ident.to_string());
            }
            syn::Item::Impl(i) => impls.push(i.items.len()),
            syn::Item::Enum(e) => {
                let variants: Vec<String> = e.variants.iter().map(|v| v.ident.to_string()).collect();
                enums.push((e.ident.to_string(), variants));
            }
            _ => panic!("unexpected item"),
        }
    }
    assert_eq!(constants, vec!["NOPE".to_string(), "PANIC".to_string()]);
    assert_eq!(units, vec!["Nope".to_string(), "Panic".to_string()]);
    assert_eq!(impls, vec![1, 1, 1]);
    assert_eq!(
        enums,
        vec![("WgseCommands".to_string(), vec!["Nope".to_string(), "Panic".to_string()])]
    );
}

#[test]
fn table_without_commands_is_an_empty_enum_with_its_default_rule() {
    let table = generate_dispatch(&ManifestStore::new(), "Interface", "Commands", Strictness::Permissive)
        .unwrap();
    assert_eq!(table.commands, vec![]);
    let expected = "
        #[enum_dispatch(Interface)]
        #[derive(Debug, Clone, Eq, PartialEq)]
        pub enum Commands { }
        impl std::default::Default for Commands {
            fn default() -> Self { Commands::Nope(Nope {}) }
        }
    ";
    assert_eq!(tokens(&table.render()), tokens(expected));
}

#[test]
fn commands_come_in_the_order_of_the_store() {
    let mut store = ManifestStore::new();
    wgse_command_interface(&mut store, "fn execute(&self);").unwrap();
    for (args, source) in [
        ("3, \"gamma\"", "fn c() {}"),
        ("1, \"alpha\"", "fn a() {}"),
        ("2, \"beta\"", "fn b() {}"),
        ("4, \"alpha\"", "fn d() {}"),
    ] {
        wgse_command(&mut store, args, source, true).unwrap();
    }
    let table = generate_dispatch(&store, "I", "T", Strictness::Permissive).unwrap();
    let seen: Vec<(String, u64)> =
        table.commands.iter().map(|c| (c.variant.clone(), c.code)).collect();
    assert_eq!(
        seen,
        vec![("Gamma".to_string(), 3), ("Alpha".to_string(), 4), ("Beta".to_string(), 2)]
    );
}

#[test]
fn stored_method_is_renamed_and_loses_its_visibility() {
    let body = parse_handler("#[inline] pub(crate) fn run(&self, a: u8) -> u8 { a }").unwrap();
    assert_eq!(
        command_artifact("read file", 9, body),
        Ok(artifact("READ_FILE", 9, "ReadFile", "# [inline] fn execute ( & self , a : u8 ) -> u8 { a }"))
    );
}

#[test]
fn name_that_makes_no_identifier_is_refused() {
    let body = parse_handler("fn run(&self) {}").unwrap();
    assert_eq!(command_artifact("", 1, body.clone()), Err(PipelineError::InvalidName));
    assert_eq!(command_artifact("1st", 1, body.clone()), Err(PipelineError::InvalidName));
    assert_eq!(command_artifact("a+b", 1, body.clone()), Err(PipelineError::InvalidName));
    assert_eq!(command_artifact("self", 1, body), Err(PipelineError::InvalidName));
}

#[test]
fn malformed_body_aborts_generation() {
    let mut store = host_store();
    let broken = Record {
        name: Some("Broken".to_string()),
        code: Some(7),
        raw: Some("fn broken( {".to_string()),
    };
    store.put(&Key::of_command("Broken"), &broken);
    assert_eq!(
        generate_wgse_commands(&store, "WgseCommandInterface", "pub enum WgseCommands {}"),
        Err(PipelineError::MalformedManifestBody)
    );
    assert_eq!(
        generate_wgse_commands_impl(&store, "WgseCommandInterface", "pub enum WgseCommands {}"),
        Err(PipelineError::MalformedManifestBody)
    );
    assert_eq!(
        generate_dispatch(&store, "I", "T", Strictness::Strict),
        Err(PipelineError::MalformedManifestBody)
    );
    assert_eq!(
        entry_artifact(&set_json_value(&broken)),
        Err(PipelineError::MalformedManifestBody)
    );
}

#[test]
fn malformed_body_aborts_generation_wherever_it_stands() {
    let mut store = ManifestStore::new();
    let broken = Record {
        name: Some("Broken".to_string()),
        code: Some(7),
        raw: Some("struct NotAFunction;".to_string()),
    };
    store.put(&Key::of_command("Broken"), &broken);
    wgse_command_interface(&mut store, "fn execute(&self) -> Result<()>;").unwrap();
    wgse_command(&mut store, "0x01, \"Nope\"", NOPE_SOURCE, true).unwrap();
    assert_eq!(
        generate_wgse_commands(&store, "WgseCommandInterface", "pub enum WgseCommands {}"),
        Err(PipelineError::MalformedManifestBody)
    );
}

#[test]
fn record_that_lacks_a_field_is_a_storage_error() {
    let full = "fn run ( & self ) { }";
    let lacking = [
        Record { name: None, code: Some(1), raw: Some(full.to_string()) },
        Record { name: Some("a".to_string()), code: None, raw: Some(full.to_string()) },
        Record { name: Some("a".to_string()), code: Some(1), raw: None },
    ];
    for record in lacking {
        assert_eq!(entry_artifact(&set_json_value(&record)), Err(PipelineError::StorageIoError));
    }
    assert_eq!(entry_artifact("not json"), Err(PipelineError::StorageIoError));
    let mut store = ManifestStore::new();
    store.insert_document(&Key::Command("stale.json".to_string()), "{}".to_string());
    assert_eq!(
        generate_dispatch(&store, "I", "T", Strictness::Permissive),
        Err(PipelineError::StorageIoError)
    );
}

#[test]
fn first_unusable_record_decides_the_failure() {
    let mut store = ManifestStore::new();
    store.insert_document(&Key::Command("a.json".to_string()), "{".to_string());
    store.put(
        &Key::Command("b.json".to_string()),
        &Record { name: Some("b".to_string()), code: Some(1), raw: Some("nothing".to_string()) },
    );
    assert_eq!(
        generate_dispatch(&store, "I", "T", Strictness::Permissive),
        Err(PipelineError::StorageIoError)
    );
    store.put(
        &Key::Command("a.json".to_string()),
        &Record { name: Some("1".to_string()), code: Some(1), raw: Some("fn a() {}".to_string()) },
    );
    assert_eq!(
        generate_dispatch(&store, "I", "T", Strictness::Permissive),
        Err(PipelineError::InvalidName)
    );
}

#[test]
fn arguments_of_generation_must_be_an_identifier_and_an_enum() {
    let store = host_store();
    assert_eq!(
        generate_wgse_commands(&store, "", "pub enum WgseCommands {}"),
        Err(PipelineError::InvalidArguments)
    );
    assert_eq!(
        generate_wgse_commands(&store, "a::b", "pub enum WgseCommands {}"),
        Err(PipelineError::InvalidArguments)
    );
    assert_eq!(
        generate_wgse_commands(&store, "WgseCommandInterface", "pub struct WgseCommands;"),
        Err(PipelineError::MalformedDeclaration)
    );
    let table = generate_wgse_commands_impl(
        &store,
        " WgseCommandInterface ",
        "/// Auto-completed\npub enum Dispatch { Old }",
    )
    .unwrap();
    assert_eq!(table.interface, "WgseCommandInterface");
    assert_eq!(table.target, "Dispatch");
}

#[test]
fn permissive_generation_takes_any_set() {
    let mut store = ManifestStore::new();
    wgse_command_interface(&mut store, "fn execute(&self);").unwrap();
    wgse_command(&mut store, "1, \"alpha\"", "fn a() {}", true).unwrap();
    wgse_command(&mut store, "1, \"beta\"", "fn b() {}", true).unwrap();
    let table = generate_dispatch(&store, "I", "T", Strictness::Permissive).unwrap();
    assert_eq!(table.commands.len(), 2);
    assert_eq!(check_closed_set(&table.commands, Strictness::Permissive), Ok(()));
    assert!(table.render().ends_with("for T { fn default () -> Self { T :: Nope (Nope { }) } }"));
}

#[test]
fn strict_generation_asks_for_a_closed_set() {
    let nope = artifact("NOPE", 1, "Nope", "fn execute ( & self ) { }");
    let panic = artifact("PANIC", 255, "Panic", "fn execute ( & self ) { }");
    assert_eq!(check_closed_set(&vec![nope.clone(), panic.clone()], Strictness::Strict), Ok(()));
    assert_eq!(check_closed_set(&vec![nope.clone()], Strictness::Strict), Ok(()));
    assert_eq!(
        check_closed_set(&vec![], Strictness::Strict),
        Err(PipelineError::MissingDefault)
    );
    assert_eq!(
        check_closed_set(&vec![panic.clone()], Strictness::Strict),
        Err(PipelineError::MissingDefault)
    );
    let same_code = artifact("OTHER", 1, "Other", "fn execute ( & self ) { }");
    assert_eq!(
        check_closed_set(&vec![nope.clone(), panic.clone(), same_code], Strictness::Strict),
        Err(PipelineError::DuplicateCode)
    );
    let same_variant = artifact("NOPE_2", 1, "Nope", "fn execute ( & self ) { }");
    assert_eq!(
        check_closed_set(&vec![nope.clone(), same_variant], Strictness::Strict),
        Err(PipelineError::DuplicateName)
    );
    let same_constant = artifact("PANIC", 3, "PANIC", "fn execute ( & self ) { }");
    assert_eq!(
        check_closed_set(&vec![nope, panic, same_constant], Strictness::Strict),
        Err(PipelineError::DuplicateName)
    );
}

#[test]
fn strict_generation_fails_on_the_store() {
    let mut store = ManifestStore::new();
    wgse_command_interface(&mut store, "fn execute(&self);").unwrap();
    wgse_command(&mut store, "1, \"alpha\"", "fn a() {}", true).unwrap();
    assert_eq!(
        generate_dispatch(&store, "I", "T", Strictness::Strict),
        Err(PipelineError::MissingDefault)
    );
    wgse_command(&mut store, "1, \"Nope\"", "fn n() {}", true).unwrap();
    assert_eq!(
        generate_dispatch(&store, "I", "T", Strictness::Strict),
        Err(PipelineError::DuplicateCode)
    );
    wgse_command(&mut store, "2, \"Nope\"", "fn n() {}", true).unwrap();
    assert!(generate_dispatch(&store, "I", "T", Strictness::Strict).is_ok());
    assert!(generate_dispatch(&host_store(), "I", "T", Strictness::Strict).is_ok());
}

#[test]
fn default_command_is_nope() {
    assert_eq!(WgseCommands::default(), WgseCommands::Nope(Nope));
    assert_eq!(NOPE, 1);
    assert_eq!(PANIC, 255);
}

#[test]
fn each_variant_runs_its_own_command() {
    let nope = Effect { line: "Nope!".to_string(), ending: Ending::Returns };
    let panic_effect = Effect { line: "Panic!".to_string(), ending: Ending::Unreachable };
    assert_eq!(WgseCommands::Nope(Nope).execute(), nope);
    assert_eq!(WgseCommands::Panic(Panic).execute(), panic_effect);
    assert_eq!(WgseCommands::default().execute(), nope);
    assert_eq!(Nope.execute(), execute_nope());
    assert_eq!(Panic.execute(), wgse_meta::commands::panic());
    assert_eq!(execute_nope(), nope);
    assert_eq!(wgse_meta::commands::panic(), panic_effect);
}
