//! The last stage: from the commands' records to one closed dispatch type,
//! with a constant, a unit type and an implementation of the interface for
//! each command, and a default that constructs the command named `Nope`.
//!
//! The commands are taken in the order of the store. The stage yields the
//! whole table or nothing: the first record that cannot be used ends it.

use crate::declaration::{handler_model, parse_handler, Declaration, DeclarationView, SignatureView};
use crate::error::{PipelineError, PipelineErrorView};
use crate::naming::{
    constant_name, make_constant_name, make_variant_name, variant_name,
};
use crate::record::{get_json_value, record_of, RecordView};
use crate::render::{declaration_text, render_declaration};
use crate::store::{EntryView, ManifestStore, StoreView};
use crate::syntax::{enum_name, identifier_name, split_enum, split_identifier};
use crate::text::{decimal_text, push_token, render_decimal, same_text, spaced};
use vstd::prelude::*;
use vstd::string::StringExecFns;

verus! {

/// The name of the method that dispatch calls.
pub open spec fn dispatch_method_name() -> Seq<char> {
    "execute"@
}

/// The variant that the default constructs.
pub open spec fn default_variant() -> Seq<char> {
    "Nope"@
}

/// What is generated for one command.
#[derive(Clone, Debug, PartialEq, Eq)]
pub struct CommandArtifact {
    /// The name of the constant that holds the code.
    pub constant: String,
    pub code: u64,
    /// The name of the unit type, and of its variant in the dispatch type.
    pub variant: String,
    /// The method that implements the interface for the unit type.
    pub method: String,
}

pub struct ArtifactView {
    pub constant: Seq<char>,
    pub code: u64,
    pub variant: Seq<char>,
    pub method: Seq<char>,
}

impl View for CommandArtifact {
    type V = ArtifactView;

    open spec fn view(&self) -> ArtifactView {
        ArtifactView {
            constant: self.constant@,
            code: self.code,
            variant: self.variant@,
            method: self.method@,
        }
    }
}

/// The views of a vector of artifacts, in order.
pub open spec fn artifact_views(artifacts: Seq<CommandArtifact>) -> Seq<ArtifactView> {
    Seq::new(artifacts.len(), |i: int| artifacts[i]@)
}

/// The closed set of the commands known when it was generated.
#[derive(Clone, Debug, PartialEq, Eq)]
pub struct DispatchTable {
    /// The interface that every unit type implements.
    pub interface: String,
    /// The name of the dispatch type.
    pub target: String,
    pub commands: Vec<CommandArtifact>,
}

pub struct TableView {
    pub interface: Seq<char>,
    pub target: Seq<char>,
    pub commands: Seq<ArtifactView>,
}

impl View for DispatchTable {
    type V = TableView;

    open spec fn view(&self) -> TableView {
        TableView {
            interface: self.interface@,
            target: self.target@,
            commands: artifact_views(self.commands@),
        }
    }
}

/// How much is asked of the set of commands.
#[derive(Clone, Copy, Debug, PartialEq, Eq)]
pub enum Strictness {
    /// Any set is taken as it stands.
    Permissive,
    /// Names and codes must be distinct, and the default must be there.
    Strict,
}

/// The stored declaration as the method of dispatch: under the method's
/// name, without visibility, everything else as it was stored.
pub open spec fn dispatch_method(d: DeclarationView) -> DeclarationView {
    DeclarationView {
        vis: Seq::empty(),
        sig: SignatureView { ident: dispatch_method_name(), ..d.sig },
        ..d
    }
}

/// What is generated for the command `name` with `code` and the stored
/// declaration `d`; `InvalidName` where the name gives no identifiers.
pub open spec fn artifact(name: Seq<char>, code: u64, d: DeclarationView) -> Result<
    ArtifactView,
    PipelineErrorView,
> {
    match (identifier_name(constant_name(name)), identifier_name(variant_name(name))) {
        (Some(constant), Some(variant)) => Ok(
            ArtifactView {
                constant,
                code,
                variant,
                method: declaration_text(dispatch_method(d)),
            },
        ),
        _ => Err(PipelineErrorView::InvalidName),
    }
}

/// What is generated from one record; `StorageIoError` where it lacks a
/// name, a code or a body, `MalformedManifestBody` where the body is no
/// function.
pub open spec fn record_artifact(record: RecordView) -> Result<ArtifactView, PipelineErrorView> {
    match (record.name, record.code, record.raw) {
        (Some(name), Some(code), Some(raw)) => match handler_model(raw) {
            None => Err(PipelineErrorView::MalformedManifestBody),
            Some(d) => artifact(name, code, d),
        },
        _ => Err(PipelineErrorView::StorageIoError),
    }
}

/// What is generated from one document; `StorageIoError` where it holds no
/// record.
pub open spec fn document_artifact(document: Seq<char>) -> Result<ArtifactView, PipelineErrorView> {
    match record_of(document) {
        None => Err(PipelineErrorView::StorageIoError),
        Some(record) => record_artifact(record),
    }
}

/// What is generated from the entries, in their order: an artifact for
/// every one of them, or the failure of the first that has none.
pub open spec fn artifacts(entries: Seq<EntryView>) -> Result<Seq<ArtifactView>, PipelineErrorView>
    decreases entries.len(),
{
    if entries.len() == 0 {
        Ok(Seq::empty())
    } else {
        match artifacts(entries.drop_last()) {
            Err(e) => Err(e),
            Ok(before) => match document_artifact(entries.last().document) {
                Err(e) => Err(e),
                Ok(a) => Ok(before.push(a)),
            },
        }
    }
}

/// Two commands have the same variant or the same constant.
pub open spec fn has_duplicate_names(commands: Seq<ArtifactView>) -> bool {
    exists|i: int, j: int|
        0 <= i < j < commands.len() && same_names(#[trigger] commands[i], #[trigger] commands[j])
}

/// Two artifacts would be generated under one name.
pub open spec fn same_names(a: ArtifactView, b: ArtifactView) -> bool {
    a.variant == b.variant || a.constant == b.constant
}

/// Two commands have the same code.
pub open spec fn has_duplicate_codes(commands: Seq<ArtifactView>) -> bool {
    exists|i: int, j: int|
        0 <= i < j < commands.len() && (#[trigger] commands[i]).code == (#[trigger] commands[j]).code
}

/// Some command is the default.
pub open spec fn has_default(commands: Seq<ArtifactView>) -> bool {
    exists|i: int| 0 <= i < commands.len() && (#[trigger] commands[i]).variant == default_variant()
}

/// What the set of commands fails, where anything is asked of it.
pub open spec fn closed_set(commands: Seq<ArtifactView>, strictness: Strictness) -> Result<
    (),
    PipelineErrorView,
> {
    if strictness == Strictness::Permissive {
        Ok(())
    } else if has_duplicate_names(commands) {
        Err(PipelineErrorView::DuplicateName)
    } else if has_duplicate_codes(commands) {
        Err(PipelineErrorView::DuplicateCode)
    } else if !has_default(commands) {
        Err(PipelineErrorView::MissingDefault)
    } else {
        Ok(())
    }
}

/// The table that is generated from the store for an interface and a
/// dispatch type of the given names.
pub open spec fn dispatch_table(
    store: StoreView,
    interface: Seq<char>,
    target: Seq<char>,
    strictness: Strictness,
) -> Result<TableView, PipelineErrorView> {
    match artifacts(store.commands) {
        Err(e) => Err(e),
        Ok(commands) => match closed_set(commands, strictness) {
            Err(e) => Err(e),
            Ok(()) => Ok(TableView { interface, target, commands }),
        },
    }
}

/// The table that is generated for the interface that `arg` names and the
/// enum that `input` declares, any set of commands taken as it stands.
pub open spec fn generated(store: StoreView, arg: Seq<char>, input: Seq<char>) -> Result<
    TableView,
    PipelineErrorView,
> {
    match identifier_name(arg) {
        None => Err(PipelineErrorView::InvalidArguments),
        Some(interface) => match enum_name(input) {
            None => Err(PipelineErrorView::MalformedDeclaration),
            Some(target) => dispatch_table(store, interface, target, Strictness::Permissive),
        },
    }
}

/// Generation is complete and closed: where it succeeds there is exactly
/// one artifact for every entry, in the order of the entries, and it is the
/// one that the entry's document gives; where it fails, some entry has no
/// artifact, and the failure is that of the first such entry.
pub proof fn artifacts_cover_entries(entries: Seq<EntryView>)
    ensures
        match artifacts(entries) {
            Ok(commands) => {
                &&& commands.len() == entries.len()
                &&& forall|i: int|
                    0 <= i < entries.len() ==> document_artifact(
                        (#[trigger] entries[i]).document,
                    ) == Ok::<ArtifactView, PipelineErrorView>(commands[i])
            },
            Err(e) => exists|i: int|
                {
                    &&& 0 <= i < entries.len()
                    &&& document_artifact((#[trigger] entries[i]).document) == Err::<
                        ArtifactView,
                        PipelineErrorView,
                    >(e)
                    &&& forall|j: int|
                        0 <= j < i ==> document_artifact((#[trigger] entries[j]).document) is Ok
                },
        },
    decreases entries.len(),
{
    if entries.len() > 0 {
        let front = entries.drop_last();
        artifacts_cover_entries(front);
        assert forall|i: int| 0 <= i < front.len() implies front[i] == entries[i] by {}
        match artifacts(front) {
            Err(e) => {
                let i = choose|i: int|
                    {
                        &&& 0 <= i < front.len()
                        &&& document_artifact((#[trigger] front[i]).document) == Err::<
                            ArtifactView,
                            PipelineErrorView,
                        >(e)
                        &&& forall|j: int|
                            0 <= j < i ==> document_artifact((#[trigger] front[j]).document) is Ok
                    };
                assert(front[i] == entries[i]);
                assert forall|j: int| 0 <= j < i implies document_artifact(
                    (#[trigger] entries[j]).document,
                ) is Ok by {
                    assert(front[j] == entries[j]);
                }
            },
            Ok(before) => {
                let last = entries.len() - 1;
                match document_artifact(entries.last().document) {
                    Err(e) => {
                        assert(entries[last] == entries.last());
                        assert forall|j: int| 0 <= j < last implies document_artifact(
                            (#[trigger] entries[j]).document,
                        ) is Ok by {
                            assert(front[j] == entries[j]);
                        }
                    },
                    Ok(a) => {
                        let commands = before.push(a);
                        assert forall|i: int| 0 <= i < entries.len() implies document_artifact(
                            (#[trigger] entries[i]).document,
                        ) == Ok::<ArtifactView, PipelineErrorView>(commands[i]) by {
                            if i < last {
                                assert(front[i] == entries[i]);
                            }
                        }
                    },
                }
            },
        }
    }
}

/// A record that cannot be used ends generation: where any entry has no
/// artifact, nothing is generated, whatever the other entries hold and
/// however little is asked of the set.
pub proof fn unusable_entry_fails_generation(
    store: StoreView,
    interface: Seq<char>,
    target: Seq<char>,
    strictness: Strictness,
    i: int,
)
    requires
        0 <= i < store.commands.len(),
        document_artifact(store.commands[i].document) is Err,
    ensures
        dispatch_table(store, interface, target, strictness) is Err,
{
    artifacts_cover_entries(store.commands);
}

/// The failure of some leading entries is the failure of all.
proof fn failure_stays(entries: Seq<EntryView>, k: int)
    requires
        0 <= k <= entries.len(),
        artifacts(entries.take(k)) is Err,
    ensures
        artifacts(entries) == artifacts(entries.take(k)),
    decreases entries.len(),
{
    if k == entries.len() {
        assert(entries.take(k) =~= entries);
    } else {
        assert(entries.drop_last().take(k) =~= entries.take(k));
        failure_stays(entries.drop_last(), k);
    }
}

/// Makes the artifact of one command from its name, its code and its
/// stored declaration.
///
/// Fails with `InvalidName` where the name gives no identifier for the
/// constant or for the variant.
pub fn command_artifact(name: &str, code: u64, body: Declaration) -> (r: Result<
    CommandArtifact,
    PipelineError,
>)
    ensures
        match r {
            Ok(a) => artifact(name@, code, body@) == Ok::<ArtifactView, PipelineErrorView>(a@),
            Err(e) => artifact(name@, code, body@) == Err::<ArtifactView, PipelineErrorView>(e@),
        },
{
    let constant = match split_identifier(make_constant_name(name).as_str()) {
        Err(_) => {
            return Err(PipelineError::InvalidName);
        },
        Ok(constant) => constant,
    };
    let variant = match split_identifier(make_variant_name(name).as_str()) {
        Err(_) => {
            return Err(PipelineError::InvalidName);
        },
        Ok(variant) => variant,
    };
    let mut method = body;
    method.vis = String::new();
    method.sig.ident = String::from_str("execute");
    assert(method@ == dispatch_method(body@));
    Ok(CommandArtifact { constant, code, variant, method: render_declaration(&method) })
}

/// Makes the artifact of one command from its document.
///
/// Fails with `StorageIoError` where the document holds no record with a
/// name, a code and a body, with `MalformedManifestBody` where the body is
/// no function, and as `command_artifact` does.
pub fn entry_artifact(document: &str) -> (r: Result<CommandArtifact, PipelineError>)
    ensures
        match r {
            Ok(a) => document_artifact(document@) == Ok::<ArtifactView, PipelineErrorView>(a@),
            Err(e) => document_artifact(document@) == Err::<ArtifactView, PipelineErrorView>(e@),
        },
{
    let record = match get_json_value(document) {
        Err(e) => {
            return Err(e);
        },
        Ok(record) => record,
    };
    match (record.name, record.code, record.raw) {
        (Some(name), Some(code), Some(raw)) => match parse_handler(raw.as_str()) {
            None => Err(PipelineError::MalformedManifestBody),
            Some(body) => command_artifact(name.as_str(), code, body),
        },
        _ => Err(PipelineError::StorageIoError),
    }
}

/// Whether two of the commands would be generated under one name.
fn find_duplicate_names(commands: &Vec<CommandArtifact>) -> (r: bool)
    ensures
        r == has_duplicate_names(artifact_views(commands@)),
{
    let ghost views = artifact_views(commands@);
    let mut j: usize = 0;
    while j < commands.len()
        invariant
            j <= commands.len(),
            views == artifact_views(commands@),
            forall|a: int, b: int|
                0 <= a < b < j ==> !same_names(#[trigger] views[a], #[trigger] views[b]),
        decreases commands.len() - j,
    {
        let mut i: usize = 0;
        while i < j
            invariant
                i <= j < commands.len(),
                views == artifact_views(commands@),
                forall|a: int| 0 <= a < i ==> !same_names(#[trigger] views[a], views[j as int]),
            decreases j - i,
        {
            if same_text(commands[i].variant.as_str(), commands[j].variant.as_str()) || same_text(
                commands[i].constant.as_str(),
                commands[j].constant.as_str(),
            ) {
                assert(same_names(views[i as int], views[j as int]));
                return true;
            }
            i += 1;
        }
        j += 1;
    }
    false
}

/// Whether two of the commands have one code.
fn find_duplicate_codes(commands: &Vec<CommandArtifact>) -> (r: bool)
    ensures
        r == has_duplicate_codes(artifact_views(commands@)),
{
    let ghost views = artifact_views(commands@);
    let mut j: usize = 0;
    while j < commands.len()
        invariant
            j <= commands.len(),
            views == artifact_views(commands@),
            forall|a: int, b: int|
                0 <= a < b < j ==> (#[trigger] views[a]).code != (#[trigger] views[b]).code,
        decreases commands.len() - j,
    {
        let mut i: usize = 0;
        while i < j
            invariant
                i <= j < commands.len(),
                views == artifact_views(commands@),
                forall|a: int| 0 <= a < i ==> (#[trigger] views[a]).code != views[j as int].code,
            decreases j - i,
        {
            if commands[i].code == commands[j].code {
                assert(views[i as int].code == views[j as int].code);
                return true;
            }
            i += 1;
        }
        j += 1;
    }
    false
}

/// Whether one of the commands is the default.
fn find_default(commands: &Vec<CommandArtifact>) -> (r: bool)
    ensures
        r == has_default(artifact_views(commands@)),
{
    let ghost views = artifact_views(commands@);
    let mut i: usize = 0;
    while i < commands.len()
        invariant
            i <= commands.len(),
            views == artifact_views(commands@),
            forall|a: int| 0 <= a < i ==> (#[trigger] views[a]).variant != default_variant(),
        decreases commands.len() - i,
    {
        if same_text(commands[i].variant.as_str(), "Nope") {
            assert(views[i as int].variant == default_variant());
            return true;
        }
        i += 1;
    }
    false
}

/// Holds the set of commands to what is asked of it.
///
/// With `Strict`, fails with `DuplicateName` where two commands would be
/// generated under one name, else with `DuplicateCode` where two have one
/// code, else with `MissingDefault` where none is the default. With
/// `Permissive` it never fails.
pub fn check_closed_set(commands: &Vec<CommandArtifact>, strictness: Strictness) -> (r: Result<
    (),
    PipelineError,
>)
    ensures
        match r {
            Ok(()) => closed_set(artifact_views(commands@), strictness) is Ok,
            Err(e) => closed_set(artifact_views(commands@), strictness) == Err::<
                (),
                PipelineErrorView,
            >(e@),
        },
{
    match strictness {
        Strictness::Permissive => Ok(()),
        Strictness::Strict => {
            if find_duplicate_names(commands) {
                Err(PipelineError::DuplicateName)
            } else if find_duplicate_codes(commands) {
                Err(PipelineError::DuplicateCode)
            } else if !find_default(commands) {
                Err(PipelineError::MissingDefault)
            } else {
                Ok(())
            }
        },
    }
}

/// Generates the table of all commands in the store, for an interface and a
/// dispatch type of the given names.
///
/// Fails as `entry_artifact` does on the first entry that it fails on, and
/// then as `check_closed_set` does.
pub fn generate_dispatch(
    store: &ManifestStore,
    interface: &str,
    target: &str,
    strictness: Strictness,
) -> (r: Result<DispatchTable, PipelineError>)
    ensures
        match r {
            Ok(table) => dispatch_table(store@, interface@, target@, strictness) == Ok::<
                TableView,
                PipelineErrorView,
            >(table@),
            Err(e) => dispatch_table(store@, interface@, target@, strictness) == Err::<
                TableView,
                PipelineErrorView,
            >(e@),
        },
{
    let ghost entries = store@.commands;
    let n = store.command_count();
    let mut commands: Vec<CommandArtifact> = Vec::new();
    let mut i: usize = 0;
    assert(entries.take(0).len() == 0);
    assert(artifact_views(commands@) =~= Seq::empty());
    while i < n
        invariant
            i <= n,
            n == entries.len(),
            entries == store@.commands,
            artifacts(entries.take(i as int)) == Ok::<Seq<ArtifactView>, PipelineErrorView>(
                artifact_views(commands@),
            ),
        decreases n - i,
    {
        let document = store.command_document_at(i);
        let ghost next = entries.take(i + 1);
        assert(next.drop_last() =~= entries.take(i as int));
        assert(next.last() == entries[i as int]);
        match entry_artifact(document.as_str()) {
            Err(e) => {
                proof {
                    failure_stays(entries, i + 1);
                }
                return Err(e);
            },
            Ok(a) => {
                let ghost before = artifact_views(commands@);
                commands.push(a);
                assert(artifact_views(commands@) =~= before.push(a@));
            },
        }
        i += 1;
    }
    assert(entries.take(n as int) =~= entries);
    match check_closed_set(&commands, strictness) {
        Err(e) => Err(e),
        Ok(()) => Ok(
            DispatchTable {
                interface: String::from_str(interface),
                target: String::from_str(target),
                commands,
            },
        ),
    }
}

/// Generates the table for the interface that `arg` names and the enum that
/// `input` declares, the set of commands taken as it stands.
///
/// Fails with `InvalidArguments` where `arg` is no identifier, with
/// `MalformedDeclaration` where `input` declares no enum, and as
/// `generate_dispatch` does.
pub fn generate_wgse_commands_impl(store: &ManifestStore, arg: &str, input: &str) -> (r: Result<
    DispatchTable,
    PipelineError,
>)
    ensures
        match r {
            Ok(table) => generated(store@, arg@, input@) == Ok::<TableView, PipelineErrorView>(
                table@,
            ),
            Err(e) => generated(store@, arg@, input@) == Err::<TableView, PipelineErrorView>(e@),
        },
{
    let interface = match split_identifier(arg) {
        Err(_) => {
            return Err(PipelineError::InvalidArguments);
        },
        Ok(interface) => interface,
    };
    let target = match split_enum(input) {
        Err(_) => {
            return Err(PipelineError::MalformedDeclaration);
        },
        Ok(target) => target,
    };
    generate_dispatch(store, interface.as_str(), target.as_str(), Strictness::Permissive)
}

/// What is generated for one command, as source text: the constant, the
/// unit type, and the implementation of the interface.
pub open spec fn command_text(a: ArtifactView, interface: Seq<char>) -> Seq<char> {
    let t = spaced("const"@, a.constant);
    let t = spaced(t, ": u64 ="@);
    let t = spaced(t, decimal_text(a.code as nat) + "u64"@);
    let t = spaced(t, "; # [derive (Debug , Default , Clone , Eq , PartialEq)] pub struct"@);
    let t = spaced(t, a.variant);
    let t = spaced(t, "; impl"@);
    let t = spaced(t, interface);
    let t = spaced(t, "for"@);
    let t = spaced(t, a.variant);
    let t = spaced(t, "{"@);
    let t = spaced(t, a.method);
    spaced(t, "}"@)
}

/// What is generated for the commands, one after the other.
pub open spec fn commands_text(commands: Seq<ArtifactView>, interface: Seq<char>) -> Seq<char>
    decreases commands.len(),
{
    if commands.len() == 0 {
        Seq::empty()
    } else {
        spaced(
            commands_text(commands.drop_last(), interface),
            command_text(commands.last(), interface),
        )
    }
}

/// The variants of the dispatch type, a comma behind each.
pub open spec fn variants_text(commands: Seq<ArtifactView>) -> Seq<char>
    decreases commands.len(),
{
    if commands.len() == 0 {
        Seq::empty()
    } else {
        spaced(spaced(variants_text(commands.drop_last()), commands.last().variant), ","@)
    }
}

/// The generated source: what is generated for each command, then the
/// dispatch type with one variant for each, then the rule that constructs
/// the default.
pub open spec fn table_text(table: TableView) -> Seq<char> {
    let t = spaced(commands_text(table.commands, table.interface), "# [enum_dispatch ("@);
    let t = spaced(t, table.interface);
    let t = spaced(t, ")] # [derive (Debug , Clone , Eq , PartialEq)] pub enum"@);
    let t = spaced(t, table.target);
    let t = spaced(t, "{"@);
    let t = spaced(t, variants_text(table.commands));
    let t = spaced(t, "} impl std :: default :: Default for"@);
    let t = spaced(t, table.target);
    let t = spaced(t, "{ fn default () -> Self {"@);
    let t = spaced(t, table.target);
    spaced(t, ":: Nope (Nope { }) } }"@)
}

/// Prints what is generated for one command.
fn render_command(a: &CommandArtifact, interface: &str) -> (out: String)
    ensures
        out@ == command_text(a@, interface@),
{
    let mut out = String::from_str("const");
    push_token(&mut out, a.constant.as_str());
    push_token(&mut out, ": u64 =");
    let mut code = render_decimal(a.code);
    code.append("u64");
    push_token(&mut out, code.as_str());
    push_token(&mut out, "; # [derive (Debug , Default , Clone , Eq , PartialEq)] pub struct");
    push_token(&mut out, a.variant.as_str());
    push_token(&mut out, "; impl");
    push_token(&mut out, interface);
    push_token(&mut out, "for");
    push_token(&mut out, a.variant.as_str());
    push_token(&mut out, "{");
    push_token(&mut out, a.method.as_str());
    push_token(&mut out, "}");
    out
}

impl DispatchTable {
    /// Prints the generated source.
    pub fn render(&self) -> (out: String)
        ensures
            out@ == table_text(self@),
    {
        let ghost views = artifact_views(self.commands@);
        let mut out = String::new();
        let mut variants = String::new();
        let mut i: usize = 0;
        while i < self.commands.len()
            invariant
                i <= self.commands.len(),
                views == artifact_views(self.commands@),
                out@ == commands_text(views.take(i as int), self.interface@),
                variants@ == variants_text(views.take(i as int)),
            decreases self.commands.len() - i,
        {
            let ghost next = views.take(i + 1);
            assert(next.drop_last() =~= views.take(i as int));
            assert(next.last() == self.commands[i as int]@);
            let piece = render_command(&self.commands[i], self.interface.as_str());
            push_token(&mut out, piece.as_str());
            push_token(&mut variants, self.commands[i].variant.as_str());
            push_token(&mut variants, ",");
            i += 1;
        }
        assert(views.take(i as int) =~= views);
        push_token(&mut out, "# [enum_dispatch (");
        push_token(&mut out, self.interface.as_str());
        push_token(&mut out, ")] # [derive (Debug , Clone , Eq , PartialEq)] pub enum");
        push_token(&mut out, self.target.as_str());
        push_token(&mut out, "{");
        push_token(&mut out, variants.as_str());
        push_token(&mut out, "} impl std :: default :: Default for");
        push_token(&mut out, self.target.as_str());
        push_token(&mut out, "{ fn default () -> Self {");
        push_token(&mut out, self.target.as_str());
        push_token(&mut out, ":: Nope (Nope { }) } }");
        out
    }
}

/// Generates the source of the dispatch type for the interface that `arg`
/// names and the enum that `input` declares: all of it, or nothing.
///
/// Fails as `generate_wgse_commands_impl` does.
pub fn generate_wgse_commands(store: &ManifestStore, arg: &str, input: &str) -> (r: Result<
    String,
    PipelineError,
>)
    ensures
        match generated(store@, arg@, input@) {
            Ok(table) => r matches Ok(source) && source@ == table_text(table),
            Err(e) => r matches Err(x) && x@ == e,
        },
{
    match generate_wgse_commands_impl(store, arg, input) {
        Err(e) => Err(e),
        Ok(table) => Ok(table.render()),
    }
}

} // verus!
