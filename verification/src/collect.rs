//! The second stage: holding one handler against the interface and recording
//! it under the key of its name.

use crate::args::{meta_args_model, MetaArgs, MetaArgsView};
use crate::canonical::{as_method, canonical_signature, insert_receiver, render_canonical};
use crate::declaration::{handler_model, parse_handler, Declaration, DeclarationView};
use crate::error::{PipelineError, PipelineErrorView};
use crate::naming::command_key;
use crate::record::{document_of, Record, RecordView};
use crate::render::{declaration_text, render_declaration};
use crate::store::{
    got, put_again_overwrites, put_keeps_others, with_document, Key, KeyView, ManifestStore,
    StoreView,
};
use crate::text::same_text;
use vstd::prelude::*;
use vstd::string::StringExecFns;

verus! {

/// The signature that the store asks of every handler. It is missing where
/// no interface was ever recorded, and where what was recorded has no text.
pub open spec fn interface_signature(store: StoreView) -> Result<Seq<char>, PipelineErrorView> {
    match got(store, KeyView::Interface) {
        Err(PipelineErrorView::NotFound) => Err(PipelineErrorView::InterfaceMissing),
        Err(e) => Err(e),
        Ok(record) => match record.raw {
            None => Err(PipelineErrorView::InterfaceMissing),
            Some(text) => Ok(text),
        },
    }
}

/// Whether a handler may be recorded: its canonical signature, with the
/// receiver put first, must be the text of the interface.
pub open spec fn validated(store: StoreView, d: DeclarationView) -> Result<
    (),
    PipelineErrorView,
> {
    match interface_signature(store) {
        Err(e) => Err(e),
        Ok(expected) => {
            let found = canonical_signature(d, true);
            if expected == found {
                Ok(())
            } else {
                Err(PipelineErrorView::SignatureMismatch { expected, found })
            }
        },
    }
}

/// The record of a command: its name, its code, and its declaration as a
/// method that can implement the interface.
pub open spec fn command_record(args: MetaArgsView, d: DeclarationView) -> RecordView {
    RecordView {
        name: Some(args.name),
        code: Some(args.code),
        raw: Some(declaration_text(as_method(d))),
    }
}

/// The store after the command was recorded.
pub open spec fn recorded(store: StoreView, args: MetaArgsView, d: DeclarationView) -> StoreView {
    with_document(
        store,
        KeyView::Command(command_key(args.name)),
        document_of(command_record(args, d)),
    )
}

/// What collecting a parsed handler comes to: the store with the command
/// recorded, or the failure that left it as it was.
pub open spec fn collected(store: StoreView, args: MetaArgsView, d: DeclarationView) -> Result<
    StoreView,
    PipelineErrorView,
> {
    match validated(store, d) {
        Err(e) => Err(e),
        Ok(()) => Ok(recorded(store, args, d)),
    }
}

/// What the stage hands back to the surrounding program: the declaration
/// itself where it is to stay callable, nothing where it is consumed.
pub open spec fn retained(input: Seq<char>, retain_original: bool) -> Seq<char> {
    if retain_original {
        input
    } else {
        Seq::empty()
    }
}

/// What registering the text of a handler comes to.
pub open spec fn registered(store: StoreView, args: Seq<char>, input: Seq<char>) -> Result<
    StoreView,
    PipelineErrorView,
> {
    match meta_args_model(args) {
        None => Err(PipelineErrorView::InvalidArguments),
        Some(parsed) => match handler_model(input) {
            None => Err(PipelineErrorView::MalformedDeclaration),
            Some(d) => collected(store, parsed, d),
        },
    }
}

/// Collection needs the interface: on a store in which no interface was
/// ever recorded, every handler is refused with `InterfaceMissing`, whatever
/// its arguments and its signature are.
pub proof fn collection_needs_interface(store: StoreView, args: MetaArgsView, d: DeclarationView)
    requires
        store.interface is None,
    ensures
        collected(store, args, d) == Err::<StoreView, PipelineErrorView>(
            PipelineErrorView::InterfaceMissing,
        ),
{
}

/// Registering again overwrites: recording two commands whose names give
/// one key leaves what recording the second alone would have left.
pub proof fn recording_again_overwrites(
    store: StoreView,
    first: MetaArgsView,
    first_decl: DeclarationView,
    second: MetaArgsView,
    second_decl: DeclarationView,
)
    requires
        command_key(first.name) == command_key(second.name),
    ensures
        recorded(recorded(store, first, first_decl), second, second_decl) == recorded(
            store,
            second,
            second_decl,
        ),
{
    put_again_overwrites(
        store,
        KeyView::Command(command_key(second.name)),
        document_of(command_record(first, first_decl)),
        document_of(command_record(second, second_decl)),
    );
}

/// Recording a command leaves the interface as it was, so that what was
/// accepted once is accepted again.
pub proof fn recording_keeps_interface(store: StoreView, args: MetaArgsView, d: DeclarationView)
    ensures
        interface_signature(recorded(store, args, d)) == interface_signature(store),
{
    put_keeps_others(
        store,
        KeyView::Command(command_key(args.name)),
        document_of(command_record(args, d)),
        KeyView::Interface,
    );
}

/// Reads the signature that the store asks of every handler.
///
/// Fails with `InterfaceMissing` where no interface was recorded, and with
/// `StorageIoError` where its record cannot be read.
pub fn read_interface(store: &ManifestStore) -> (r: Result<String, PipelineError>)
    ensures
        match r {
            Ok(text) => interface_signature(store@) == Ok::<Seq<char>, PipelineErrorView>(text@),
            Err(e) => interface_signature(store@) == Err::<Seq<char>, PipelineErrorView>(e@),
        },
{
    match store.get(&Key::Interface) {
        Err(PipelineError::NotFound) => Err(PipelineError::InterfaceMissing),
        Err(e) => Err(e),
        Ok(record) => match record.raw {
            None => Err(PipelineError::InterfaceMissing),
            Some(text) => Ok(text),
        },
    }
}

/// Holds a parsed handler against the interface and records it under the key
/// of its name, in the place of any record of that name.
///
/// Fails, and leaves the store as it is, with `InterfaceMissing` where no
/// interface was recorded, with `StorageIoError` where its record cannot be
/// read, and with `SignatureMismatch` where the handler's canonical
/// signature is not the interface's; the error carries both.
pub fn collect_command(store: &mut ManifestStore, args: &MetaArgs, decl: Declaration) -> (r: Result<
    (),
    PipelineError,
>)
    ensures
        match collected(old(store)@, args@, decl@) {
            Ok(after) => r is Ok && final(store)@ == after,
            Err(e) => r matches Err(x) && x@ == e && final(store)@ == old(store)@,
        },
{
    let expected = match read_interface(store) {
        Err(e) => {
            return Err(e);
        },
        Ok(expected) => expected,
    };
    let found = render_canonical(&decl, true);
    if !same_text(expected.as_str(), found.as_str()) {
        return Err(PipelineError::SignatureMismatch { expected, found });
    }
    let ghost d = decl@;
    let method = insert_receiver(decl);
    let record = Record {
        name: Some(args.name.clone()),
        code: Some(args.code),
        raw: Some(render_declaration(&method)),
    };
    assert(record@ == command_record(args@, d));
    store.put(&Key::of_command(args.name.as_str()), &record);
    Ok(())
}

/// Registers one handler: reads its arguments and its declaration, holds it
/// against the interface, and records it. Hands back the declaration itself
/// where `retain_original` is set, and nothing where it is not.
///
/// Fails, and leaves the store as it is, with `InvalidArguments` where the
/// arguments are not a code and a name, with `MalformedDeclaration` where the
/// input is no function with a body, and as `collect_command` does.
pub fn wgse_command(
    store: &mut ManifestStore,
    args: &str,
    input: &str,
    retain_original: bool,
) -> (r: Result<String, PipelineError>)
    ensures
        match registered(old(store)@, args@, input@) {
            Ok(after) => r matches Ok(output) && output@ == retained(input@, retain_original)
                && final(store)@ == after,
            Err(e) => r matches Err(x) && x@ == e && final(store)@ == old(store)@,
        },
{
    let meta_args = match MetaArgs::parse(args) {
        Err(e) => {
            return Err(e);
        },
        Ok(meta_args) => meta_args,
    };
    let decl = match parse_handler(input) {
        None => {
            return Err(PipelineError::MalformedDeclaration);
        },
        Some(decl) => decl,
    };
    match collect_command(store, &meta_args, decl) {
        Err(e) => Err(e),
        Ok(()) => if retain_original {
            Ok(String::from_str(input))
        } else {
            Ok(String::new())
        },
    }
}

} // verus!
