//! The first stage: recording the signature that every handler must match.

use crate::canonical::{interface_text, render_interface};
use crate::declaration::{interface_model, parse_interface_method, Declaration, DeclarationView};
use crate::error::{PipelineError, PipelineErrorView};
use crate::record::{document_of, Record, RecordView};
use crate::store::{with_document, Key, KeyView, ManifestStore, StoreView};
use vstd::prelude::*;
use vstd::string::StringExecFns;

verus! {

/// The record of the interface that a declaration makes: its canonical text
/// and nothing else.
pub open spec fn interface_record(d: DeclarationView) -> RecordView {
    RecordView { name: None, code: None, raw: Some(interface_text(d)) }
}

/// The store after the interface was captured from `d`.
pub open spec fn captured(store: StoreView, d: DeclarationView) -> StoreView {
    with_document(store, KeyView::Interface, document_of(interface_record(d)))
}

/// Records the interface from a parsed declaration, in the place of any
/// interface recorded before.
pub fn capture_interface(store: &mut ManifestStore, decl: &Declaration)
    ensures
        final(store)@ == captured(old(store)@, decl@),
{
    let record = Record { name: None, code: None, raw: Some(render_interface(decl)) };
    store.put(&Key::Interface, &record);
}

/// Records the interface from the text of the method that declares it, and
/// hands the text back unchanged.
///
/// Fails with `MalformedDeclaration`, and leaves the store as it is, where
/// the text is no method of a trait.
pub fn wgse_command_interface(store: &mut ManifestStore, input: &str) -> (r: Result<
    String,
    PipelineError,
>)
    ensures
        match interface_model(input@) {
            Some(d) => {
                &&& r matches Ok(output) && output@ == input@
                &&& final(store)@ == captured(old(store)@, d)
            },
            None => {
                &&& r matches Err(e) && e@ == PipelineErrorView::MalformedDeclaration
                &&& final(store)@ == old(store)@
            },
        },
{
    match parse_interface_method(input) {
        None => Err(PipelineError::MalformedDeclaration),
        Some(decl) => {
            capture_interface(store, &decl);
            Ok(String::from_str(input))
        },
    }
}

} // verus!
