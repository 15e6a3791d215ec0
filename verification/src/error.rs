//! The ways in which a stage of the pipeline fails. Every failure is final
//! for the run that met it.

use vstd::prelude::*;
use vstd::string::StringExecFns;

verus! {

#[derive(Clone, Debug, PartialEq, Eq)]
pub enum PipelineError {
    /// The arguments of a registration are not a code and a name.
    InvalidArguments,
    /// The text handed to a stage is not the declaration it must be.
    MalformedDeclaration,
    /// No interface has been recorded yet.
    InterfaceMissing,
    /// The handler's canonical signature is not that of the interface.
    SignatureMismatch { expected: String, found: String },
    /// Nothing is kept under the key.
    NotFound,
    /// A record cannot be read, or lacks what it must hold.
    StorageIoError,
    /// The stored body of a command cannot be read as a function.
    MalformedManifestBody,
    /// A name that must become an identifier is none.
    InvalidName,
    /// Two commands have the same code.
    DuplicateCode,
    /// Two commands have the same name.
    DuplicateName,
    /// No command has the name of the default entry.
    MissingDefault,
}

pub enum PipelineErrorView {
    InvalidArguments,
    MalformedDeclaration,
    InterfaceMissing,
    SignatureMismatch { expected: Seq<char>, found: Seq<char> },
    NotFound,
    StorageIoError,
    MalformedManifestBody,
    InvalidName,
    DuplicateCode,
    DuplicateName,
    MissingDefault,
}

impl View for PipelineError {
    type V = PipelineErrorView;

    open spec fn view(&self) -> PipelineErrorView {
        match self {
            PipelineError::InvalidArguments => PipelineErrorView::InvalidArguments,
            PipelineError::MalformedDeclaration => PipelineErrorView::MalformedDeclaration,
            PipelineError::InterfaceMissing => PipelineErrorView::InterfaceMissing,
            PipelineError::SignatureMismatch { expected, found } => {
                PipelineErrorView::SignatureMismatch { expected: expected@, found: found@ }
            },
            PipelineError::NotFound => PipelineErrorView::NotFound,
            PipelineError::StorageIoError => PipelineErrorView::StorageIoError,
            PipelineError::MalformedManifestBody => PipelineErrorView::MalformedManifestBody,
            PipelineError::InvalidName => PipelineErrorView::InvalidName,
            PipelineError::DuplicateCode => PipelineErrorView::DuplicateCode,
            PipelineError::DuplicateName => PipelineErrorView::DuplicateName,
            PipelineError::MissingDefault => PipelineErrorView::MissingDefault,
        }
    }
}

/// What the operator is told of a failure. A missing interface names the step
/// that records it; a mismatch shows both canonical signatures.
pub open spec fn message_text(e: PipelineErrorView) -> Seq<char> {
    match e {
        PipelineErrorView::InvalidArguments => {
            "expected `#[wgse_command(<code: u8>, <name: str>)]`"@
        },
        PipelineErrorView::MalformedDeclaration => "expected a function declaration"@,
        PipelineErrorView::InterfaceMissing => {
            "no interface signature found, considered run `cargo build --features meta_init` before use this macro"@
        },
        PipelineErrorView::SignatureMismatch { expected, found } => {
            "interface signature unconsistent, expected `"@ + expected + "`, found `"@ + found
                + "`"@
        },
        PipelineErrorView::NotFound => "no manifest record under this key"@,
        PipelineErrorView::StorageIoError => "cannot read a manifest record"@,
        PipelineErrorView::MalformedManifestBody => "cannot parse the stored body of a command"@,
        PipelineErrorView::InvalidName => "a command's name does not make an identifier"@,
        PipelineErrorView::DuplicateCode => "two commands share one code"@,
        PipelineErrorView::DuplicateName => "two commands share one name"@,
        PipelineErrorView::MissingDefault => "no command is named `Nope`"@,
    }
}

impl PipelineError {
    /// The message of this failure.
    pub fn message(&self) -> (text: String)
        ensures
            text@ == message_text(self@),
    {
        match self {
            PipelineError::InvalidArguments => String::from_str(
                "expected `#[wgse_command(<code: u8>, <name: str>)]`",
            ),
            PipelineError::MalformedDeclaration => String::from_str(
                "expected a function declaration",
            ),
            PipelineError::InterfaceMissing => String::from_str(
                "no interface signature found, considered run `cargo build --features meta_init` before use this macro",
            ),
            PipelineError::SignatureMismatch { expected, found } => {
                let mut text = String::from_str("interface signature unconsistent, expected `");
                text.append(expected.as_str());
                text.append("`, found `");
                text.append(found.as_str());
                text.append("`");
                text
            },
            PipelineError::NotFound => String::from_str("no manifest record under this key"),
            PipelineError::StorageIoError => String::from_str("cannot read a manifest record"),
            PipelineError::MalformedManifestBody => String::from_str(
                "cannot parse the stored body of a command",
            ),
            PipelineError::InvalidName => String::from_str(
                "a command's name does not make an identifier",
            ),
            PipelineError::DuplicateCode => String::from_str("two commands share one code"),
            PipelineError::DuplicateName => String::from_str("two commands share one name"),
            PipelineError::MissingDefault => String::from_str("no command is named `Nope`"),
        }
    }
}

} // verus!
