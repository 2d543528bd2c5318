//! Build-time diagnostics.
//!
//! A diagnostic is terminal: once extraction produces one, the invocation
//! yields it as its sole output and no code is generated.

use vstd::prelude::*;

verus! {

/// Why extraction rejected a declaration.
#[derive(Clone, Copy, Debug, PartialEq, Eq, Structural)]
pub enum DiagnosticKind {
    /// The declaration is not a record (product) type.
    UnsupportedShape,
    /// The record has positional or absent fields instead of named ones.
    UnsupportedFields,
}

/// A build-time error: its kind, a human-readable message, and the name of
/// the declaration it is anchored at.
#[derive(Debug)]
pub struct Diagnostic {
    pub kind: DiagnosticKind,
    pub message: String,
    pub anchor: String,
}

/// Spec-level image of a `Diagnostic`.
#[verifier::ext_equal]
pub struct DiagModel {
    pub kind: DiagnosticKind,
    pub message: Seq<char>,
    pub anchor: Seq<char>,
}

impl View for Diagnostic {
    type V = DiagModel;

    open spec fn view(&self) -> DiagModel {
        DiagModel { kind: self.kind, message: self.message@, anchor: self.anchor@ }
    }
}

} // verus!
