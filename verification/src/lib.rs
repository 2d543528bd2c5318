//! A compile-time builder generator.
//!
//! Given the structural description of a record type — its name, its
//! visibility, and its ordered list of named fields — the library
//! synthesizes a companion builder type together with fluent per-field
//! mutators, a validating finalizer, and a factory on the origin type.
//! The result is a structured tree of declarations for the host toolchain
//! to splice into the surrounding program; a declaration that is not a
//! record with named fields yields a terminal diagnostic instead.

use vstd::prelude::*;

pub mod decl;
pub mod diag;
pub mod extract;
pub mod semantics;
pub mod synth;

use vstd::string::StringExecFns;
use crate::decl::{BodyModel, Declaration};
use crate::diag::{DiagModel, Diagnostic, DiagnosticKind};
use crate::extract::{fields_message, parse, shape_message};
use crate::synth::{
    builder_declare, builder_build, builder_setters, init_builder, spec_unit, GeneratedUnit,
};

verus! {

/// The pipeline driver: runs extraction on one declaration and, if it
/// succeeds, the four synthesizers against the one shape descriptor,
/// concatenating their fragments into the generated unit.
///
/// Generation is all-or-nothing: a rejected declaration yields the
/// extraction diagnostic as the invocation's sole output, and no fragment
/// of generated code.
pub fn generate(decl: Declaration) -> (r: Result<GeneratedUnit, Diagnostic>)
    ensures
        decl@.body matches BodyModel::NamedRecord(fields) ==> (r matches Ok(unit)
            && unit@ == spec_unit(decl@.name, decl@.vis, fields)),
        decl@.body is OtherFields ==> (r matches Err(d)
            && d@ == (DiagModel {
                kind: DiagnosticKind::UnsupportedFields,
                message: fields_message(),
                anchor: decl@.name,
            })),
        decl@.body is NonRecord ==> (r matches Err(d)
            && d@ == (DiagModel {
                kind: DiagnosticKind::UnsupportedShape,
                message: shape_message(),
                anchor: decl@.name,
            })),
{
    let shape = match parse(decl) {
        Ok(shape) => shape,
        Err(diagnostic) => {
            return Err(diagnostic);
        },
    };
    let builder_ident = shape.name.clone().concat("Builder");
    let builder_type = builder_declare(&builder_ident, &shape.vis, &shape.fields);
    let setters = builder_setters(&shape.fields);
    let finalizer = builder_build(&shape.name, &shape.fields);
    let factory = init_builder(&shape.name, &builder_ident, &shape.fields);
    Ok(GeneratedUnit { builder_type, setters, finalizer, factory })
}

} // verus!
