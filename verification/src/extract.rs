//! Metadata extraction: from a raw declaration to a normalized shape
//! descriptor, or a terminal diagnostic.

use vstd::prelude::*;
use crate::decl::{BodyModel, DeclBody, Declaration, TypeShapeDescriptor};
use crate::diag::{DiagModel, Diagnostic, DiagnosticKind};

verus! {

/// Message attached to an `UnsupportedShape` diagnostic.
pub open spec fn shape_message() -> Seq<char> {
    "Only struct type is allowed"@
}

/// Message attached to an `UnsupportedFields` diagnostic.
pub open spec fn fields_message() -> Seq<char> {
    "Only named fields are allowed"@
}

/// Validates a declaration and normalizes it into a shape descriptor.
///
/// A record with named fields (possibly none) passes through with its name,
/// visibility and field order intact; any other body is rejected with the
/// matching diagnostic, anchored at the declaration's name.
pub fn parse(decl: Declaration) -> (r: Result<TypeShapeDescriptor, Diagnostic>)
    ensures
        decl@.body matches BodyModel::NamedRecord(fields) ==> (r matches Ok(shape)
            && shape@.name == decl@.name
            && shape@.vis == decl@.vis
            && shape@.fields == fields),
        decl@.body is OtherFields ==> (r matches Err(d)
            && d@ == (DiagModel {
                kind: DiagnosticKind::UnsupportedFields,
                message: fields_message(),
                anchor: decl@.name,
            })),
        decl@.body is NonRecord ==> (r matches Err(d)
            && d@ == (DiagModel {
                kind: DiagnosticKind::UnsupportedShape,
                message: shape_message(),
                anchor: decl@.name,
            })),
{
    let Declaration { name, vis, body } = decl;
    match body {
        DeclBody::NamedRecord(fields) => Ok(TypeShapeDescriptor { name, vis, fields }),
        DeclBody::OtherFields => Err(Diagnostic {
            kind: DiagnosticKind::UnsupportedFields,
            message: "Only named fields are allowed".to_owned(),
            anchor: name,
        }),
        DeclBody::NonRecord => Err(Diagnostic {
            kind: DiagnosticKind::UnsupportedShape,
            message: "Only struct type is allowed".to_owned(),
            anchor: name,
        }),
    }
}

} // verus!
