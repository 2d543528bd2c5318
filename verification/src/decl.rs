//! Structural model of an incoming type declaration.
//!
//! The host toolchain hands the generator one declaration per invocation:
//! the declared name, its visibility, and a classification of its body.
//! Names, visibilities and field types are carried as plain text, to be
//! echoed verbatim into the generated declarations; the generator never
//! interprets them.

use vstd::prelude::*;

verus! {

/// One named field of a record declaration: its name and the textual
/// reference to its type.
#[derive(Debug)]
pub struct FieldDescriptor {
    pub name: String,
    pub ty: String,
}

/// Spec-level image of a `FieldDescriptor`.
#[verifier::ext_equal]
pub struct FieldModel {
    pub name: Seq<char>,
    pub ty: Seq<char>,
}

impl View for FieldDescriptor {
    type V = FieldModel;

    open spec fn view(&self) -> FieldModel {
        FieldModel { name: self.name@, ty: self.ty@ }
    }
}

/// The views of a sequence of viewable values, element by element.
pub open spec fn views_of<T: View>(s: Seq<T>) -> Seq<T::V> {
    s.map_values(|t: T| t@)
}

/// Classification of a declaration's body, as the host toolchain reports it.
#[derive(Debug)]
pub enum DeclBody {
    /// A record whose fields are all named; the list may be empty.
    NamedRecord(Vec<FieldDescriptor>),
    /// A record with positional or absent fields.
    OtherFields,
    /// Not a record at all: a sum type, or a declaration without a body.
    NonRecord,
}

/// Spec-level image of a `DeclBody`.
#[verifier::ext_equal]
pub enum BodyModel {
    NamedRecord(Seq<FieldModel>),
    OtherFields,
    NonRecord,
}

impl View for DeclBody {
    type V = BodyModel;

    open spec fn view(&self) -> BodyModel {
        match self {
            DeclBody::NamedRecord(fields) => BodyModel::NamedRecord(views_of(fields@)),
            DeclBody::OtherFields => BodyModel::OtherFields,
            DeclBody::NonRecord => BodyModel::NonRecord,
        }
    }
}

/// A raw type declaration, exactly as handed over by the host toolchain.
#[derive(Debug)]
pub struct Declaration {
    pub name: String,
    pub vis: String,
    pub body: DeclBody,
}

/// Spec-level image of a `Declaration`.
#[verifier::ext_equal]
pub struct DeclModel {
    pub name: Seq<char>,
    pub vis: Seq<char>,
    pub body: BodyModel,
}

impl View for Declaration {
    type V = DeclModel;

    open spec fn view(&self) -> DeclModel {
        DeclModel { name: self.name@, vis: self.vis@, body: self.body@ }
    }
}

/// The normalized result of extraction: a record declaration known to have
/// only named fields, kept in declaration order.
#[derive(Debug)]
pub struct TypeShapeDescriptor {
    pub name: String,
    pub vis: String,
    pub fields: Vec<FieldDescriptor>,
}

/// Spec-level image of a `TypeShapeDescriptor`.
#[verifier::ext_equal]
pub struct ShapeModel {
    pub name: Seq<char>,
    pub vis: Seq<char>,
    pub fields: Seq<FieldModel>,
}

impl View for TypeShapeDescriptor {
    type V = ShapeModel;

    open spec fn view(&self) -> ShapeModel {
        ShapeModel { name: self.name@, vis: self.vis@, fields: views_of(self.fields@) }
    }
}

} // verus!
