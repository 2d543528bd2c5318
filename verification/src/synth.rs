//! Code synthesis: the structured tree of declarations that one invocation
//! generates, and the four synthesizers that emit its fragments.
//!
//! Generated code is represented as data, not text: each fragment is a small
//! declaration node that the host toolchain can splice without re-parsing.
//! Names, visibilities and type references are echoed verbatim from the
//! shape descriptor.

use vstd::prelude::*;
use vstd::string::StringExecFns;
use crate::decl::{views_of, FieldDescriptor, FieldModel};

verus! {

/// Name of the companion builder type: the origin's name with `Builder`
/// appended.
pub open spec fn builder_name_of(origin: Seq<char>) -> Seq<char> {
    origin + "Builder"@
}

/// Message carried by the error that the synthesized finalizer returns at the
/// caller's runtime when the slot for `field` was never filled.
pub open spec fn missing_message_of(field: Seq<char>) -> Seq<char> {
    field + " is required."@
}

/// One builder field: `name`, declared with the optional wrapper around the
/// origin field's type `ty`.
#[derive(Debug)]
pub struct OptionalField {
    pub name: String,
    pub ty: String,
}

/// Spec-level image of an `OptionalField`.
#[verifier::ext_equal]
pub struct OptionalFieldModel {
    pub name: Seq<char>,
    pub ty: Seq<char>,
}

impl View for OptionalField {
    type V = OptionalFieldModel;

    open spec fn view(&self) -> OptionalFieldModel {
        OptionalFieldModel { name: self.name@, ty: self.ty@ }
    }
}

/// The synthesized builder type declaration: the origin's visibility, the
/// `Builder`-suffixed name, and one optional slot per origin field.
#[derive(Debug)]
pub struct BuilderTypeDecl {
    pub vis: String,
    pub name: String,
    pub fields: Vec<OptionalField>,
}

/// Spec-level image of a `BuilderTypeDecl`.
#[verifier::ext_equal]
pub struct BuilderTypeModel {
    pub vis: Seq<char>,
    pub name: Seq<char>,
    pub fields: Seq<OptionalFieldModel>,
}

impl View for BuilderTypeDecl {
    type V = BuilderTypeModel;

    open spec fn view(&self) -> BuilderTypeModel {
        BuilderTypeModel { vis: self.vis@, name: self.name@, fields: views_of(self.fields@) }
    }
}

/// One fluent mutator on the builder: an operation named after `field`,
/// taking one argument of type `ty`, storing it in the matching slot, and
/// returning the builder for chaining.
#[derive(Debug)]
pub struct SetterOp {
    pub field: String,
    pub ty: String,
}

/// Spec-level image of a `SetterOp`.
#[verifier::ext_equal]
pub struct SetterModel {
    pub field: Seq<char>,
    pub ty: Seq<char>,
}

impl View for SetterOp {
    type V = SetterModel;

    open spec fn view(&self) -> SetterModel {
        SetterModel { field: self.field@, ty: self.ty@ }
    }
}

/// One completeness check inside the finalizer: if the slot for `field` is
/// empty, return an error carrying `message`.
#[derive(Debug)]
pub struct CompletenessCheck {
    pub field: String,
    pub message: String,
}

/// Spec-level image of a `CompletenessCheck`.
#[verifier::ext_equal]
pub struct CheckModel {
    pub field: Seq<char>,
    pub message: Seq<char>,
}

impl View for CompletenessCheck {
    type V = CheckModel;

    open spec fn view(&self) -> CheckModel {
        CheckModel { field: self.field@, message: self.message@ }
    }
}

/// One field binding of the constructed instance: the origin field `field`
/// takes a duplicate of the content of the builder slot of the same name.
#[derive(Debug)]
pub struct FieldInit {
    pub field: String,
}

/// Spec-level image of a `FieldInit`.
#[verifier::ext_equal]
pub struct InitModel {
    pub field: Seq<char>,
}

impl View for FieldInit {
    type V = InitModel;

    open spec fn view(&self) -> InitModel {
        InitModel { field: self.field@ }
    }
}

/// The synthesized finalizer on the builder: checks every slot in declaration
/// order, then constructs an instance of `origin` from the slot contents.
#[derive(Debug)]
pub struct FinalizerOp {
    pub origin: String,
    pub checks: Vec<CompletenessCheck>,
    pub inits: Vec<FieldInit>,
}

/// Spec-level image of a `FinalizerOp`.
#[verifier::ext_equal]
pub struct FinalizerModel {
    pub origin: Seq<char>,
    pub checks: Seq<CheckModel>,
    pub inits: Seq<InitModel>,
}

impl View for FinalizerOp {
    type V = FinalizerModel;

    open spec fn view(&self) -> FinalizerModel {
        FinalizerModel {
            origin: self.origin@,
            checks: views_of(self.checks@),
            inits: views_of(self.inits@),
        }
    }
}

/// The synthesized factory on the origin type: constructs a fresh builder
/// with every listed slot empty.
#[derive(Debug)]
pub struct FactoryOp {
    pub origin: String,
    pub builder_name: String,
    pub empty_fields: Vec<String>,
}

/// Spec-level image of a `FactoryOp`.
#[verifier::ext_equal]
pub struct FactoryModel {
    pub origin: Seq<char>,
    pub builder_name: Seq<char>,
    pub empty_fields: Seq<Seq<char>>,
}

impl View for FactoryOp {
    type V = FactoryModel;

    open spec fn view(&self) -> FactoryModel {
        FactoryModel {
            origin: self.origin@,
            builder_name: self.builder_name@,
            empty_fields: views_of(self.empty_fields@),
        }
    }
}

/// Everything one successful invocation generates.
#[derive(Debug)]
pub struct GeneratedUnit {
    pub builder_type: BuilderTypeDecl,
    pub setters: Vec<SetterOp>,
    pub finalizer: FinalizerOp,
    pub factory: FactoryOp,
}

/// Spec-level image of a `GeneratedUnit`.
#[verifier::ext_equal]
pub struct UnitModel {
    pub builder_type: BuilderTypeModel,
    pub setters: Seq<SetterModel>,
    pub finalizer: FinalizerModel,
    pub factory: FactoryModel,
}

impl View for GeneratedUnit {
    type V = UnitModel;

    open spec fn view(&self) -> UnitModel {
        UnitModel {
            builder_type: self.builder_type@,
            setters: views_of(self.setters@),
            finalizer: self.finalizer@,
            factory: self.factory@,
        }
    }
}

/// The builder type's fields: each origin field, optional-wrapped, in order.
pub open spec fn spec_optional_fields(fields: Seq<FieldModel>) -> Seq<OptionalFieldModel> {
    fields.map_values(|f: FieldModel| OptionalFieldModel { name: f.name, ty: f.ty })
}

/// The builder type declaration for a shape.
pub open spec fn spec_builder_type(
    builder_name: Seq<char>,
    vis: Seq<char>,
    fields: Seq<FieldModel>,
) -> BuilderTypeModel {
    BuilderTypeModel { vis, name: builder_name, fields: spec_optional_fields(fields) }
}

/// The mutators for a shape: one per field, in order.
pub open spec fn spec_setters(fields: Seq<FieldModel>) -> Seq<SetterModel> {
    fields.map_values(|f: FieldModel| SetterModel { field: f.name, ty: f.ty })
}

/// The finalizer's completeness checks: one per field, in order, each with
/// the field's missing-field message.
pub open spec fn spec_checks(fields: Seq<FieldModel>) -> Seq<CheckModel> {
    fields.map_values(
        |f: FieldModel| CheckModel { field: f.name, message: missing_message_of(f.name) },
    )
}

/// The finalizer's field bindings: one per field, in order.
pub open spec fn spec_inits(fields: Seq<FieldModel>) -> Seq<InitModel> {
    fields.map_values(|f: FieldModel| InitModel { field: f.name })
}

/// The whole finalizer for a shape.
pub open spec fn spec_finalizer(origin: Seq<char>, fields: Seq<FieldModel>) -> FinalizerModel {
    FinalizerModel { origin, checks: spec_checks(fields), inits: spec_inits(fields) }
}

/// The factory for a shape: every field listed as an empty slot.
pub open spec fn spec_factory(origin: Seq<char>, fields: Seq<FieldModel>) -> FactoryModel {
    FactoryModel {
        origin,
        builder_name: builder_name_of(origin),
        empty_fields: fields.map_values(|f: FieldModel| f.name),
    }
}

/// The whole generated unit for a shape.
pub open spec fn spec_unit(origin: Seq<char>, vis: Seq<char>, fields: Seq<FieldModel>) -> UnitModel {
    UnitModel {
        builder_type: spec_builder_type(builder_name_of(origin), vis, fields),
        setters: spec_setters(fields),
        finalizer: spec_finalizer(origin, fields),
        factory: spec_factory(origin, fields),
    }
}

/// The synthesized builder type mirrors the origin record: exactly one
/// optional slot per origin field, with the same name, the same type
/// reference, and the same position.
pub proof fn lemma_builder_mirrors_fields(fields: Seq<FieldModel>)
    ensures
        spec_optional_fields(fields).len() == fields.len(),
        forall|i: int|
            0 <= i < fields.len() ==> #[trigger] spec_optional_fields(fields)[i].name
                == fields[i].name,
        forall|i: int|
            0 <= i < fields.len() ==> #[trigger] spec_optional_fields(fields)[i].ty
                == fields[i].ty,
{
}

/// Synthesizes the builder type declaration: the origin's visibility, the
/// builder name handed in by the driver, and one optional slot per origin
/// field, in declaration order.
pub fn builder_declare(
    builder_ident: &String,
    vis: &String,
    fields: &Vec<FieldDescriptor>,
) -> (r: BuilderTypeDecl)
    ensures
        r@ == spec_builder_type(builder_ident@, vis@, views_of(fields@)),
{
    let mut out: Vec<OptionalField> = Vec::new();
    for i in 0..fields.len()
        invariant
            out@.len() == i,
            views_of(out@) == spec_optional_fields(views_of(fields@)).take(i as int),
    {
        out.push(OptionalField { name: fields[i].name.clone(), ty: fields[i].ty.clone() });
        proof {
            assert(views_of(out@) =~= spec_optional_fields(views_of(fields@)).take(i + 1));
        }
    }
    let r = BuilderTypeDecl { vis: vis.clone(), name: builder_ident.clone(), fields: out };
    proof {
        assert(views_of(r.fields@) =~= spec_optional_fields(views_of(fields@)));
    }
    r
}

/// Synthesizes one fluent mutator per origin field, in declaration order.
pub fn builder_setters(fields: &Vec<FieldDescriptor>) -> (r: Vec<SetterOp>)
    ensures
        views_of(r@) == spec_setters(views_of(fields@)),
{
    let mut out: Vec<SetterOp> = Vec::new();
    for i in 0..fields.len()
        invariant
            out@.len() == i,
            views_of(out@) == spec_setters(views_of(fields@)).take(i as int),
    {
        out.push(SetterOp { field: fields[i].name.clone(), ty: fields[i].ty.clone() });
        proof {
            assert(views_of(out@) =~= spec_setters(views_of(fields@)).take(i + 1));
        }
    }
    proof {
        assert(views_of(out@) =~= spec_setters(views_of(fields@)));
    }
    out
}

/// Synthesizes the finalizer's completeness checks: one per origin field, in
/// declaration order, each carrying that field's missing-field message.
pub fn builder_build_checkers(fields: &Vec<FieldDescriptor>) -> (r: Vec<CompletenessCheck>)
    ensures
        views_of(r@) == spec_checks(views_of(fields@)),
{
    let mut out: Vec<CompletenessCheck> = Vec::new();
    for i in 0..fields.len()
        invariant
            out@.len() == i,
            views_of(out@) == spec_checks(views_of(fields@)).take(i as int),
    {
        let message = fields[i].name.clone().concat(" is required.");
        out.push(CompletenessCheck { field: fields[i].name.clone(), message });
        proof {
            assert(views_of(out@) =~= spec_checks(views_of(fields@)).take(i + 1));
        }
    }
    proof {
        assert(views_of(out@) =~= spec_checks(views_of(fields@)));
    }
    out
}

/// Synthesizes the finalizer's field bindings: one per origin field, in
/// declaration order.
pub fn builder_build_ret(fields: &Vec<FieldDescriptor>) -> (r: Vec<FieldInit>)
    ensures
        views_of(r@) == spec_inits(views_of(fields@)),
{
    let mut out: Vec<FieldInit> = Vec::new();
    for i in 0..fields.len()
        invariant
            out@.len() == i,
            views_of(out@) == spec_inits(views_of(fields@)).take(i as int),
    {
        out.push(FieldInit { field: fields[i].name.clone() });
        proof {
            assert(views_of(out@) =~= spec_inits(views_of(fields@)).take(i + 1));
        }
    }
    proof {
        assert(views_of(out@) =~= spec_inits(views_of(fields@)));
    }
    out
}

/// Synthesizes the whole finalizer: checks first, then the construction of
/// the origin instance.
pub fn builder_build(ident: &String, fields: &Vec<FieldDescriptor>) -> (r: FinalizerOp)
    ensures
        r@ == spec_finalizer(ident@, views_of(fields@)),
{
    let checks = builder_build_checkers(fields);
    let inits = builder_build_ret(fields);
    FinalizerOp { origin: ident.clone(), checks, inits }
}

/// Synthesizes the factory on the origin type: a fresh builder with every
/// slot empty, listed in declaration order.
pub fn init_builder(
    ident: &String,
    builder_ident: &String,
    fields: &Vec<FieldDescriptor>,
) -> (r: FactoryOp)
    requires
        builder_ident@ == builder_name_of(ident@),
    ensures
        r@ == spec_factory(ident@, views_of(fields@)),
{
    let mut out: Vec<String> = Vec::new();
    for i in 0..fields.len()
        invariant
            out@.len() == i,
            views_of(out@) == views_of(fields@).map_values(|f: FieldModel| f.name).take(i as int),
    {
        out.push(fields[i].name.clone());
        proof {
            assert(views_of(out@) =~= views_of(fields@).map_values(|f: FieldModel| f.name).take(
                i + 1,
            ));
        }
    }
    let r = FactoryOp {
        origin: ident.clone(),
        builder_name: builder_ident.clone(),
        empty_fields: out,
    };
    proof {
        assert(views_of(r.empty_fields@) =~= views_of(fields@).map_values(
            |f: FieldModel| f.name,
        ));
    }
    r
}

} // verus!
