//! A record-to-tagged-union update generator.
//!
//! Given a record type description whose fields carry grouping annotations,
//! the library derives a tagged-union type describing atomic updates to the
//! record, an apply capability that replays any such update by mutating a
//! record in place, and convenience mutator methods that perform a mutation
//! and return the union value describing it.

use vstd::prelude::*;
use vstd::string::StringExecFns;

pub mod casing;
pub mod views;

pub mod extract;
pub mod groups;
pub mod laws;
pub mod semantics;
pub mod synthesis;
pub mod syntax;

use crate::extract::{
    extract_fields, extract_fields_spec, extract_forwarded_attributes, forwarded_spec,
    ExtractionError, FieldDescriptorView,
};
use crate::groups::{aggregate, aggregate_spec};
use crate::synthesis::{
    capability_spec, setters_spec, synthesize_apply, synthesize_setters, synthesize_type,
    union_name_of, union_type_spec, CapabilityImplementation, CapabilityImplementationView,
    MutatorMethods, MutatorMethodsView, UnionTypeDeclaration, UnionTypeDeclarationView,
};
use crate::syntax::{RawRecordSyntax, RawRecordSyntaxView};

verus! {

/// Implemented on record states whose updates are represented by some union
/// value type `U`. Applying an update mutates the state in place.
pub trait EnumUpdate<U>: View + Sized {
    /// The state model that applying `update` to a state yields.
    spec fn apply_spec(pre: Self::V, update: U) -> Self::V;

    /// Apply the given update and mutate the state.
    fn apply(&mut self, update: U)
        ensures
            final(self)@ == Self::apply_spec(old(self)@, update),
    ;
}

/// The output bundle of one generation request: the union type declaration,
/// the apply capability, and the partial mutator block. Emission of concrete
/// source text is the caller's concern.
#[derive(Clone, Debug, PartialEq, Eq)]
pub struct GeneratedArtifacts {
    pub union_type: UnionTypeDeclaration,
    pub capability: CapabilityImplementation,
    pub mutators: MutatorMethods,
}

/// Mathematical model of [`GeneratedArtifacts`].
pub struct GeneratedArtifactsView {
    pub union_type: UnionTypeDeclarationView,
    pub capability: CapabilityImplementationView,
    pub mutators: MutatorMethodsView,
}

impl View for GeneratedArtifacts {
    type V = GeneratedArtifactsView;

    open spec fn view(&self) -> GeneratedArtifactsView {
        GeneratedArtifactsView {
            union_type: self.union_type@,
            capability: self.capability@,
            mutators: self.mutators@,
        }
    }
}

impl DeepView for GeneratedArtifacts {
    type V = GeneratedArtifactsView;

    open spec fn deep_view(&self) -> GeneratedArtifactsView {
        self.view()
    }
}

/// The artifacts owed for a record whose fields extracted to `descriptors`
/// and whose forwarding markers yielded `attributes`.
pub open spec fn artifacts_spec(
    r: RawRecordSyntaxView,
    descriptors: Seq<FieldDescriptorView>,
    attributes: Seq<Seq<char>>,
) -> GeneratedArtifactsView {
    let groups = aggregate_spec(descriptors);
    let union_name = union_name_of(r.name);
    GeneratedArtifactsView {
        union_type: union_type_spec(r.name, groups, attributes, r.generics),
        capability: capability_spec(r.name, union_name, groups, r.generics),
        mutators: MutatorMethodsView {
            record_name: r.name,
            union_name: union_name,
            generics: r.generics,
            methods: setters_spec(groups),
        },
    }
}

/// What one generation request returns: the three artifacts, or the first
/// error met while scanning the fields and then the record's annotations.
pub open spec fn generate_spec(r: RawRecordSyntaxView) -> Result<
    GeneratedArtifactsView,
    ExtractionError,
> {
    match extract_fields_spec(r.fields) {
        Ok(descriptors) => match forwarded_spec(r.annotations) {
            Ok(attributes) => Ok(artifacts_spec(r, descriptors, attributes)),
            Err(e) => Err(e),
        },
        Err(e) => Err(e),
    }
}

/// The generation entry point: turns one annotated record description into
/// the union type, the apply capability and the mutator block, or reports
/// the first extraction error without producing any artifact.
pub fn generate(record: &RawRecordSyntax) -> (res: Result<GeneratedArtifacts, ExtractionError>)
    ensures
        (match res {
            Ok(a) => generate_spec(record@) == Ok::<GeneratedArtifactsView, ExtractionError>(a@),
            Err(e) => generate_spec(record@) == Err::<GeneratedArtifactsView, ExtractionError>(e),
        }),
{
    let descriptors = match extract_fields(&record.fields) {
        Ok(d) => d,
        Err(e) => {
            return Err(e);
        },
    };
    let attributes = match extract_forwarded_attributes(record) {
        Ok(a) => a,
        Err(e) => {
            return Err(e);
        },
    };
    let groups = aggregate(&descriptors);
    let union_name = record.name.clone().concat("Update");
    let union_type = synthesize_type(&record.name, &groups, &attributes, &record.generics);
    let capability = synthesize_apply(&record.name, &union_name, &groups, &record.generics);
    let mutators = synthesize_setters(&record.name, &union_name, &groups, &record.generics);
    let artifacts = GeneratedArtifacts { union_type, capability, mutators };
    proof {
        assert(artifacts@.mutators =~= artifacts_spec(
            record@,
            descriptors.deep_view(),
            attributes.deep_view(),
        ).mutators);
    }
    Ok(artifacts)
}

/// Generation is deterministic: two requests over equal record descriptions
/// owe equal artifacts, because the result is a function of the description
/// alone — never of an unordered iteration order.
pub proof fn lemma_generation_deterministic(r1: RawRecordSyntaxView, r2: RawRecordSyntaxView)
    requires
        r1 == r2,
    ensures
        generate_spec(r1) == generate_spec(r2),
{
}

} // verus!
