//! Artifact synthesis.
//!
//! Three synthesizers consume the same aggregated group list independently:
//! one variant of the union type per group, one pattern-match arm of the
//! apply capability per group, and one optional mutator method per group —
//! omitted exactly when the group holds an exclusively-mutable-reference
//! field, since such a value cannot be duplicated into both the record field
//! and the returned union payload.

use vstd::prelude::*;
use vstd::string::StringExecFns;
use crate::casing::{pascal_of, snake_of, to_pascal_case, to_snake_case};
use crate::extract::AttributeDirective;
use crate::groups::{has_mutable_member, GroupDescriptor, GroupDescriptorView, GroupMemberView};
use crate::syntax::{is_shared_reference, TypeSyntax, TypeSyntaxView};
use crate::views::lemma_deep_view_push;

verus! {

/// One named payload slot of a union variant, carrying the member field's
/// original type verbatim.
#[derive(Clone, Debug, PartialEq, Eq)]
pub struct VariantField {
    pub name: String,
    pub ty: TypeSyntax,
}

/// Mathematical model of [`VariantField`].
pub struct VariantFieldView {
    pub name: Seq<char>,
    pub ty: TypeSyntaxView,
}

impl View for VariantField {
    type V = VariantFieldView;

    open spec fn view(&self) -> VariantFieldView {
        VariantFieldView { name: self.name@, ty: self.ty@ }
    }
}

impl DeepView for VariantField {
    type V = VariantFieldView;

    open spec fn deep_view(&self) -> VariantFieldView {
        self.view()
    }
}

/// One variant of the generated union type.
#[derive(Clone, Debug, PartialEq, Eq)]
pub struct UnionVariant {
    pub name: String,
    pub fields: Vec<VariantField>,
}

/// Mathematical model of [`UnionVariant`].
pub struct UnionVariantView {
    pub name: Seq<char>,
    pub fields: Seq<VariantFieldView>,
}

impl View for UnionVariant {
    type V = UnionVariantView;

    open spec fn view(&self) -> UnionVariantView {
        UnionVariantView { name: self.name@, fields: self.fields.deep_view() }
    }
}

impl DeepView for UnionVariant {
    type V = UnionVariantView;

    open spec fn deep_view(&self) -> UnionVariantView {
        self.view()
    }
}

/// The generated union type declaration: name, forwarded decorators, the
/// source record's generic parameters, and one variant per group.
#[derive(Clone, Debug, PartialEq, Eq)]
pub struct UnionTypeDeclaration {
    pub name: String,
    pub attributes: Vec<AttributeDirective>,
    pub generics: Vec<String>,
    pub variants: Vec<UnionVariant>,
}

/// Mathematical model of [`UnionTypeDeclaration`].
pub struct UnionTypeDeclarationView {
    pub name: Seq<char>,
    pub attributes: Seq<Seq<char>>,
    pub generics: Seq<Seq<char>>,
    pub variants: Seq<UnionVariantView>,
}

impl View for UnionTypeDeclaration {
    type V = UnionTypeDeclarationView;

    open spec fn view(&self) -> UnionTypeDeclarationView {
        UnionTypeDeclarationView {
            name: self.name@,
            attributes: self.attributes.deep_view(),
            generics: self.generics.deep_view(),
            variants: self.variants.deep_view(),
        }
    }
}

impl DeepView for UnionTypeDeclaration {
    type V = UnionTypeDeclarationView;

    open spec fn deep_view(&self) -> UnionTypeDeclarationView {
        self.view()
    }
}

/// One pattern-match arm of the apply capability: destructure the variant's
/// payload by field name, then assign each value into the record, in member
/// order.
#[derive(Clone, Debug, PartialEq, Eq)]
pub struct MatchArm {
    pub variant_name: String,
    pub fields: Vec<String>,
}

/// Mathematical model of [`MatchArm`].
pub struct MatchArmView {
    pub variant_name: Seq<char>,
    pub fields: Seq<Seq<char>>,
}

impl View for MatchArm {
    type V = MatchArmView;

    open spec fn view(&self) -> MatchArmView {
        MatchArmView { variant_name: self.variant_name@, fields: self.fields.deep_view() }
    }
}

impl DeepView for MatchArm {
    type V = MatchArmView;

    open spec fn deep_view(&self) -> MatchArmView {
        self.view()
    }
}

/// The generated apply capability: an exhaustive match with one arm per
/// group and no catch-all.
#[derive(Clone, Debug, PartialEq, Eq)]
pub struct CapabilityImplementation {
    pub record_name: String,
    pub union_name: String,
    pub generics: Vec<String>,
    pub arms: Vec<MatchArm>,
}

/// Mathematical model of [`CapabilityImplementation`].
pub struct CapabilityImplementationView {
    pub record_name: Seq<char>,
    pub union_name: Seq<char>,
    pub generics: Seq<Seq<char>>,
    pub arms: Seq<MatchArmView>,
}

impl View for CapabilityImplementation {
    type V = CapabilityImplementationView;

    open spec fn view(&self) -> CapabilityImplementationView {
        CapabilityImplementationView {
            record_name: self.record_name@,
            union_name: self.union_name@,
            generics: self.generics.deep_view(),
            arms: self.arms.deep_view(),
        }
    }
}

impl DeepView for CapabilityImplementation {
    type V = CapabilityImplementationView;

    open spec fn deep_view(&self) -> CapabilityImplementationView {
        self.view()
    }
}

/// One assignment inside a mutator method; `duplicated` records whether the
/// incoming value is semantically copied before assignment (every shape but
/// a shared reference) or moved in directly (a shared reference).
#[derive(Clone, Debug, PartialEq, Eq)]
pub struct SetterAssignment {
    pub field_name: String,
    pub duplicated: bool,
}

/// Mathematical model of [`SetterAssignment`].
pub struct SetterAssignmentView {
    pub field_name: Seq<char>,
    pub duplicated: bool,
}

impl View for SetterAssignment {
    type V = SetterAssignmentView;

    open spec fn view(&self) -> SetterAssignmentView {
        SetterAssignmentView { field_name: self.field_name@, duplicated: self.duplicated }
    }
}

impl DeepView for SetterAssignment {
    type V = SetterAssignmentView;

    open spec fn deep_view(&self) -> SetterAssignmentView {
        self.view()
    }
}

/// One generated mutator method: it accepts one parameter per member field,
/// assigns each into the record, and returns the group's union value.
#[derive(Clone, Debug, PartialEq, Eq)]
pub struct MethodDeclaration {
    pub name: String,
    pub variant_name: String,
    pub parameters: Vec<VariantField>,
    pub assignments: Vec<SetterAssignment>,
}

/// Mathematical model of [`MethodDeclaration`].
pub struct MethodDeclarationView {
    pub name: Seq<char>,
    pub variant_name: Seq<char>,
    pub parameters: Seq<VariantFieldView>,
    pub assignments: Seq<SetterAssignmentView>,
}

impl View for MethodDeclaration {
    type V = MethodDeclarationView;

    open spec fn view(&self) -> MethodDeclarationView {
        MethodDeclarationView {
            name: self.name@,
            variant_name: self.variant_name@,
            parameters: self.parameters.deep_view(),
            assignments: self.assignments.deep_view(),
        }
    }
}

impl DeepView for MethodDeclaration {
    type V = MethodDeclarationView;

    open spec fn deep_view(&self) -> MethodDeclarationView {
        self.view()
    }
}

/// The generated mutator block: one optional method per group, in group
/// order, attached to the source record's own namespace.
#[derive(Clone, Debug, PartialEq, Eq)]
pub struct MutatorMethods {
    pub record_name: String,
    pub union_name: String,
    pub generics: Vec<String>,
    pub methods: Vec<Option<MethodDeclaration>>,
}

/// Mathematical model of [`MutatorMethods`].
pub struct MutatorMethodsView {
    pub record_name: Seq<char>,
    pub union_name: Seq<char>,
    pub generics: Seq<Seq<char>>,
    pub methods: Seq<Option<MethodDeclarationView>>,
}

impl View for MutatorMethods {
    type V = MutatorMethodsView;

    open spec fn view(&self) -> MutatorMethodsView {
        MutatorMethodsView {
            record_name: self.record_name@,
            union_name: self.union_name@,
            generics: self.generics.deep_view(),
            methods: self.methods.deep_view(),
        }
    }
}

impl DeepView for MutatorMethods {
    type V = MutatorMethodsView;

    open spec fn deep_view(&self) -> MutatorMethodsView {
        self.view()
    }
}

/// The payload slot a group member contributes to its variant.
pub open spec fn variant_field_of(m: GroupMemberView) -> VariantFieldView {
    VariantFieldView { name: m.field_name, ty: m.field_type }
}

/// The union variant a group synthesizes: the title-cased group name,
/// carrying one named slot per member in member order.
pub open spec fn variant_of(g: GroupDescriptorView) -> UnionVariantView {
    UnionVariantView {
        name: pascal_of(g.group_name),
        fields: Seq::new(g.members.len(), |i: int| variant_field_of(g.members[i])),
    }
}

/// The generated union type's identifier.
pub open spec fn union_name_of(record_name: Seq<char>) -> Seq<char> {
    record_name + "Update"@
}

/// The union type declaration owed for the given groups, decorators and
/// generic parameters.
pub open spec fn union_type_spec(
    record_name: Seq<char>,
    groups: Seq<GroupDescriptorView>,
    attributes: Seq<Seq<char>>,
    generics: Seq<Seq<char>>,
) -> UnionTypeDeclarationView {
    UnionTypeDeclarationView {
        name: union_name_of(record_name),
        attributes: attributes,
        generics: generics,
        variants: Seq::new(groups.len(), |i: int| variant_of(groups[i])),
    }
}

/// The match arm a group synthesizes: its variant's name and the member
/// field names to destructure and assign, in member order.
pub open spec fn arm_of(g: GroupDescriptorView) -> MatchArmView {
    MatchArmView {
        variant_name: pascal_of(g.group_name),
        fields: Seq::new(g.members.len(), |i: int| g.members[i].field_name),
    }
}

/// The apply capability owed for the given groups.
pub open spec fn capability_spec(
    record_name: Seq<char>,
    union_name: Seq<char>,
    groups: Seq<GroupDescriptorView>,
    generics: Seq<Seq<char>>,
) -> CapabilityImplementationView {
    CapabilityImplementationView {
        record_name: record_name,
        union_name: union_name,
        generics: generics,
        arms: Seq::new(groups.len(), |i: int| arm_of(groups[i])),
    }
}

/// The assignment a member field contributes to its group's mutator: the
/// value is moved for a shared reference and duplicated for any other shape.
pub open spec fn assignment_of(m: GroupMemberView) -> SetterAssignmentView {
    SetterAssignmentView {
        field_name: m.field_name,
        duplicated: !is_shared_reference(m.field_type),
    }
}

/// The mutator method a group synthesizes when none of its members is an
/// exclusively mutable reference.
pub open spec fn method_of(g: GroupDescriptorView) -> MethodDeclarationView {
    MethodDeclarationView {
        name: "modify_"@ + snake_of(g.group_name),
        variant_name: pascal_of(g.group_name),
        parameters: Seq::new(g.members.len(), |i: int| variant_field_of(g.members[i])),
        assignments: Seq::new(g.members.len(), |i: int| assignment_of(g.members[i])),
    }
}

/// The optional method owed per group: omitted exactly when the group holds
/// an exclusively-mutable-reference member.
pub open spec fn setters_spec(groups: Seq<GroupDescriptorView>) -> Seq<Option<MethodDeclarationView>> {
    Seq::new(
        groups.len(),
        |i: int|
            if has_mutable_member(groups[i]) {
                None
            } else {
                Some(method_of(groups[i]))
            },
    )
}

/// Clones a list of decorators.
fn duplicate_attributes(attrs: &Vec<AttributeDirective>) -> (r: Vec<AttributeDirective>)
    ensures
        r.deep_view() == attrs.deep_view(),
{
    let mut r: Vec<AttributeDirective> = Vec::new();
    let mut i: usize = 0;
    while i < attrs.len()
        invariant
            0 <= i <= attrs.len(),
            r.deep_view().len() == i,
            forall|j: int| 0 <= j < i ==> r.deep_view()[j] == attrs.deep_view()[j],
        decreases attrs.len() - i,
    {
        let ghost prev = r;
        r.push(AttributeDirective { tokens: attrs[i].tokens.clone() });
        proof {
            lemma_deep_view_push(prev, r, (AttributeDirective { tokens: attrs@[i as int].tokens }));
        }
        i += 1;
    }
    assert(r.deep_view() =~= attrs.deep_view());
    r
}

/// Clones a list of strings.
fn duplicate_strings(items: &Vec<String>) -> (r: Vec<String>)
    ensures
        r.deep_view() == items.deep_view(),
{
    let mut r: Vec<String> = Vec::new();
    let mut i: usize = 0;
    while i < items.len()
        invariant
            0 <= i <= items.len(),
            r.deep_view().len() == i,
            forall|j: int| 0 <= j < i ==> r.deep_view()[j] == items.deep_view()[j],
        decreases items.len() - i,
    {
        let ghost prev = r;
        r.push(items[i].clone());
        proof {
            lemma_deep_view_push(prev, r, items@[i as int]);
        }
        i += 1;
    }
    assert(r.deep_view() =~= items.deep_view());
    r
}

/// Builds the payload slots of one group's variant, in member order.
fn synthesize_variant_fields(g: &GroupDescriptor) -> (r: Vec<VariantField>)
    ensures
        r.deep_view() == Seq::new(g@.members.len(), |i: int| variant_field_of(g@.members[i])),
{
    let mut r: Vec<VariantField> = Vec::new();
    let mut i: usize = 0;
    while i < g.members.len()
        invariant
            0 <= i <= g.members.len(),
            r.deep_view().len() == i,
            forall|j: int| 0 <= j < i ==> r.deep_view()[j] == variant_field_of(g@.members[j]),
        decreases g.members.len() - i,
    {
        let member = &g.members[i];
        let ghost prev = r;
        r.push(VariantField { name: member.field_name.clone(), ty: member.field_type.duplicate() });
        proof {
            lemma_deep_view_push(
                prev,
                r,
                (VariantField { name: member.field_name, ty: member.field_type }),
            );
            assert(g@.members[i as int] == g.members@[i as int]@);
        }
        i += 1;
    }
    assert(r.deep_view() =~= Seq::new(g@.members.len(), |i: int| variant_field_of(g@.members[i])));
    r
}

/// Turns each group into one union variant carrying the group's fields as
/// named payload slots; the declaration is named `record_name + "Update"`,
/// decorated with the forwarded attributes and parameterized like the record.
pub fn synthesize_type(
    record_name: &String,
    groups: &Vec<GroupDescriptor>,
    attributes: &Vec<AttributeDirective>,
    generics: &Vec<String>,
) -> (d: UnionTypeDeclaration)
    ensures
        d@ == union_type_spec(
            record_name@,
            groups.deep_view(),
            attributes.deep_view(),
            generics.deep_view(),
        ),
{
    let name = record_name.clone().concat("Update");
    let mut variants: Vec<UnionVariant> = Vec::new();
    let mut i: usize = 0;
    while i < groups.len()
        invariant
            0 <= i <= groups.len(),
            variants.deep_view().len() == i,
            forall|j: int| 0 <= j < i ==> variants.deep_view()[j] == variant_of(
                #[trigger] groups.deep_view()[j],
            ),
        decreases groups.len() - i,
    {
        let g = &groups[i];
        let variant_name = to_pascal_case(&g.group_name);
        let fields = synthesize_variant_fields(g);
        let ghost prev = variants;
        let v = UnionVariant { name: variant_name, fields };
        let ghost v_val = v;
        variants.push(v);
        proof {
            lemma_deep_view_push(prev, variants, v_val);
            assert(groups.deep_view()[i as int] == groups@[i as int]@);
            assert(v_val@ == variant_of(groups.deep_view()[i as int]));
        }
        i += 1;
    }
    let d = UnionTypeDeclaration {
        name,
        attributes: duplicate_attributes(attributes),
        generics: duplicate_strings(generics),
        variants,
    };
    proof {
        assert(d@.variants =~= Seq::new(
            groups.deep_view().len(),
            |i: int| variant_of(groups.deep_view()[i]),
        ));
    }
    d
}

/// Builds the destructured field-name list of one group's arm.
fn synthesize_arm_fields(g: &GroupDescriptor) -> (r: Vec<String>)
    ensures
        r.deep_view() == Seq::new(g@.members.len(), |i: int| g@.members[i].field_name),
{
    let mut r: Vec<String> = Vec::new();
    let mut i: usize = 0;
    while i < g.members.len()
        invariant
            0 <= i <= g.members.len(),
            r.deep_view().len() == i,
            forall|j: int| 0 <= j < i ==> r.deep_view()[j] == g@.members[j].field_name,
        decreases g.members.len() - i,
    {
        let ghost prev = r;
        r.push(g.members[i].field_name.clone());
        proof {
            lemma_deep_view_push(prev, r, g.members@[i as int].field_name);
            assert(g@.members[i as int] == g.members@[i as int]@);
        }
        i += 1;
    }
    assert(r.deep_view() =~= Seq::new(g@.members.len(), |i: int| g@.members[i].field_name));
    r
}

/// Turns each group into one match arm that destructures the variant's
/// payload and assigns each slot back into the record's field, in member
/// order; the match is exhaustive by construction, with no catch-all.
pub fn synthesize_apply(
    record_name: &String,
    union_name: &String,
    groups: &Vec<GroupDescriptor>,
    generics: &Vec<String>,
) -> (c: CapabilityImplementation)
    ensures
        c@ == capability_spec(
            record_name@,
            union_name@,
            groups.deep_view(),
            generics.deep_view(),
        ),
{
    let mut arms: Vec<MatchArm> = Vec::new();
    let mut i: usize = 0;
    while i < groups.len()
        invariant
            0 <= i <= groups.len(),
            arms.deep_view().len() == i,
            forall|j: int| 0 <= j < i ==> arms.deep_view()[j] == arm_of(
                #[trigger] groups.deep_view()[j],
            ),
        decreases groups.len() - i,
    {
        let g = &groups[i];
        let arm = MatchArm {
            variant_name: to_pascal_case(&g.group_name),
            fields: synthesize_arm_fields(g),
        };
        let ghost arm_val = arm;
        let ghost prev = arms;
        arms.push(arm);
        proof {
            lemma_deep_view_push(prev, arms, arm_val);
            assert(groups.deep_view()[i as int] == groups@[i as int]@);
            assert(arm_val@ == arm_of(groups.deep_view()[i as int]));
        }
        i += 1;
    }
    let c = CapabilityImplementation {
        record_name: record_name.clone(),
        union_name: union_name.clone(),
        generics: duplicate_strings(generics),
        arms,
    };
    proof {
        assert(c@.arms =~= Seq::new(groups.deep_view().len(), |i: int| arm_of(groups.deep_view()[i])));
    }
    c
}

/// Builds the assignment list of one group's mutator, in member order.
fn synthesize_assignments(g: &GroupDescriptor) -> (r: Vec<SetterAssignment>)
    ensures
        r.deep_view() == Seq::new(g@.members.len(), |i: int| assignment_of(g@.members[i])),
{
    let mut r: Vec<SetterAssignment> = Vec::new();
    let mut i: usize = 0;
    while i < g.members.len()
        invariant
            0 <= i <= g.members.len(),
            r.deep_view().len() == i,
            forall|j: int| 0 <= j < i ==> r.deep_view()[j] == assignment_of(g@.members[j]),
        decreases g.members.len() - i,
    {
        let member = &g.members[i];
        let duplicated = !member.field_type.check_shared_reference();
        let ghost prev = r;
        let a = SetterAssignment { field_name: member.field_name.clone(), duplicated };
        let ghost a_val = a;
        r.push(a);
        proof {
            lemma_deep_view_push(prev, r, a_val);
            assert(g@.members[i as int] == g.members@[i as int]@);
            assert(a_val@ == assignment_of(g@.members[i as int]));
        }
        i += 1;
    }
    assert(r.deep_view() =~= Seq::new(g@.members.len(), |i: int| assignment_of(g@.members[i])));
    r
}

/// Turns each group into one optional `modify_<snake_case(group)>` method
/// that assigns every member (duplicating all but shared references) and
/// returns the group's union value; a group holding an exclusively mutable
/// reference gets no method, though it keeps its variant and its apply arm.
pub fn synthesize_setters(
    record_name: &String,
    union_name: &String,
    groups: &Vec<GroupDescriptor>,
    generics: &Vec<String>,
) -> (s: MutatorMethods)
    ensures
        s@.record_name == record_name@,
        s@.union_name == union_name@,
        s@.generics == generics.deep_view(),
        s@.methods == setters_spec(groups.deep_view()),
{
    let mut methods: Vec<Option<MethodDeclaration>> = Vec::new();
    let mut i: usize = 0;
    while i < groups.len()
        invariant
            0 <= i <= groups.len(),
            methods.deep_view().len() == i,
            forall|j: int| 0 <= j < i ==> methods.deep_view()[j] == setters_spec(
                groups.deep_view(),
            )[j],
        decreases groups.len() - i,
    {
        let g = &groups[i];
        proof {
            assert(groups.deep_view()[i as int] == groups@[i as int]@);
        }
        let entry: Option<MethodDeclaration> = if g.check_mutable_member() {
            None
        } else {
            let snake = to_snake_case(&g.group_name);
            let method = MethodDeclaration {
                name: String::from_str("modify_").concat(snake.as_str()),
                variant_name: to_pascal_case(&g.group_name),
                parameters: synthesize_variant_fields(g),
                assignments: synthesize_assignments(g),
            };
            Some(method)
        };
        let ghost entry_val = entry;
        let ghost prev = methods;
        methods.push(entry);
        proof {
            lemma_deep_view_push(prev, methods, entry_val);
            assert(entry_val.deep_view() == setters_spec(groups.deep_view())[i as int]);
        }
        i += 1;
    }
    let s = MutatorMethods {
        record_name: record_name.clone(),
        union_name: union_name.clone(),
        generics: duplicate_strings(generics),
        methods,
    };
    proof {
        assert(s@.methods =~= setters_spec(groups.deep_view()));
    }
    s
}

} // verus!
