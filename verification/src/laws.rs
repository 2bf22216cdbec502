//! The library's cross-cutting guarantees, stated and proved once over the
//! extraction, aggregation and synthesis models.

use vstd::prelude::*;
use crate::extract::{extract_spec, FieldDescriptorView};
use crate::groups::{
    aggregate_spec, aggregate_from, has_mutable_member, insert_field, insert_member,
    insert_memberships, member_of, GroupDescriptorView, GroupMemberView,
};
use crate::syntax::{is_identifier, is_mutable_reference, RawFieldSyntaxView};
use crate::synthesis::{
    arm_of, capability_spec, method_of, setters_spec, union_type_spec, variant_field_of, variant_of,
};
use crate::casing::snake_of;

verus! {

broadcast use vstd::string::group_string_axioms;

/// Whether some group in `groups` is named `name` and lists `m` among its
/// members.
pub open spec fn group_holds(
    groups: Seq<GroupDescriptorView>,
    name: Seq<char>,
    m: GroupMemberView,
) -> bool {
    exists|i: int|
        0 <= i < groups.len() && (#[trigger] groups[i]).group_name == name
            && groups[i].members.contains(m)
}

proof fn lemma_insert_member_establishes(
    groups: Seq<GroupDescriptorView>,
    name: Seq<char>,
    m: GroupMemberView,
)
    ensures
        group_holds(insert_member(groups, name, m), name, m),
    decreases groups.len(),
{
    let result = insert_member(groups, name, m);
    if groups.len() == 0 {
        assert(result[0].members[0] == m);
        assert(result[0].members.contains(m));
    } else if groups[0].group_name == name {
        assert(result[0].members[groups[0].members.len() as int] == m);
        assert(result[0].members.contains(m));
    } else {
        lemma_insert_member_establishes(groups.skip(1), name, m);
        let rec = insert_member(groups.skip(1), name, m);
        let i = choose|i: int|
            0 <= i < rec.len() && (#[trigger] rec[i]).group_name == name && rec[i].members.contains(m);
        assert(result[i + 1] == rec[i]);
    }
}

proof fn lemma_insert_member_preserves(
    groups: Seq<GroupDescriptorView>,
    name: Seq<char>,
    m: GroupMemberView,
    held_name: Seq<char>,
    held: GroupMemberView,
)
    requires
        group_holds(groups, held_name, held),
    ensures
        group_holds(insert_member(groups, name, m), held_name, held),
    decreases groups.len(),
{
    let result = insert_member(groups, name, m);
    let j = choose|j: int|
        0 <= j < groups.len() && (#[trigger] groups[j]).group_name == held_name
            && groups[j].members.contains(held);
    if groups[0].group_name == name {
        if j == 0 {
            let k = choose|k: int| 0 <= k < groups[0].members.len() && groups[0].members[k] == held;
            assert(result[0].members[k] == held);
            assert(result[0].members.contains(held));
            assert(result[0].group_name == held_name);
        } else {
            assert(result[j] == groups[j]);
        }
    } else {
        if j == 0 {
            assert(result[0] == groups[0]);
        } else {
            assert(groups.skip(1)[j - 1] == groups[j]);
            assert(group_holds(groups.skip(1), held_name, held));
            lemma_insert_member_preserves(groups.skip(1), name, m, held_name, held);
            let rec = insert_member(groups.skip(1), name, m);
            let i = choose|i: int|
                0 <= i < rec.len() && (#[trigger] rec[i]).group_name == held_name
                    && rec[i].members.contains(held);
            assert(result[i + 1] == rec[i]);
        }
    }
}

proof fn lemma_insert_memberships_preserves(
    groups: Seq<GroupDescriptorView>,
    names: Seq<Seq<char>>,
    m: GroupMemberView,
    held_name: Seq<char>,
    held: GroupMemberView,
)
    requires
        group_holds(groups, held_name, held),
    ensures
        group_holds(insert_memberships(groups, names, m), held_name, held),
    decreases names.len(),
{
    if names.len() == 0 {
    } else {
        lemma_insert_member_preserves(groups, names[0], m, held_name, held);
        lemma_insert_memberships_preserves(
            insert_member(groups, names[0], m),
            names.skip(1),
            m,
            held_name,
            held,
        );
    }
}

proof fn lemma_insert_memberships_establishes(
    groups: Seq<GroupDescriptorView>,
    names: Seq<Seq<char>>,
    m: GroupMemberView,
    n: Seq<char>,
)
    requires
        names.contains(n),
    ensures
        group_holds(insert_memberships(groups, names, m), n, m),
    decreases names.len(),
{
    let k = choose|k: int| 0 <= k < names.len() && names[k] == n;
    if k == 0 {
        lemma_insert_member_establishes(groups, n, m);
        lemma_insert_memberships_preserves(insert_member(groups, n, m), names.skip(1), m, n, m);
    } else {
        assert(names.skip(1)[k - 1] == names[k]);
        assert(names.skip(1).contains(n));
        lemma_insert_memberships_establishes(insert_member(groups, names[0], m), names.skip(1), m, n);
    }
}

proof fn lemma_aggregate_from_preserves(
    groups: Seq<GroupDescriptorView>,
    fields: Seq<FieldDescriptorView>,
    held_name: Seq<char>,
    held: GroupMemberView,
)
    requires
        group_holds(groups, held_name, held),
    ensures
        group_holds(aggregate_from(groups, fields), held_name, held),
    decreases fields.len(),
{
    if fields.len() == 0 {
    } else {
        lemma_insert_memberships_preserves(
            groups,
            fields[0].memberships(),
            member_of(fields[0]),
            held_name,
            held,
        );
        lemma_aggregate_from_preserves(insert_field(groups, fields[0]), fields.skip(1), held_name, held);
    }
}

proof fn lemma_aggregate_from_holds(
    groups: Seq<GroupDescriptorView>,
    fields: Seq<FieldDescriptorView>,
    i: int,
    n: Seq<char>,
)
    requires
        0 <= i < fields.len(),
        fields[i].memberships().contains(n),
    ensures
        group_holds(aggregate_from(groups, fields), n, member_of(fields[i])),
    decreases fields.len(),
{
    if i == 0 {
        lemma_insert_memberships_establishes(groups, fields[0].memberships(), member_of(fields[0]), n);
        lemma_aggregate_from_preserves(
            insert_field(groups, fields[0]),
            fields.skip(1),
            n,
            member_of(fields[0]),
        );
    } else {
        assert(fields.skip(1)[i - 1] == fields[i]);
        lemma_aggregate_from_holds(insert_field(groups, fields[0]), fields.skip(1), i - 1, n);
    }
}

/// A field that lists a group among its memberships appears as a member of
/// that group in the aggregated result.
pub proof fn lemma_membership_aggregated(fields: Seq<FieldDescriptorView>, i: int, n: Seq<char>)
    requires
        0 <= i < fields.len(),
        fields[i].memberships().contains(n),
    ensures
        group_holds(aggregate_spec(fields), n, member_of(fields[i])),
{
    lemma_aggregate_from_holds(Seq::<GroupDescriptorView>::empty(), fields, i, n);
}

/// A field listed in two explicit groups appears as a member of both
/// resulting group descriptors.
pub proof fn lemma_multi_membership(
    fields: Seq<FieldDescriptorView>,
    i: int,
    first: Seq<char>,
    second: Seq<char>,
)
    requires
        0 <= i < fields.len(),
        fields[i].memberships().contains(first),
        fields[i].memberships().contains(second),
    ensures
        group_holds(aggregate_spec(fields), first, member_of(fields[i])),
        group_holds(aggregate_spec(fields), second, member_of(fields[i])),
{
    lemma_membership_aggregated(fields, i, first);
    lemma_membership_aggregated(fields, i, second);
}

/// A group a field belongs to carries the field's payload slot in its
/// generated union variant.
pub proof fn lemma_membership_in_variant(
    groups: Seq<GroupDescriptorView>,
    n: Seq<char>,
    m: GroupMemberView,
    record_name: Seq<char>,
    attributes: Seq<Seq<char>>,
    generics: Seq<Seq<char>>,
)
    requires
        group_holds(groups, n, m),
    ensures
        ({
            let variants = union_type_spec(record_name, groups, attributes, generics).variants;
            exists|j: int|
                0 <= j < variants.len() && (#[trigger] variants[j]).name == crate::casing::pascal_of(n)
                    && variants[j].fields.contains(variant_field_of(m))
        }),
{
    let variants = union_type_spec(record_name, groups, attributes, generics).variants;
    let j = choose|j: int|
        0 <= j < groups.len() && (#[trigger] groups[j]).group_name == n && groups[j].members.contains(m);
    let k = choose|k: int| 0 <= k < groups[j].members.len() && groups[j].members[k] == m;
    assert(variants[j] == variant_of(groups[j]));
    assert(variants[j].fields[k] == variant_field_of(m));
    assert(variants[j].fields.contains(variant_field_of(m)));
}

/// Aggregating one field descriptor with a single membership yields exactly
/// one group, named by that membership, with the field as its sole member.
proof fn lemma_aggregate_singleton(d: FieldDescriptorView, n: Seq<char>)
    requires
        d.memberships() == seq![n],
    ensures
        aggregate_spec(seq![d]) == seq![
            GroupDescriptorView { group_name: n, members: seq![member_of(d)] },
        ],
{
    let fields = seq![d];
    let names = d.memberships();
    let m = member_of(d);
    let empty = Seq::<GroupDescriptorView>::empty();
    assert(fields[0] == d);
    assert(names[0] == n);
    assert(fields.skip(1) =~= Seq::<FieldDescriptorView>::empty());
    assert(names.skip(1) =~= Seq::<Seq<char>>::empty());
    let inserted = insert_member(empty, n, m);
    assert(inserted =~= seq![GroupDescriptorView { group_name: n, members: seq![m] }]);
    assert(insert_memberships(empty, names, m) == insert_memberships(inserted, names.skip(1), m));
    assert(insert_memberships(inserted, names.skip(1), m) == inserted);
    assert(aggregate_from(empty, fields) == aggregate_from(insert_field(empty, d), fields.skip(1)));
    assert(aggregate_from(insert_field(empty, d), fields.skip(1)) == insert_field(empty, d));
}

/// Default grouping: a field with no annotations belongs to exactly one
/// group, named after the field, holding that field as its sole member; and
/// — unless the field is an exclusively mutable reference — that group's
/// mutator is generated and named `modify_` plus the snake-cased field name.
pub proof fn lemma_default_grouping(f: RawFieldSyntaxView)
    requires
        f.annotations.len() == 0,
    ensures
        extract_spec(f) matches Ok(d) && {
            let groups = aggregate_spec(seq![d]);
            &&& d.memberships() == seq![f.name]
            &&& groups == seq![
                GroupDescriptorView {
                    group_name: f.name,
                    members: seq![GroupMemberView { field_name: f.name, field_type: f.ty }],
                },
            ]
            &&& !is_mutable_reference(f.ty) ==> setters_spec(groups) == seq![
                Some(method_of(groups[0])),
            ]
            &&& !is_mutable_reference(f.ty) ==> method_of(groups[0]).name == "modify_"@ + snake_of(
                f.name,
            )
        },
{
    let d = FieldDescriptorView {
        name: f.name,
        ty: f.ty,
        explicit_groups: Seq::<Seq<char>>::empty(),
        default_group_name: Some(f.name),
    };
    assert(extract_spec(f) == Ok::<FieldDescriptorView, crate::extract::ExtractionError>(d));
    assert(d.memberships() =~= seq![f.name]);
    lemma_aggregate_singleton(d, f.name);
    let groups = aggregate_spec(seq![d]);
    if !is_mutable_reference(f.ty) {
        assert(forall|i: int| 0 <= i < groups[0].members.len() ==> !is_mutable_reference(
            (#[trigger] groups[0].members[i]).field_type,
        ));
        assert(!has_mutable_member(groups[0]));
        assert(setters_spec(groups) =~= seq![Some(method_of(groups[0]))]);
    }
}

/// Suppression: a field that belongs to no group leaves the aggregated
/// group list exactly as if the field were absent, so it appears in no
/// variant, no apply arm and no mutator.
pub proof fn lemma_suppressed_field_inert(fields: Seq<FieldDescriptorView>, i: int)
    requires
        0 <= i < fields.len(),
        fields[i].memberships() == Seq::<Seq<char>>::empty(),
    ensures
        aggregate_spec(fields) == aggregate_spec(fields.remove(i)),
{
    lemma_aggregate_from_skips_inert(Seq::<GroupDescriptorView>::empty(), fields, i);
}

proof fn lemma_aggregate_from_skips_inert(
    groups: Seq<GroupDescriptorView>,
    fields: Seq<FieldDescriptorView>,
    i: int,
)
    requires
        0 <= i < fields.len(),
        fields[i].memberships() == Seq::<Seq<char>>::empty(),
    ensures
        aggregate_from(groups, fields) == aggregate_from(groups, fields.remove(i)),
    decreases fields.len(),
{
    if i == 0 {
        assert(insert_field(groups, fields[0]) == groups);
        assert(fields.remove(0) =~= fields.skip(1));
    } else {
        assert(fields.remove(i)[0] == fields[0]);
        assert(fields.remove(i).skip(1) =~= fields.skip(1).remove(i - 1));
        assert(fields.skip(1)[i - 1] == fields[i]);
        lemma_aggregate_from_skips_inert(insert_field(groups, fields[0]), fields.skip(1), i - 1);
    }
}

/// Suppression, at the extraction step: a field whose one directive is
/// `suppress_default` ends with no memberships at all.
pub proof fn lemma_suppress_extraction(f: RawFieldSyntaxView)
    requires
        f.annotations.len() == 1,
        f.annotations[0].name == "suppress_default"@,
    ensures
        extract_spec(f) matches Ok(d) && d.memberships() == Seq::<Seq<char>>::empty(),
{
    reveal_strlit("group");
    reveal_strlit("suppress_default");
    assert("group"@.len() == 5);
    assert("suppress_default"@.len() == 16);
    assert(f.annotations[0].name != "group"@);
    assert(f.annotations.skip(1) =~= Seq::<crate::syntax::FieldAnnotationView>::empty());
    let initial = crate::extract::initial_scan_state(f.name);
    let next = crate::extract::ScanState {
        explicit: Seq::<Seq<char>>::empty(),
        candidate: None,
    };
    assert(crate::extract::scan_directive(initial, f.annotations[0], f.name)
        == Ok::<crate::extract::ScanState, crate::extract::ExtractionError>(next));
    assert(crate::extract::scan_directives(initial, f.annotations, f.name)
        == crate::extract::scan_directives(next, f.annotations.skip(1), f.name));
    let d = FieldDescriptorView {
        name: f.name,
        ty: f.ty,
        explicit_groups: Seq::<Seq<char>>::empty(),
        default_group_name: None,
    };
    assert(extract_spec(f) == Ok::<FieldDescriptorView, crate::extract::ExtractionError>(d));
    assert(d.memberships() =~= Seq::<Seq<char>>::empty());
}

/// Rename: a field whose one directive is `rename_default(NAME)` belongs to
/// exactly one group, named `NAME`, holding that field as its sole member.
pub proof fn lemma_rename_default(f: RawFieldSyntaxView, new_name: Seq<char>)
    requires
        f.annotations.len() == 1,
        f.annotations[0].name == "rename_default"@,
        f.annotations[0].arguments == Some(seq![new_name]),
        is_identifier(new_name),
    ensures
        extract_spec(f) matches Ok(d) && {
            &&& d.memberships() == seq![new_name]
            &&& aggregate_spec(seq![d]) == seq![
                GroupDescriptorView {
                    group_name: new_name,
                    members: seq![GroupMemberView { field_name: f.name, field_type: f.ty }],
                },
            ]
        },
{
    reveal_strlit("group");
    reveal_strlit("suppress_default");
    reveal_strlit("rename_default");
    assert("group"@.len() == 5);
    assert("suppress_default"@.len() == 16);
    assert("rename_default"@.len() == 14);
    assert(f.annotations[0].name != "group"@);
    assert(f.annotations[0].name != "suppress_default"@);
    assert(f.annotations.skip(1) =~= Seq::<crate::syntax::FieldAnnotationView>::empty());
    let initial = crate::extract::initial_scan_state(f.name);
    let next = crate::extract::ScanState {
        explicit: Seq::<Seq<char>>::empty(),
        candidate: Some(new_name),
    };
    assert(crate::extract::scan_directive(initial, f.annotations[0], f.name)
        == Ok::<crate::extract::ScanState, crate::extract::ExtractionError>(next));
    assert(crate::extract::scan_directives(initial, f.annotations, f.name)
        == crate::extract::scan_directives(next, f.annotations.skip(1), f.name));
    let d = FieldDescriptorView {
        name: f.name,
        ty: f.ty,
        explicit_groups: Seq::<Seq<char>>::empty(),
        default_group_name: Some(new_name),
    };
    assert(extract_spec(f) == Ok::<FieldDescriptorView, crate::extract::ExtractionError>(d));
    assert(d.memberships() =~= seq![new_name]);
    lemma_aggregate_singleton(d, new_name);
}

/// The three synthesizers stay aligned over one group list: the apply
/// capability's match is exhaustive over the union — one arm per variant, in
/// variant order, destructuring exactly the variant's payload slots — and
/// each generated mutator builds its own group's variant from its own
/// parameter list.
pub proof fn lemma_artifacts_aligned(
    record_name: Seq<char>,
    union_name: Seq<char>,
    groups: Seq<GroupDescriptorView>,
    attributes: Seq<Seq<char>>,
    generics: Seq<Seq<char>>,
)
    ensures
        ({
            let variants = union_type_spec(record_name, groups, attributes, generics).variants;
            let arms = capability_spec(record_name, union_name, groups, generics).arms;
            let methods = setters_spec(groups);
            &&& variants.len() == groups.len()
            &&& arms.len() == groups.len()
            &&& methods.len() == groups.len()
            &&& forall|i: int| 0 <= i < groups.len() ==> (#[trigger] arms[i]).variant_name
                == variants[i].name
            &&& forall|i: int| 0 <= i < groups.len() ==> (#[trigger] arms[i]).fields.len()
                == variants[i].fields.len()
            &&& forall|i: int, j: int|
                0 <= i < groups.len() && 0 <= j < arms[i].fields.len() ==> (#[trigger] arms[i].fields[j])
                    == variants[i].fields[j].name
            &&& forall|i: int|
                0 <= i < groups.len() ==> ((#[trigger] methods[i]) matches Some(m) ==> {
                    &&& m.variant_name == variants[i].name
                    &&& m.parameters == variants[i].fields
                })
        }),
{
}

/// Mutable-reference exclusion: every group keeps its union variant and its
/// apply arm, but a group holding an exclusively-mutable-reference member
/// gets no mutator method, and every other group gets exactly one.
pub proof fn lemma_mutable_reference_exclusion(
    groups: Seq<GroupDescriptorView>,
    i: int,
    record_name: Seq<char>,
    union_name: Seq<char>,
    attributes: Seq<Seq<char>>,
    generics: Seq<Seq<char>>,
)
    requires
        0 <= i < groups.len(),
    ensures
        union_type_spec(record_name, groups, attributes, generics).variants[i] == variant_of(groups[i]),
        capability_spec(record_name, union_name, groups, generics).arms[i] == arm_of(groups[i]),
        has_mutable_member(groups[i]) ==> setters_spec(groups)[i] is None,
        !has_mutable_member(groups[i]) ==> setters_spec(groups)[i] == Some(method_of(groups[i])),
{
}

} // verus!
