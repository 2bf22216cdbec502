//! Group aggregation.
//!
//! The aggregator scans the record's fields in declaration order and, for
//! each field, its group memberships in declaration order, appending the
//! field to each named group and creating a group the first time its name is
//! seen. The resulting group order is first-sight order and the member order
//! inside each group is field declaration order, so repeated runs over the
//! same input produce the same groups — never an unordered-map order.

use vstd::prelude::*;
use crate::extract::{FieldDescriptor, FieldDescriptorView};
use crate::syntax::{is_mutable_reference, TypeSyntax, TypeSyntaxView};
use crate::views::{lemma_deep_view_insert, lemma_deep_view_push, lemma_deep_view_remove};

verus! {

/// One membership entry of a group: a field's name and its type.
#[derive(Clone, Debug, PartialEq, Eq)]
pub struct GroupMember {
    pub field_name: String,
    pub field_type: TypeSyntax,
}

/// Mathematical model of [`GroupMember`].
pub struct GroupMemberView {
    pub field_name: Seq<char>,
    pub field_type: TypeSyntaxView,
}

impl View for GroupMember {
    type V = GroupMemberView;

    open spec fn view(&self) -> GroupMemberView {
        GroupMemberView { field_name: self.field_name@, field_type: self.field_type@ }
    }
}

impl DeepView for GroupMember {
    type V = GroupMemberView;

    open spec fn deep_view(&self) -> GroupMemberView {
        self.view()
    }
}

/// One named collection of fields that change together.
#[derive(Clone, Debug, PartialEq, Eq)]
pub struct GroupDescriptor {
    pub group_name: String,
    pub members: Vec<GroupMember>,
}

/// Mathematical model of [`GroupDescriptor`].
pub struct GroupDescriptorView {
    pub group_name: Seq<char>,
    pub members: Seq<GroupMemberView>,
}

impl View for GroupDescriptor {
    type V = GroupDescriptorView;

    open spec fn view(&self) -> GroupDescriptorView {
        GroupDescriptorView { group_name: self.group_name@, members: self.members.deep_view() }
    }
}

impl DeepView for GroupDescriptor {
    type V = GroupDescriptorView;

    open spec fn deep_view(&self) -> GroupDescriptorView {
        self.view()
    }
}

/// The membership entry a field contributes to each of its groups.
pub open spec fn member_of(f: FieldDescriptorView) -> GroupMemberView {
    GroupMemberView { field_name: f.name, field_type: f.ty }
}

/// Whether some member of `g` is typed as an exclusively mutable reference.
pub open spec fn has_mutable_member(g: GroupDescriptorView) -> bool {
    exists|i: int| 0 <= i < g.members.len() && is_mutable_reference(#[trigger] g.members[i].field_type)
}

impl GroupDescriptor {
    /// Decides [`has_mutable_member`] on this group.
    pub fn check_mutable_member(&self) -> (r: bool)
        ensures
            r == has_mutable_member(self@),
    {
        let mut i: usize = 0;
        while i < self.members.len()
            invariant
                0 <= i <= self.members.len(),
                forall|j: int| 0 <= j < i ==> !is_mutable_reference(
                    #[trigger] self@.members[j].field_type,
                ),
            decreases self.members.len() - i,
        {
            assert(self@.members[i as int] == self.members@[i as int]@);
            if self.members[i].field_type.check_mutable_reference() {
                assert(is_mutable_reference(self@.members[i as int].field_type));
                return true;
            }
            i += 1;
        }
        false
    }
}

/// Appends `m` to the first group named `name`, or appends a fresh group
/// holding `m` alone when no group carries that name yet.
pub open spec fn insert_member(
    groups: Seq<GroupDescriptorView>,
    name: Seq<char>,
    m: GroupMemberView,
) -> Seq<GroupDescriptorView>
    decreases groups.len(),
{
    if groups.len() == 0 {
        seq![GroupDescriptorView { group_name: name, members: seq![m] }]
    } else if groups[0].group_name == name {
        seq![
            GroupDescriptorView { group_name: groups[0].group_name, members: groups[0].members.push(m) },
        ] + groups.skip(1)
    } else {
        seq![groups[0]] + insert_member(groups.skip(1), name, m)
    }
}

/// Folds [`insert_member`] over a field's membership names, left to right.
pub open spec fn insert_memberships(
    groups: Seq<GroupDescriptorView>,
    names: Seq<Seq<char>>,
    m: GroupMemberView,
) -> Seq<GroupDescriptorView>
    decreases names.len(),
{
    if names.len() == 0 {
        groups
    } else {
        insert_memberships(insert_member(groups, names[0], m), names.skip(1), m)
    }
}

/// The effect of one field on the group list: one [`insert_member`] per
/// membership, in declaration order.
pub open spec fn insert_field(
    groups: Seq<GroupDescriptorView>,
    f: FieldDescriptorView,
) -> Seq<GroupDescriptorView> {
    insert_memberships(groups, f.memberships(), member_of(f))
}

/// Folds [`insert_field`] over the fields, in declaration order.
pub open spec fn aggregate_from(
    groups: Seq<GroupDescriptorView>,
    fields: Seq<FieldDescriptorView>,
) -> Seq<GroupDescriptorView>
    decreases fields.len(),
{
    if fields.len() == 0 {
        groups
    } else {
        aggregate_from(insert_field(groups, fields[0]), fields.skip(1))
    }
}

/// The group list the aggregator owes for the given fields.
pub open spec fn aggregate_spec(fields: Seq<FieldDescriptorView>) -> Seq<GroupDescriptorView> {
    aggregate_from(Seq::<GroupDescriptorView>::empty(), fields)
}

/// When the first `j` groups are named otherwise and group `j` is named
/// `name`, inserting updates exactly group `j`.
proof fn lemma_insert_member_found(
    groups: Seq<GroupDescriptorView>,
    j: int,
    name: Seq<char>,
    m: GroupMemberView,
)
    requires
        0 <= j < groups.len(),
        groups[j].group_name == name,
        forall|k: int| 0 <= k < j ==> (#[trigger] groups[k]).group_name != name,
    ensures
        insert_member(groups, name, m) == groups.update(
            j,
            (GroupDescriptorView { group_name: groups[j].group_name, members: groups[j].members.push(m) }),
        ),
    decreases j,
{
    if j == 0 {
        assert(insert_member(groups, name, m) =~= groups.update(
            0,
            (GroupDescriptorView { group_name: groups[0].group_name, members: groups[0].members.push(m) }),
        ));
    } else {
        lemma_insert_member_found(groups.skip(1), j - 1, name, m);
        assert(groups.skip(1)[j - 1] == groups[j]);
        assert(insert_member(groups, name, m) =~= groups.update(
            j,
            (GroupDescriptorView { group_name: groups[j].group_name, members: groups[j].members.push(m) }),
        ));
    }
}

/// When no group is named `name`, inserting appends a fresh singleton group.
proof fn lemma_insert_member_absent(groups: Seq<GroupDescriptorView>, name: Seq<char>, m: GroupMemberView)
    requires
        forall|k: int| 0 <= k < groups.len() ==> (#[trigger] groups[k]).group_name != name,
    ensures
        insert_member(groups, name, m) == groups.push(
            (GroupDescriptorView { group_name: name, members: seq![m] }),
        ),
    decreases groups.len(),
{
    if groups.len() == 0 {
        assert(insert_member(groups, name, m) =~= groups.push(
            (GroupDescriptorView { group_name: name, members: seq![m] }),
        ));
    } else {
        lemma_insert_member_absent(groups.skip(1), name, m);
        assert(insert_member(groups, name, m) =~= groups.push(
            (GroupDescriptorView { group_name: name, members: seq![m] }),
        ));
    }
}

/// The first group named `name`, if any: its index, with nothing before it
/// carrying the name.
fn find_group(groups: &Vec<GroupDescriptor>, name: &String) -> (idx: Option<usize>)
    ensures
        (match idx {
            Some(j) => {
                &&& 0 <= j < groups.deep_view().len()
                &&& groups.deep_view()[j as int].group_name == name@
                &&& forall|k: int| 0 <= k < j ==> (#[trigger] groups.deep_view()[k]).group_name != name@
            },
            None => forall|k: int| 0 <= k < groups.deep_view().len() ==> (#[trigger] groups.deep_view()[k]).group_name
                != name@,
        }),
{
    let mut i: usize = 0;
    while i < groups.len()
        invariant
            0 <= i <= groups.len(),
            forall|k: int| 0 <= k < i ==> (#[trigger] groups.deep_view()[k]).group_name != name@,
        decreases groups.len() - i,
    {
        assert(groups.deep_view()[i as int] == groups@[i as int]@);
        if groups[i].group_name == *name {
            return Some(i);
        }
        i += 1;
    }
    None
}

/// Appends `member` to the first group named `name`, creating the group at
/// the end of the list on first sight of the name.
#[verifier::loop_isolation(false)]
fn insert_member_into(groups: &mut Vec<GroupDescriptor>, name: &String, member: GroupMember)
    ensures
        final(groups).deep_view() == insert_member(old(groups).deep_view(), name@, member@),
{
    let ghost orig = *groups;
    match find_group(groups, name) {
        Some(j) => {
            let mut g = groups.remove(j);
            let ghost after_remove = *groups;
            let ghost g_prev = g;
            g.members.push(member);
            let ghost g_new = g;
            proof {
                lemma_deep_view_push(g_prev.members, g_new.members, member);
            }
            groups.insert(j, g);
            proof {
                lemma_deep_view_remove(orig, after_remove, j as int);
                lemma_deep_view_insert(after_remove, *groups, j as int, g_new);
                lemma_insert_member_found(orig.deep_view(), j as int, name@, member@);
                assert(groups.deep_view() =~= orig.deep_view().update(
                    j as int,
                    (GroupDescriptorView {
                        group_name: orig.deep_view()[j as int].group_name,
                        members: orig.deep_view()[j as int].members.push(member@),
                    }),
                ));
            }
        },
        None => {
            let mut members: Vec<GroupMember> = Vec::new();
            members.push(member);
            let g = GroupDescriptor { group_name: name.clone(), members };
            let ghost g_val = g;
            groups.push(g);
            proof {
                lemma_deep_view_push(orig, *groups, g_val);
                lemma_insert_member_absent(orig.deep_view(), name@, member@);
                assert(g_val@.members =~= seq![member@]);
            }
        },
    }
}

/// Consumes the ordered field list and produces the ordered group list: one
/// membership append per field and group name, groups in first-sight order.
#[verifier::loop_isolation(false)]
pub fn aggregate(fields: &Vec<FieldDescriptor>) -> (groups: Vec<GroupDescriptor>)
    ensures
        groups.deep_view() == aggregate_spec(fields.deep_view()),
{
    let mut groups: Vec<GroupDescriptor> = Vec::new();
    proof {
        assert(groups.deep_view() =~= Seq::<GroupDescriptorView>::empty());
        assert(fields.deep_view().skip(0) =~= fields.deep_view());
    }
    let mut i: usize = 0;
    while i < fields.len()
        invariant
            0 <= i <= fields.len(),
            aggregate_spec(fields.deep_view()) == aggregate_from(
                groups.deep_view(),
                fields.deep_view().skip(i as int),
            ),
        decreases fields.len() - i,
    {
        let ghost groups_at_field = groups.deep_view();
        let ghost remaining_fields = fields.deep_view().skip(i as int);
        let ghost f = fields.deep_view()[i as int];
        proof {
            assert(remaining_fields[0] == f);
            assert(remaining_fields.skip(1) =~= fields.deep_view().skip(i + 1 as int));
            assert(aggregate_from(groups_at_field, remaining_fields) == aggregate_from(
                insert_field(groups_at_field, f),
                remaining_fields.skip(1),
            ));
        }
        let field = &fields[i];
        proof {
            assert(field@ == f);
        }
        let names = field.membership_list();
        proof {
            assert(names.deep_view().skip(0) =~= names.deep_view());
        }
        let mut j: usize = 0;
        while j < names.len()
            invariant
                0 <= j <= names.len(),
                insert_field(groups_at_field, f) == insert_memberships(
                    groups.deep_view(),
                    names.deep_view().skip(j as int),
                    member_of(f),
                ),
            decreases names.len() - j,
        {
            let ghost groups_before = groups.deep_view();
            let ghost remaining_names = names.deep_view().skip(j as int);
            proof {
                assert(remaining_names[0] == names.deep_view()[j as int]);
                assert(remaining_names.skip(1) =~= names.deep_view().skip(j + 1 as int));
                assert(insert_memberships(groups_before, remaining_names, member_of(f))
                    == insert_memberships(
                    insert_member(groups_before, remaining_names[0], member_of(f)),
                    remaining_names.skip(1),
                    member_of(f),
                ));
                assert(names.deep_view()[j as int] == names@[j as int]@);
            }
            let member = GroupMember {
                field_name: field.name.clone(),
                field_type: field.ty.duplicate(),
            };
            proof {
                assert(member@ == member_of(f));
            }
            insert_member_into(&mut groups, &names[j], member);
            j += 1;
        }
        i += 1;
    }
    assert(fields.deep_view().skip(fields.len() as int) =~= Seq::<FieldDescriptorView>::empty());
    groups
}

} // verus!
