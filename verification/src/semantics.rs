//! The value-level meaning of the generated artifacts.
//!
//! A generated mutator assigns new values into the record's fields and
//! returns the union value describing the change; the generated apply
//! capability destructures such a union value and assigns its payload into
//! the record. This module models a record instance as an ordered list of
//! named field values and gives both operations exact semantics, so the
//! synchronization story — one holder mutates, ships the update value, and
//! every other holder applies it — can be stated and proved.

use vstd::prelude::*;
use crate::synthesis::MethodDeclaration;
use crate::views::lemma_deep_view_push;
use crate::EnumUpdate;

verus! {

/// One field of a record instance: the field's name and its current value,
/// both held as plain text.
#[derive(Clone, Debug, PartialEq, Eq)]
pub struct FieldState {
    pub name: String,
    pub value: String,
}

/// Mathematical model of [`FieldState`].
pub struct FieldStateView {
    pub name: Seq<char>,
    pub value: Seq<char>,
}

impl View for FieldState {
    type V = FieldStateView;

    open spec fn view(&self) -> FieldStateView {
        FieldStateView { name: self.name@, value: self.value@ }
    }
}

impl DeepView for FieldState {
    type V = FieldStateView;

    open spec fn deep_view(&self) -> FieldStateView {
        self.view()
    }
}

/// One record instance: its fields in declaration order.
#[derive(Clone, Debug, PartialEq, Eq)]
pub struct RecordState {
    pub fields: Vec<FieldState>,
}

impl View for RecordState {
    type V = Seq<FieldStateView>;

    open spec fn view(&self) -> Seq<FieldStateView> {
        self.fields.deep_view()
    }
}

impl DeepView for RecordState {
    type V = Seq<FieldStateView>;

    open spec fn deep_view(&self) -> Seq<FieldStateView> {
        self.view()
    }
}

/// One union value: the variant's name and its payload, one named value per
/// member field of the variant's group, in member order.
#[derive(Clone, Debug, PartialEq, Eq)]
pub struct UpdateValue {
    pub variant: String,
    pub payload: Vec<FieldState>,
}

/// Mathematical model of [`UpdateValue`].
pub struct UpdateValueView {
    pub variant: Seq<char>,
    pub payload: Seq<FieldStateView>,
}

impl View for UpdateValue {
    type V = UpdateValueView;

    open spec fn view(&self) -> UpdateValueView {
        UpdateValueView { variant: self.variant@, payload: self.payload.deep_view() }
    }
}

impl DeepView for UpdateValue {
    type V = UpdateValueView;

    open spec fn deep_view(&self) -> UpdateValueView {
        self.view()
    }
}

/// Assigning `value` to the first field named `name`; a record with no such
/// field is left unchanged.
pub open spec fn assign_field(
    fields: Seq<FieldStateView>,
    name: Seq<char>,
    value: Seq<char>,
) -> Seq<FieldStateView>
    decreases fields.len(),
{
    if fields.len() == 0 {
        fields
    } else if fields[0].name == name {
        seq![FieldStateView { name: name, value: value }] + fields.skip(1)
    } else {
        seq![fields[0]] + assign_field(fields.skip(1), name, value)
    }
}

/// Assigning a payload's named values in order, each by [`assign_field`].
pub open spec fn assign_all(
    fields: Seq<FieldStateView>,
    payload: Seq<FieldStateView>,
) -> Seq<FieldStateView>
    decreases payload.len(),
{
    if payload.len() == 0 {
        fields
    } else {
        assign_all(assign_field(fields, payload[0].name, payload[0].value), payload.skip(1))
    }
}

/// The payload a mutator builds: the method's parameter names paired with
/// the caller's new values, in member order.
pub open spec fn setter_payload(
    m: crate::synthesis::MethodDeclarationView,
    values: Seq<Seq<char>>,
) -> Seq<FieldStateView> {
    Seq::new(m.parameters.len(), |i: int| FieldStateView { name: m.parameters[i].name, value: values[i] })
}

/// When the first `j` fields are named otherwise and field `j` carries the
/// name, assignment updates exactly field `j`.
proof fn lemma_assign_field_found(fields: Seq<FieldStateView>, j: int, name: Seq<char>, value: Seq<char>)
    requires
        0 <= j < fields.len(),
        fields[j].name == name,
        forall|k: int| 0 <= k < j ==> (#[trigger] fields[k]).name != name,
    ensures
        assign_field(fields, name, value) == fields.update(j, (FieldStateView { name: name, value: value })),
    decreases j,
{
    if j == 0 {
        assert(assign_field(fields, name, value) =~= fields.update(
            0,
            (FieldStateView { name: name, value: value }),
        ));
    } else {
        lemma_assign_field_found(fields.skip(1), j - 1, name, value);
        assert(fields.skip(1)[j - 1] == fields[j]);
        assert(assign_field(fields, name, value) =~= fields.update(
            j,
            (FieldStateView { name: name, value: value }),
        ));
    }
}

/// When no field carries the name, assignment changes nothing.
proof fn lemma_assign_field_absent(fields: Seq<FieldStateView>, name: Seq<char>, value: Seq<char>)
    requires
        forall|k: int| 0 <= k < fields.len() ==> (#[trigger] fields[k]).name != name,
    ensures
        assign_field(fields, name, value) == fields,
    decreases fields.len(),
{
    if fields.len() == 0 {
    } else {
        lemma_assign_field_absent(fields.skip(1), name, value);
        assert(assign_field(fields, name, value) =~= fields);
    }
}

impl RecordState {
    /// The first field named `name`, if any.
    fn find_field(&self, name: &String) -> (idx: Option<usize>)
        ensures
            (match idx {
                Some(j) => {
                    &&& 0 <= j < self@.len()
                    &&& self@[j as int].name == name@
                    &&& forall|k: int| 0 <= k < j ==> (#[trigger] self@[k]).name != name@
                },
                None => forall|k: int| 0 <= k < self@.len() ==> (#[trigger] self@[k]).name != name@,
            }),
    {
        let mut i: usize = 0;
        while i < self.fields.len()
            invariant
                0 <= i <= self.fields.len(),
                forall|k: int| 0 <= k < i ==> (#[trigger] self@[k]).name != name@,
            decreases self.fields.len() - i,
        {
            assert(self@[i as int] == self.fields@[i as int]@);
            if self.fields[i].name == *name {
                return Some(i);
            }
            i += 1;
        }
        None
    }

    /// Assigns `value` to the first field named `name`, as one generated
    /// assignment statement does; a record without the field is unchanged.
    pub fn set_field(&mut self, name: &String, value: String)
        ensures
            final(self)@ == assign_field(old(self)@, name@, value@),
    {
        let ghost orig = *self;
        match self.find_field(name) {
            Some(j) => {
                self.fields.remove(j);
                let ghost after_remove = *self;
                let f = FieldState { name: name.clone(), value };
                let ghost f_val = f;
                self.fields.insert(j, f);
                proof {
                    crate::views::lemma_deep_view_remove(orig.fields, after_remove.fields, j as int);
                    crate::views::lemma_deep_view_insert(
                        after_remove.fields,
                        self.fields,
                        j as int,
                        f_val,
                    );
                    lemma_assign_field_found(orig@, j as int, name@, f_val.value@);
                    assert(self@ =~= orig@.update(
                        j as int,
                        (FieldStateView { name: name@, value: f_val.value@ }),
                    ));
                }
            },
            None => {
                proof {
                    lemma_assign_field_absent(orig@, name@, value@);
                }
            },
        }
    }

    /// Applies one union value by assigning its payload into the record in
    /// member order, as the generated apply capability's match arm does.
    #[verifier::loop_isolation(false)]
    pub fn apply_update(&mut self, update: &UpdateValue)
        ensures
            final(self)@ == assign_all(old(self)@, update@.payload),
    {
        proof {
            assert(update@.payload.skip(0) =~= update@.payload);
        }
        let mut k: usize = 0;
        while k < update.payload.len()
            invariant
                0 <= k <= update.payload.len(),
                assign_all(old(self)@, update@.payload) == assign_all(
                    self@,
                    update@.payload.skip(k as int),
                ),
            decreases update.payload.len() - k,
        {
            let ghost state_before = self@;
            let ghost remaining = update@.payload.skip(k as int);
            proof {
                assert(remaining[0] == update@.payload[k as int]);
                assert(remaining.skip(1) =~= update@.payload.skip(k + 1 as int));
                assert(assign_all(state_before, remaining) == assign_all(
                    assign_field(state_before, remaining[0].name, remaining[0].value),
                    remaining.skip(1),
                ));
                assert(update@.payload[k as int] == update.payload@[k as int]@);
            }
            let pair = &update.payload[k];
            self.set_field(&pair.name, pair.value.clone());
            k += 1;
        }
        assert(update@.payload.skip(update.payload.len() as int) =~= Seq::<FieldStateView>::empty());
    }

    /// Performs one generated mutator call: assigns the new values into the
    /// record's fields in member order and returns the union value that
    /// describes exactly that change.
    #[verifier::loop_isolation(false)]
    pub fn invoke_setter(&mut self, method: &MethodDeclaration, values: &Vec<String>) -> (u:
        UpdateValue)
        requires
            values.deep_view().len() == method@.parameters.len(),
        ensures
            u@.variant == method@.variant_name,
            u@.payload == setter_payload(method@, values.deep_view()),
            final(self)@ == assign_all(old(self)@, setter_payload(method@, values.deep_view())),
    {
        let mut payload: Vec<FieldState> = Vec::new();
        let mut i: usize = 0;
        while i < values.len()
            invariant
                0 <= i <= values.len(),
                values.deep_view().len() == method@.parameters.len(),
                payload.deep_view().len() == i,
                forall|j: int| 0 <= j < i ==> payload.deep_view()[j] == setter_payload(
                    method@,
                    values.deep_view(),
                )[j],
            decreases values.len() - i,
        {
            let ghost prev = payload;
            let f = FieldState {
                name: method.parameters[i].name.clone(),
                value: values[i].clone(),
            };
            let ghost f_val = f;
            payload.push(f);
            proof {
                lemma_deep_view_push(prev, payload, f_val);
                assert(method@.parameters[i as int] == method.parameters@[i as int]@);
            }
            i += 1;
        }
        let u = UpdateValue { variant: method.variant_name.clone(), payload };
        proof {
            assert(u@.payload =~= setter_payload(method@, values.deep_view()));
        }
        self.apply_update(&u);
        u
    }
}

impl EnumUpdate<UpdateValue> for RecordState {
    /// Applying a union value means assigning its payload in order.
    open spec fn apply_spec(pre: Seq<FieldStateView>, update: UpdateValue) -> Seq<FieldStateView> {
        assign_all(pre, update@.payload)
    }

    fn apply(&mut self, update: UpdateValue) {
        self.apply_update(&update);
    }
}

/// Two holders of one logical state stay in sync through update values: the
/// holder that called the mutator is left at `assign_all(origin, payload)`
/// and a holder of an equal state that applies the shipped update value
/// lands at `assign_all(replica, payload)` — the same state.
pub proof fn lemma_setter_apply_synchronizes(
    origin: Seq<FieldStateView>,
    replica: Seq<FieldStateView>,
    payload: Seq<FieldStateView>,
)
    requires
        replica == origin,
    ensures
        assign_all(replica, payload) == assign_all(origin, payload),
{
}

} // verus!
