//! Annotation extraction.
//!
//! The field extractor folds a field's annotation directives left to right
//! into the field's group memberships: explicit `group(...)` memberships plus
//! an optional default-group candidate that starts as the field's own name
//! and can be suppressed by `suppress_default` or replaced by
//! `rename_default(NAME)` — the last directive affecting the candidate wins.
//!
//! The record extractor collects every `enum_update(...)` forwarding marker's
//! nested attribute list, to be re-emitted verbatim on the generated union.

use vstd::prelude::*;
use vstd::string::StringExecFns;
use crate::views::lemma_deep_view_push;
use crate::syntax::{
    is_identifier, FieldAnnotationView, RawFieldSyntax, RawFieldSyntaxView, RawRecordSyntax,
    RecordAnnotationView, ForwardArgument, ForwardArgumentView, TypeSyntax, TypeSyntaxView,
    check_identifier,
};

verus! {

/// The ways a generation request can fail. The first error met while
/// scanning fields, then record annotations, is reported and nothing is
/// generated.
#[derive(Clone, Copy, Debug, PartialEq, Eq, Structural)]
pub enum ExtractionError {
    /// A `group(...)` argument list is empty or contains a non-identifier.
    MalformedDirective,
    /// A `rename_default(...)` argument is not exactly one identifier.
    MalformedRename,
    /// A forwarding marker carries an empty or missing nested attribute list.
    EmptyForwardDirective,
    /// A forwarding marker's argument is not an attribute-list shape.
    UnsupportedForwardShape,
}

/// One field together with the groups it belongs to, as the extractor
/// determined them.
#[derive(Clone, Debug, PartialEq, Eq)]
pub struct FieldDescriptor {
    pub name: String,
    pub ty: TypeSyntax,
    pub explicit_groups: Vec<String>,
    pub default_group_name: Option<String>,
}

/// Mathematical model of [`FieldDescriptor`].
pub struct FieldDescriptorView {
    pub name: Seq<char>,
    pub ty: TypeSyntaxView,
    pub explicit_groups: Seq<Seq<char>>,
    pub default_group_name: Option<Seq<char>>,
}

impl View for FieldDescriptor {
    type V = FieldDescriptorView;

    open spec fn view(&self) -> FieldDescriptorView {
        FieldDescriptorView {
            name: self.name@,
            ty: self.ty@,
            explicit_groups: self.explicit_groups.deep_view(),
            default_group_name: match &self.default_group_name {
                Some(n) => Some(n@),
                None => None,
            },
        }
    }
}

impl DeepView for FieldDescriptor {
    type V = FieldDescriptorView;

    open spec fn deep_view(&self) -> FieldDescriptorView {
        self.view()
    }
}

impl FieldDescriptorView {
    /// Every group this field is a member of: the explicit groups in
    /// declaration order, then the surviving default-group candidate.
    pub open spec fn memberships(self) -> Seq<Seq<char>> {
        self.explicit_groups + match self.default_group_name {
            Some(n) => seq![n],
            None => Seq::<Seq<char>>::empty(),
        }
    }
}

impl FieldDescriptor {
    /// Materialize [`FieldDescriptorView::memberships`] as a list.
    pub fn membership_list(&self) -> (r: Vec<String>)
        ensures
            r.deep_view() == self@.memberships(),
    {
        let mut r: Vec<String> = Vec::new();
        assert(r.deep_view() =~= self@.explicit_groups.take(0));
        let mut i: usize = 0;
        while i < self.explicit_groups.len()
            invariant
                0 <= i <= self.explicit_groups.len(),
                r.deep_view() == self@.explicit_groups.take(i as int),
            decreases self.explicit_groups.len() - i,
        {
            let ghost prev = r;
            r.push(self.explicit_groups[i].clone());
            proof {
                lemma_deep_view_push(prev, r, self.explicit_groups@[i as int]);
                assert(r.deep_view() =~= self@.explicit_groups.take(i + 1 as int));
            }
            i += 1;
        }
        assert(self@.explicit_groups.take(self.explicit_groups.len() as int) =~= self@.explicit_groups);
        match &self.default_group_name {
            Some(n) => {
                let ghost prev = r;
                r.push(n.clone());
                proof {
                    lemma_deep_view_push(prev, r, *n);
                    assert(r.deep_view() =~= self@.memberships());
                }
            },
            None => {
                assert(r.deep_view() =~= self@.memberships());
            },
        }
        r
    }
}

/// Whether every entry of `args` is a bare identifier.
pub open spec fn all_identifiers(args: Seq<Seq<char>>) -> bool {
    forall|i: int| 0 <= i < args.len() ==> is_identifier(#[trigger] args[i])
}

/// The extractor's running state: explicit memberships gathered so far and
/// the current default-group candidate.
pub struct ScanState {
    pub explicit: Seq<Seq<char>>,
    pub candidate: Option<Seq<char>>,
}

/// The state a field's scan starts from: no explicit memberships, and the
/// field's own name as the default-group candidate.
pub open spec fn initial_scan_state(field_name: Seq<char>) -> ScanState {
    ScanState { explicit: Seq::<Seq<char>>::empty(), candidate: Some(field_name) }
}

/// The effect of one directive on the scan state.
pub open spec fn scan_directive(
    state: ScanState,
    ann: FieldAnnotationView,
    field_name: Seq<char>,
) -> Result<ScanState, ExtractionError> {
    if ann.name == "group"@ {
        match ann.arguments {
            None => Ok(ScanState { explicit: state.explicit.push(field_name), ..state }),
            Some(args) => if args.len() > 0 && all_identifiers(args) {
                Ok(ScanState { explicit: state.explicit + args, ..state })
            } else {
                Err(ExtractionError::MalformedDirective)
            },
        }
    } else if ann.name == "suppress_default"@ {
        Ok(ScanState { candidate: None, ..state })
    } else if ann.name == "rename_default"@ {
        match ann.arguments {
            Some(args) => if args.len() == 1 && is_identifier(args[0]) {
                Ok(ScanState { candidate: Some(args[0]), ..state })
            } else {
                Err(ExtractionError::MalformedRename)
            },
            None => Err(ExtractionError::MalformedRename),
        }
    } else {
        Ok(state)
    }
}

/// Left-to-right fold of [`scan_directive`] over a directive list.
pub open spec fn scan_directives(
    state: ScanState,
    anns: Seq<FieldAnnotationView>,
    field_name: Seq<char>,
) -> Result<ScanState, ExtractionError>
    decreases anns.len(),
{
    if anns.len() == 0 {
        Ok(state)
    } else {
        match scan_directive(state, anns[0], field_name) {
            Ok(next) => scan_directives(next, anns.skip(1), field_name),
            Err(e) => Err(e),
        }
    }
}

/// What field extraction returns: the scan's outcome packaged as a
/// descriptor, or its first error.
pub open spec fn extract_spec(f: RawFieldSyntaxView) -> Result<FieldDescriptorView, ExtractionError> {
    match scan_directives(initial_scan_state(f.name), f.annotations, f.name) {
        Ok(st) => Ok(
            FieldDescriptorView {
                name: f.name,
                ty: f.ty,
                explicit_groups: st.explicit,
                default_group_name: st.candidate,
            },
        ),
        Err(e) => Err(e),
    }
}

/// Decides whether `args` is a non-empty list of identifiers.
fn check_identifier_list(args: &Vec<String>) -> (ok: bool)
    ensures
        ok == (args.deep_view().len() > 0 && all_identifiers(args.deep_view())),
{
    if args.len() == 0 {
        return false;
    }
    let mut i: usize = 0;
    while i < args.len()
        invariant
            0 <= i <= args.len(),
            forall|j: int| 0 <= j < i ==> is_identifier(#[trigger] args.deep_view()[j]),
        decreases args.len() - i,
    {
        assert(args.deep_view()[i as int] == args@[i as int]@);
        if !check_identifier(&args[i]) {
            assert(!is_identifier(args.deep_view()[i as int]));
            return false;
        }
        i += 1;
    }
    true
}

/// Appends clones of every entry of `src` to `dst`.
fn append_strings(dst: &mut Vec<String>, src: &Vec<String>)
    ensures
        final(dst).deep_view() == old(dst).deep_view() + src.deep_view(),
{
    proof {
        assert(dst.deep_view() =~= old(dst).deep_view() + src.deep_view().take(0));
    }
    let mut i: usize = 0;
    while i < src.len()
        invariant
            0 <= i <= src.len(),
            dst.deep_view() == old(dst).deep_view() + src.deep_view().take(i as int),
        decreases src.len() - i,
    {
        let ghost prev = *dst;
        dst.push(src[i].clone());
        proof {
            lemma_deep_view_push(prev, *dst, src@[i as int]);
            assert(dst.deep_view() =~= old(dst).deep_view() + src.deep_view().take(i + 1 as int));
        }
        i += 1;
    }
    assert(src.deep_view().take(src.len() as int) =~= src.deep_view());
}

/// Reads one field's annotation directives and produces its group-membership
/// list and default-group outcome, or the first error met in the scan.
#[verifier::loop_isolation(false)]
pub fn extract(field: &RawFieldSyntax) -> (res: Result<FieldDescriptor, ExtractionError>)
    ensures
        (match res {
            Ok(d) => extract_spec(field@) == Ok::<FieldDescriptorView, ExtractionError>(d@),
            Err(e) => extract_spec(field@) == Err::<FieldDescriptorView, ExtractionError>(e),
        }),
{
    let group_marker = String::from_str("group");
    let suppress_marker = String::from_str("suppress_default");
    let rename_marker = String::from_str("rename_default");

    let mut explicit: Vec<String> = Vec::new();
    let mut candidate: Option<String> = Some(field.name.clone());
    let ghost initial = initial_scan_state(field@.name);
    proof {
        assert(explicit.deep_view() =~= Seq::<Seq<char>>::empty());
        assert(field@.annotations.skip(0) =~= field@.annotations);
    }

    let mut i: usize = 0;
    while i < field.annotations.len()
        invariant
            0 <= i <= field.annotations.len(),
            scan_directives(initial, field@.annotations, field@.name) == scan_directives(
                (ScanState {
                    explicit: explicit.deep_view(),
                    candidate: match &candidate {
                        Some(n) => Some(n@),
                        None => None,
                    },
                }),
                field@.annotations.skip(i as int),
                field@.name,
            ),
        decreases field.annotations.len() - i,
    {
        let ghost state_before = ScanState {
            explicit: explicit.deep_view(),
            candidate: match &candidate {
                Some(n) => Some(n@),
                None => None,
            },
        };
        let ghost remaining = field@.annotations.skip(i as int);
        proof {
            assert(remaining[0] == field@.annotations[i as int]);
            assert(remaining.skip(1) =~= field@.annotations.skip(i + 1 as int));
            assert(scan_directives(state_before, remaining, field@.name) == (match scan_directive(
                state_before,
                remaining[0],
                field@.name,
            ) {
                Ok(next) => scan_directives(next, remaining.skip(1), field@.name),
                Err(e) => Err::<ScanState, ExtractionError>(e),
            }));
        }
        let ann = &field.annotations[i];
        proof {
            assert(ann@ == remaining[0]);
        }
        if ann.name == group_marker {
            match &ann.arguments {
                None => {
                    let ghost prev = explicit;
                    explicit.push(field.name.clone());
                    proof {
                        lemma_deep_view_push(prev, explicit, field.name);
                        assert(explicit.deep_view() == state_before.explicit.push(field@.name));
                    }
                },
                Some(args) => {
                    if check_identifier_list(args) {
                        append_strings(&mut explicit, args);
                    } else {
                        return Err(ExtractionError::MalformedDirective);
                    }
                },
            }
        } else if ann.name == suppress_marker {
            candidate = None;
        } else if ann.name == rename_marker {
            match &ann.arguments {
                Some(args) => {
                    if args.len() == 1 {
                        if check_identifier(&args[0]) {
                            candidate = Some(args[0].clone());
                        } else {
                            return Err(ExtractionError::MalformedRename);
                        }
                    } else {
                        return Err(ExtractionError::MalformedRename);
                    }
                },
                None => {
                    return Err(ExtractionError::MalformedRename);
                },
            }
        }
        i += 1;
    }
    assert(field@.annotations.skip(field.annotations.len() as int) =~= Seq::<FieldAnnotationView>::empty());
    Ok(FieldDescriptor {
        name: field.name.clone(),
        ty: field.ty.duplicate(),
        explicit_groups: explicit,
        default_group_name: candidate,
    })
}

/// Folds [`extract_spec`] over the fields in declaration order, returning
/// the descriptors or the first error.
pub open spec fn extract_fields_from(
    acc: Seq<FieldDescriptorView>,
    fields: Seq<RawFieldSyntaxView>,
) -> Result<Seq<FieldDescriptorView>, ExtractionError>
    decreases fields.len(),
{
    if fields.len() == 0 {
        Ok(acc)
    } else {
        match extract_spec(fields[0]) {
            Ok(d) => extract_fields_from(acc.push(d), fields.skip(1)),
            Err(e) => Err(e),
        }
    }
}

/// What extracting the whole field list returns.
pub open spec fn extract_fields_spec(
    fields: Seq<RawFieldSyntaxView>,
) -> Result<Seq<FieldDescriptorView>, ExtractionError> {
    extract_fields_from(Seq::<FieldDescriptorView>::empty(), fields)
}

/// Extracts every field in declaration order, stopping at the first error.
#[verifier::loop_isolation(false)]
pub fn extract_fields(fields: &Vec<RawFieldSyntax>) -> (res: Result<
    Vec<FieldDescriptor>,
    ExtractionError,
>)
    ensures
        (match res {
            Ok(ds) => extract_fields_spec(fields.deep_view()) == Ok::<
                Seq<FieldDescriptorView>,
                ExtractionError,
            >(ds.deep_view()),
            Err(e) => extract_fields_spec(fields.deep_view()) == Err::<
                Seq<FieldDescriptorView>,
                ExtractionError,
            >(e),
        }),
{
    let mut descriptors: Vec<FieldDescriptor> = Vec::new();
    proof {
        assert(descriptors.deep_view() =~= Seq::<FieldDescriptorView>::empty());
        assert(fields.deep_view().skip(0) =~= fields.deep_view());
    }
    let mut i: usize = 0;
    while i < fields.len()
        invariant
            0 <= i <= fields.len(),
            extract_fields_spec(fields.deep_view()) == extract_fields_from(
                descriptors.deep_view(),
                fields.deep_view().skip(i as int),
            ),
        decreases fields.len() - i,
    {
        let ghost acc_before = descriptors.deep_view();
        let ghost remaining = fields.deep_view().skip(i as int);
        proof {
            assert(remaining[0] == fields.deep_view()[i as int]);
            assert(remaining.skip(1) =~= fields.deep_view().skip(i + 1 as int));
            assert(extract_fields_from(acc_before, remaining) == (match extract_spec(remaining[0]) {
                Ok(d) => extract_fields_from(acc_before.push(d), remaining.skip(1)),
                Err(e) => Err::<Seq<FieldDescriptorView>, ExtractionError>(e),
            }));
        }
        let field = &fields[i];
        proof {
            assert(field@ == remaining[0]);
        }
        match extract(field) {
            Ok(d) => {
                let ghost d_val = d;
                let ghost prev = descriptors;
                descriptors.push(d);
                proof {
                    lemma_deep_view_push(prev, descriptors, d_val);
                }
            },
            Err(e) => {
                return Err(e);
            },
        }
        i += 1;
    }
    assert(fields.deep_view().skip(fields.len() as int) =~= Seq::<RawFieldSyntaxView>::empty());
    Ok(descriptors)
}

/// A declaration decorator to attach verbatim to the generated union type.
#[derive(Clone, Debug, PartialEq, Eq)]
pub struct AttributeDirective {
    pub tokens: String,
}

impl View for AttributeDirective {
    type V = Seq<char>;

    open spec fn view(&self) -> Seq<char> {
        self.tokens@
    }
}

impl DeepView for AttributeDirective {
    type V = Seq<char>;

    open spec fn deep_view(&self) -> Seq<char> {
        self.tokens@
    }
}

/// The effect of one record-level annotation on the gathered decorator list:
/// a forwarding marker's nested attribute list is unwrapped and appended,
/// anything else contributes nothing.
pub open spec fn forward_step(
    acc: Seq<Seq<char>>,
    ann: RecordAnnotationView,
) -> Result<Seq<Seq<char>>, ExtractionError> {
    if ann.name == "enum_update"@ {
        match ann.argument {
            ForwardArgumentView::Attributes(tokens) => if tokens.len() > 0 {
                Ok(acc.push(tokens))
            } else {
                Err(ExtractionError::EmptyForwardDirective)
            },
            ForwardArgumentView::Missing => Err(ExtractionError::EmptyForwardDirective),
            ForwardArgumentView::Other(_) => Err(ExtractionError::UnsupportedForwardShape),
        }
    } else {
        Ok(acc)
    }
}

/// Left-to-right fold of [`forward_step`] over the record's annotations.
pub open spec fn forwarded_from(
    acc: Seq<Seq<char>>,
    anns: Seq<RecordAnnotationView>,
) -> Result<Seq<Seq<char>>, ExtractionError>
    decreases anns.len(),
{
    if anns.len() == 0 {
        Ok(acc)
    } else {
        match forward_step(acc, anns[0]) {
            Ok(next) => forwarded_from(next, anns.skip(1)),
            Err(e) => Err(e),
        }
    }
}

/// What record-annotation extraction returns for the given annotations.
pub open spec fn forwarded_spec(
    anns: Seq<RecordAnnotationView>,
) -> Result<Seq<Seq<char>>, ExtractionError> {
    forwarded_from(Seq::<Seq<char>>::empty(), anns)
}

/// Reads the record's own annotations and collects each forwarding marker's
/// nested attribute list as a standalone decorator for the generated union.
#[verifier::loop_isolation(false)]
pub fn extract_forwarded_attributes(record: &RawRecordSyntax) -> (res: Result<
    Vec<AttributeDirective>,
    ExtractionError,
>)
    ensures
        (match res {
            Ok(attrs) => forwarded_spec(record@.annotations) == Ok::<Seq<Seq<char>>, ExtractionError>(
                attrs.deep_view(),
            ),
            Err(e) => forwarded_spec(record@.annotations) == Err::<Seq<Seq<char>>, ExtractionError>(e),
        }),
{
    let marker = String::from_str("enum_update");
    let mut attrs: Vec<AttributeDirective> = Vec::new();
    proof {
        assert(attrs.deep_view() =~= Seq::<Seq<char>>::empty());
        assert(record@.annotations.skip(0) =~= record@.annotations);
    }
    let mut i: usize = 0;
    while i < record.annotations.len()
        invariant
            0 <= i <= record.annotations.len(),
            forwarded_spec(record@.annotations) == forwarded_from(
                attrs.deep_view(),
                record@.annotations.skip(i as int),
            ),
        decreases record.annotations.len() - i,
    {
        let ghost acc_before = attrs.deep_view();
        let ghost remaining = record@.annotations.skip(i as int);
        proof {
            assert(remaining[0] == record@.annotations[i as int]);
            assert(remaining.skip(1) =~= record@.annotations.skip(i + 1 as int));
            assert(forwarded_from(acc_before, remaining) == (match forward_step(acc_before, remaining[0]) {
                Ok(next) => forwarded_from(next, remaining.skip(1)),
                Err(e) => Err::<Seq<Seq<char>>, ExtractionError>(e),
            }));
        }
        let ann = &record.annotations[i];
        proof {
            assert(ann@ == remaining[0]);
        }
        if ann.name == marker {
            match &ann.argument {
                ForwardArgument::Attributes(tokens) => {
                    if tokens.as_str().unicode_len() > 0 {
                        let ghost prev = attrs;
                        attrs.push(AttributeDirective { tokens: tokens.clone() });
                        proof {
                            lemma_deep_view_push(prev, attrs, (AttributeDirective { tokens: *tokens }));
                        }
                    } else {
                        return Err(ExtractionError::EmptyForwardDirective);
                    }
                },
                ForwardArgument::Missing => {
                    return Err(ExtractionError::EmptyForwardDirective);
                },
                ForwardArgument::Other(_) => {
                    return Err(ExtractionError::UnsupportedForwardShape);
                },
            }
        }
        i += 1;
    }
    assert(record@.annotations.skip(record.annotations.len() as int) =~= Seq::<RecordAnnotationView>::empty());
    Ok(attrs)
}

} // verus!
