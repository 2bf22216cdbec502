use enum_update::extract::{AttributeDirective, ExtractionError};
use enum_update::generate;
use enum_update::semantics::{FieldState, RecordState, UpdateValue};
use enum_update::syntax::{
    FieldAnnotation, ForwardArgument, RawFieldSyntax, RawRecordSyntax, RecordAnnotation, TypeSyntax,
};
use enum_update::synthesis::MethodDeclaration;
use enum_update::GeneratedArtifacts;

fn owned(text: &str) -> TypeSyntax {
    TypeSyntax::Owned(text.to_string())
}

fn shared_ref(lifetime: &str, referent: &str) -> TypeSyntax {
    TypeSyntax::Reference {
        mutable: false,
        lifetime: Some(lifetime.to_string()),
        referent: referent.to_string(),
    }
}

fn mutable_ref(lifetime: &str, referent: &str) -> TypeSyntax {
    TypeSyntax::Reference {
        mutable: true,
        lifetime: Some(lifetime.to_string()),
        referent: referent.to_string(),
    }
}

fn directive(name: &str, arguments: Option<&[&str]>) -> FieldAnnotation {
    FieldAnnotation {
        name: name.to_string(),
        arguments: arguments.map(|args| args.iter().map(|a| a.to_string()).collect()),
    }
}

fn field(name: &str, ty: TypeSyntax, annotations: Vec<FieldAnnotation>) -> RawFieldSyntax {
    RawFieldSyntax { name: name.to_string(), ty, annotations }
}

fn record(name: &str, fields: Vec<RawFieldSyntax>) -> RawRecordSyntax {
    RawRecordSyntax {
        name: name.to_string(),
        visibility: "pub".to_string(),
        generics: Vec::new(),
        annotations: Vec::new(),
        fields,
    }
}

fn state(pairs: &[(&str, &str)]) -> RecordState {
    RecordState {
        fields: pairs
            .iter()
            .map(|(n, v)| FieldState { name: n.to_string(), value: v.to_string() })
            .collect(),
    }
}

fn update_value(variant: &str, pairs: &[(&str, &str)]) -> UpdateValue {
    UpdateValue {
        variant: variant.to_string(),
        payload: pairs
            .iter()
            .map(|(n, v)| FieldState { name: n.to_string(), value: v.to_string() })
            .collect(),
    }
}

fn setter_named<'a>(artifacts: &'a GeneratedArtifacts, name: &str) -> &'a MethodDeclaration {
    artifacts
        .mutators
        .methods
        .iter()
        .flatten()
        .find(|m| m.name == name)
        .unwrap_or_else(|| panic!("no mutator named {name}"))
}

/// A record description exercising every feature at once: two fields
/// sharing an explicit group, a renamed default, a plain owned field,
/// shared references, and one exclusively mutable reference.
fn test_struct() -> RawRecordSyntax {
    let mut r = record(
        "TestStruct",
        vec![
            field("test", owned("String"), vec![directive("group", Some(&["UpdateBoth"]))]),
            field(
                "test2",
                owned("i32"),
                vec![
                    directive("rename_default", Some(&["ADifferentName"])),
                    directive("group", Some(&["UpdateBoth"])),
                ],
            ),
            field("generics_included", owned("Box<i32>"), vec![]),
            field("a_reference", shared_ref("'a", "str"), vec![]),
            field("custom_value", owned("T"), vec![]),
            field("ref_and_custom", shared_ref("'a", "T"), vec![]),
            field("a_mutable", mutable_ref("'a", "i32"), vec![]),
        ],
    );
    r.generics = vec!["'a".to_string(), "T: Clone".to_string()];
    r.annotations = vec![RecordAnnotation {
        name: "enum_update".to_string(),
        argument: ForwardArgument::Attributes("derive(Debug, PartialEq)".to_string()),
    }];
    r
}

#[test]
fn test() {
    let artifacts = generate(&test_struct()).unwrap();
    let mut state = state(&[
        ("test", "hello"),
        ("test2", "123"),
        ("generics_included", "456"),
        ("a_reference", "world"),
        ("custom_value", "()"),
        ("ref_and_custom", "()"),
        ("a_mutable", "123"),
    ]);
    let method = setter_named(&artifacts, "modify_custom_value");
    assert_eq!(method.variant_name, "CustomValue");
    let change = state.invoke_setter(method, &vec!["()".to_string()]);
    assert_eq!(change, update_value("CustomValue", &[("custom_value", "()")]));
}

#[test]
fn generated_union_shape() {
    let artifacts = generate(&test_struct()).unwrap();
    let union_type = &artifacts.union_type;
    assert_eq!(union_type.name, "TestStructUpdate");
    assert_eq!(union_type.generics, vec!["'a".to_string(), "T: Clone".to_string()]);
    assert_eq!(
        union_type.attributes,
        vec![AttributeDirective { tokens: "derive(Debug, PartialEq)".to_string() }]
    );
    let names: Vec<&str> = union_type.variants.iter().map(|v| v.name.as_str()).collect();
    assert_eq!(
        names,
        vec![
            "UpdateBoth",
            "Test",
            "ADifferentName",
            "GenericsIncluded",
            "AReference",
            "CustomValue",
            "RefAndCustom",
            "AMutable",
        ]
    );
    let both = &union_type.variants[0];
    assert_eq!(both.fields.len(), 2);
    assert_eq!(both.fields[0].name, "test");
    assert_eq!(both.fields[0].ty, owned("String"));
    assert_eq!(both.fields[1].name, "test2");
    assert_eq!(both.fields[1].ty, owned("i32"));
    // The apply capability covers exactly the synthesized variants, in order.
    let arm_names: Vec<&str> = artifacts.capability.arms.iter().map(|a| a.variant_name.as_str()).collect();
    assert_eq!(arm_names, names);
}

#[test]
fn generation_is_deterministic() {
    let first = generate(&test_struct()).unwrap();
    let second = generate(&test_struct()).unwrap();
    assert_eq!(first, second);
}

#[test]
fn default_grouping_single_field() {
    let r = record("SharedState", vec![field("value", owned("String"), vec![])]);
    let artifacts = generate(&r).unwrap();
    assert_eq!(artifacts.union_type.variants.len(), 1);
    let variant = &artifacts.union_type.variants[0];
    assert_eq!(variant.name, "Value");
    assert_eq!(variant.fields.len(), 1);
    assert_eq!(variant.fields[0].name, "value");
    let method = setter_named(&artifacts, "modify_value");
    assert_eq!(method.variant_name, "Value");
    assert_eq!(method.parameters.len(), 1);
    assert_eq!(method.parameters[0].name, "value");
}

#[test]
fn apply_constructed_update() {
    let r = record("SharedState", vec![field("value", owned("String"), vec![])]);
    let artifacts = generate(&r).unwrap();
    assert_eq!(artifacts.union_type.variants[0].name, "Value");
    let mut holder = state(&[("value", "old")]);
    holder.apply_update(&update_value("Value", &[("value", "new")]));
    assert_eq!(holder, state(&[("value", "new")]));
}

#[test]
fn multi_membership_in_both_variants() {
    let r = record(
        "Series",
        vec![
            field(
                "time",
                owned("u32"),
                vec![directive("group", Some(&["RecordOne"])), directive("group", Some(&["RecordTwo"]))],
            ),
            field("value_one", owned("u32"), vec![directive("group", Some(&["RecordOne"]))]),
        ],
    );
    let artifacts = generate(&r).unwrap();
    let names: Vec<&str> = artifacts.union_type.variants.iter().map(|v| v.name.as_str()).collect();
    assert_eq!(names, vec!["RecordOne", "RecordTwo", "Time", "ValueOne"]);
    let record_one = &artifacts.union_type.variants[0];
    let record_two = &artifacts.union_type.variants[1];
    assert!(record_one.fields.iter().any(|f| f.name == "time"));
    assert!(record_two.fields.iter().any(|f| f.name == "time"));
    assert!(record_one.fields.iter().any(|f| f.name == "value_one"));
}

#[test]
fn suppressed_field_appears_nowhere() {
    let r = record(
        "Cache",
        vec![
            field("kept", owned("u32"), vec![]),
            field("cached_data", owned("Vec<u8>"), vec![directive("suppress_default", None)]),
        ],
    );
    let artifacts = generate(&r).unwrap();
    assert_eq!(artifacts.union_type.variants.len(), 1);
    assert_eq!(artifacts.union_type.variants[0].name, "Kept");
    assert_eq!(artifacts.capability.arms.len(), 1);
    assert!(!artifacts.capability.arms[0].fields.iter().any(|f| f == "cached_data"));
    assert_eq!(artifacts.mutators.methods.len(), 1);
    let only = artifacts.mutators.methods[0].as_ref().unwrap();
    assert!(!only.parameters.iter().any(|p| p.name == "cached_data"));
}

#[test]
fn renamed_default_group() {
    let r = record(
        "Names",
        vec![field("original_name", owned("u32"), vec![directive("rename_default", Some(&["NewName"]))])],
    );
    let artifacts = generate(&r).unwrap();
    assert_eq!(artifacts.union_type.variants.len(), 1);
    let variant = &artifacts.union_type.variants[0];
    assert_eq!(variant.name, "NewName");
    assert_eq!(variant.fields.len(), 1);
    assert_eq!(variant.fields[0].name, "original_name");
    let method = setter_named(&artifacts, "modify_new_name");
    assert_eq!(method.variant_name, "NewName");
}

#[test]
fn mutable_reference_has_no_setter() {
    let r = record(
        "Borrowed",
        vec![
            field("plain", owned("u32"), vec![directive("group", Some(&["Mixed"]))]),
            field(
                "exclusive",
                mutable_ref("'a", "i32"),
                vec![directive("group", Some(&["Mixed"])), directive("suppress_default", None)],
            ),
        ],
    );
    let artifacts = generate(&r).unwrap();
    let names: Vec<&str> = artifacts.union_type.variants.iter().map(|v| v.name.as_str()).collect();
    assert_eq!(names, vec!["Mixed", "Plain"]);
    // The mixed group keeps its variant and its apply arm ...
    assert_eq!(artifacts.union_type.variants[0].fields.len(), 2);
    assert_eq!(artifacts.capability.arms[0].variant_name, "Mixed");
    assert_eq!(artifacts.capability.arms[0].fields, vec!["plain".to_string(), "exclusive".to_string()]);
    // ... but no mutator method is generated for it.
    assert!(artifacts.mutators.methods[0].is_none());
    assert!(artifacts.mutators.methods[1].is_some());
}

#[test]
fn shared_reference_moves_other_shapes_duplicate() {
    let r = record(
        "Copies",
        vec![
            field("text", owned("String"), vec![]),
            field("slice", shared_ref("'a", "str"), vec![]),
        ],
    );
    let artifacts = generate(&r).unwrap();
    let text_method = setter_named(&artifacts, "modify_text");
    assert!(text_method.assignments[0].duplicated);
    let slice_method = setter_named(&artifacts, "modify_slice");
    assert!(!slice_method.assignments[0].duplicated);
}

#[test]
fn update_both_scenario() {
    let r = record(
        "Pair",
        vec![
            field("test", owned("String"), vec![directive("group", Some(&["UpdateBoth"]))]),
            field("test2", owned("i32"), vec![directive("group", Some(&["UpdateBoth"]))]),
        ],
    );
    let artifacts = generate(&r).unwrap();
    let both = &artifacts.union_type.variants[0];
    assert_eq!(both.name, "UpdateBoth");
    assert_eq!(both.fields[0].name, "test");
    assert_eq!(both.fields[0].ty, owned("String"));
    assert_eq!(both.fields[1].name, "test2");
    assert_eq!(both.fields[1].ty, owned("i32"));
    let mut holder = state(&[("test", "hello"), ("test2", "123")]);
    let method = setter_named(&artifacts, "modify_update_both");
    let change = holder.invoke_setter(method, &vec!["".to_string(), "0".to_string()]);
    assert_eq!(holder, state(&[("test", ""), ("test2", "0")]));
    assert_eq!(change, update_value("UpdateBoth", &[("test", ""), ("test2", "0")]));
}

#[test]
fn synchronized_replicas() {
    let r = record("SharedState", vec![field("managed_by_first", owned("bool"), vec![])]);
    let artifacts = generate(&r).unwrap();
    let initial = state(&[("managed_by_first", "false")]);
    let mut holder_one = initial.clone();
    let mut holder_two = initial.clone();
    let method = setter_named(&artifacts, "modify_managed_by_first");
    let change = holder_one.invoke_setter(method, &vec!["true".to_string()]);
    assert_eq!(change, update_value("ManagedByFirst", &[("managed_by_first", "true")]));
    // The update value travels to the other holder, which applies it.
    holder_two.apply_update(&change);
    assert_eq!(holder_one, holder_two);
    assert_eq!(holder_two, state(&[("managed_by_first", "true")]));
}

#[test]
fn malformed_group_argument_is_rejected() {
    let r = record(
        "Bad",
        vec![field("x", owned("u32"), vec![directive("group", Some(&["123bad"]))])],
    );
    assert_eq!(generate(&r), Err(ExtractionError::MalformedDirective));
}

#[test]
fn empty_group_argument_list_is_rejected() {
    let r = record("Bad", vec![field("x", owned("u32"), vec![directive("group", Some(&[]))])]);
    assert_eq!(generate(&r), Err(ExtractionError::MalformedDirective));
}

#[test]
fn bare_group_uses_field_name() {
    let r = record("Bare", vec![field("x", owned("u32"), vec![directive("group", None)])]);
    let artifacts = generate(&r).unwrap();
    // The bare directive and the default candidate both name the field.
    let names: Vec<&str> = artifacts.union_type.variants.iter().map(|v| v.name.as_str()).collect();
    assert_eq!(names, vec!["X"]);
    assert_eq!(artifacts.union_type.variants[0].fields.len(), 2);
}

#[test]
fn malformed_rename_is_rejected() {
    let two_args = record(
        "Bad",
        vec![field("x", owned("u32"), vec![directive("rename_default", Some(&["A", "B"]))])],
    );
    assert_eq!(generate(&two_args), Err(ExtractionError::MalformedRename));
    let not_ident = record(
        "Bad",
        vec![field("x", owned("u32"), vec![directive("rename_default", Some(&["1st"]))])],
    );
    assert_eq!(generate(&not_ident), Err(ExtractionError::MalformedRename));
    let bare = record("Bad", vec![field("x", owned("u32"), vec![directive("rename_default", None)])]);
    assert_eq!(generate(&bare), Err(ExtractionError::MalformedRename));
}

#[test]
fn empty_forward_directive_is_rejected() {
    let mut r = record("Bad", vec![field("x", owned("u32"), vec![])]);
    r.annotations = vec![RecordAnnotation {
        name: "enum_update".to_string(),
        argument: ForwardArgument::Attributes(String::new()),
    }];
    assert_eq!(generate(&r), Err(ExtractionError::EmptyForwardDirective));
    r.annotations = vec![RecordAnnotation {
        name: "enum_update".to_string(),
        argument: ForwardArgument::Missing,
    }];
    assert_eq!(generate(&r), Err(ExtractionError::EmptyForwardDirective));
}

#[test]
fn unsupported_forward_shape_is_rejected() {
    let mut r = record("Bad", vec![field("x", owned("u32"), vec![])]);
    r.annotations = vec![RecordAnnotation {
        name: "enum_update".to_string(),
        argument: ForwardArgument::Other("= derive".to_string()),
    }];
    assert_eq!(generate(&r), Err(ExtractionError::UnsupportedForwardShape));
}

#[test]
fn unrelated_record_annotations_are_ignored() {
    let mut r = record("Plain", vec![field("x", owned("u32"), vec![])]);
    r.annotations = vec![RecordAnnotation {
        name: "derive".to_string(),
        argument: ForwardArgument::Other("(Clone)".to_string()),
    }];
    let artifacts = generate(&r).unwrap();
    assert!(artifacts.union_type.attributes.is_empty());
}

#[test]
fn suppress_then_rename_revives_the_candidate() {
    let r = record(
        "Order",
        vec![field(
            "x",
            owned("u32"),
            vec![directive("suppress_default", None), directive("rename_default", Some(&["Last"]))],
        )],
    );
    let artifacts = generate(&r).unwrap();
    let names: Vec<&str> = artifacts.union_type.variants.iter().map(|v| v.name.as_str()).collect();
    assert_eq!(names, vec!["Last"]);
    // And the other way round: a later suppression wins over an earlier rename.
    let r = record(
        "Order",
        vec![field(
            "x",
            owned("u32"),
            vec![directive("rename_default", Some(&["First"])), directive("suppress_default", None)],
        )],
    );
    let artifacts = generate(&r).unwrap();
    assert!(artifacts.union_type.variants.is_empty());
    assert!(artifacts.capability.arms.is_empty());
    assert!(artifacts.mutators.methods.is_empty());
}

#[test]
fn empty_record_generates_empty_artifacts() {
    let r = record("Unit", vec![]);
    let artifacts = generate(&r).unwrap();
    assert_eq!(artifacts.union_type.name, "UnitUpdate");
    assert!(artifacts.union_type.variants.is_empty());
    assert!(artifacts.capability.arms.is_empty());
    assert!(artifacts.mutators.methods.is_empty());
}

#[test]
fn record_generics_pass_through() {
    let mut r = record("Wrapper", vec![field("inner", owned("T"), vec![])]);
    r.generics = vec!["T".to_string()];
    let artifacts = generate(&r).unwrap();
    assert_eq!(artifacts.union_type.generics, vec!["T".to_string()]);
    assert_eq!(artifacts.capability.generics, vec!["T".to_string()]);
    assert_eq!(artifacts.mutators.generics, vec!["T".to_string()]);
    assert_eq!(artifacts.union_type.name, "WrapperUpdate");
    assert_eq!(artifacts.capability.union_name, "WrapperUpdate");
}
