use rust_on_rails::derive_plan::{child_type, plan_component, ChildType, ComponentPlan, DeriveError, DeriveInput, FieldInfo, FieldType, VariantBinding, VariantFields};

fn ty(first: Option<&str>, arg: Option<&str>) -> FieldType {
    FieldType { first_segment: first.map(|s| s.to_string()), first_argument_segment: arg.map(|s| s.to_string()) }
}

fn field(first: Option<&str>, arg: Option<&str>, skip: bool) -> FieldInfo {
    FieldInfo { ty: ty(first, arg), skip }
}

#[test]
fn child_types() {
    assert_eq!(child_type(&ty(Some("Option"), Some("Text"))), ChildType::Opt);
    assert_eq!(child_type(&ty(Some("Vec"), Some("Box"))), ChildType::VecBox);
    assert_eq!(child_type(&ty(Some("Vec"), Some("Text"))), ChildType::Vector);
    assert_eq!(child_type(&ty(Some("Vec"), None)), ChildType::Vector);
    assert_eq!(child_type(&ty(Some("Box"), Some("dyn"))), ChildType::Boxed);
    assert_eq!(child_type(&ty(Some("Text"), None)), ChildType::Child);
    assert_eq!(child_type(&ty(None, None)), ChildType::Child);
}

#[test]
fn struct_plan_skips_layout_and_skipped_fields() {
    let input = DeriveInput::NamedStruct(vec![
        field(Some("Stack"), None, false),
        field(Some("Text"), None, false),
        field(Some("u32"), None, true),
        field(Some("Vec"), Some("Box"), false),
    ]);
    match plan_component(&input) {
        Ok(ComponentPlan::Struct { layout, children }) => {
            assert_eq!(layout, 0);
            assert_eq!(children, vec![(1, ChildType::Child), (3, ChildType::VecBox)]);
        }
        other => panic!("unexpected {:?}", other),
    }
}

#[test]
fn struct_plan_errors() {
    assert_eq!(plan_component(&DeriveInput::TupleStruct(vec![])).unwrap_err(), DeriveError::MissingLayout);
    assert_eq!(
        plan_component(&DeriveInput::TupleStruct(vec![field(Some("Stack"), None, false), field(Some("Text"), None, true)]))
            .unwrap_err(),
        DeriveError::NoChildren
    );
    assert_eq!(plan_component(&DeriveInput::UnitStruct).unwrap_err(), DeriveError::UnitStruct);
    assert_eq!(plan_component(&DeriveInput::Union).unwrap_err(), DeriveError::Union);
    assert_eq!(
        DeriveError::NoChildren.message(),
        "Component requires at least one child component in the structure"
    );
}

#[test]
fn enum_plan() {
    let input = DeriveInput::Enum(vec![
        VariantFields::Unnamed(Some(ty(Some("Box"), None))),
        VariantFields::Named(Some(ty(Some("Text"), None))),
        VariantFields::Named(Some(ty(Some("Box"), Some("Text")))),
    ]);
    match plan_component(&input) {
        Ok(ComponentPlan::Enum { variants }) => assert_eq!(
            variants,
            vec![
                (VariantBinding::FirstField, true),
                (VariantBinding::FieldNamedC, false),
                (VariantBinding::FieldNamedC, true),
            ]
        ),
        other => panic!("unexpected {:?}", other),
    }
    let bad = DeriveInput::Enum(vec![VariantFields::Unnamed(Some(ty(Some("Text"), None))), VariantFields::Unit]);
    assert_eq!(plan_component(&bad).unwrap_err(), DeriveError::VariantWithoutComponent);
    let empty_braces = DeriveInput::Enum(vec![VariantFields::Named(None)]);
    assert_eq!(plan_component(&empty_braces).unwrap_err(), DeriveError::VariantWithoutComponent);
    let empty_parens = DeriveInput::Enum(vec![VariantFields::Unnamed(None)]);
    assert_eq!(plan_component(&empty_parens).unwrap_err(), DeriveError::VariantWithoutComponent);
}
