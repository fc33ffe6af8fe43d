use ride_mode::request::Request;
use ride_mode::schema::{
    derive_validate_fields, extract_required_fields, has_override_attr, is_option_type, AttrDecl,
    DataDecl, FieldDecl, FieldsDecl, ItemDecl, ItemForm, RecordDecl, SchemaRegistry, TypeDecl,
};
use ride_mode::validate::ValidateFields;

fn path(segments: &[&str]) -> TypeDecl {
    TypeDecl::Path(segments.iter().map(|s| s.to_string()).collect())
}

fn word(name: &str) -> ItemDecl {
    ItemDecl { name: Some(name.to_string()), form: ItemForm::Word }
}

fn value(name: &str) -> ItemDecl {
    ItemDecl { name: Some(name.to_string()), form: ItemForm::Value }
}

fn list(name: &str) -> ItemDecl {
    ItemDecl { name: Some(name.to_string()), form: ItemForm::List }
}

fn attr(tool: &str, items: Vec<ItemDecl>) -> AttrDecl {
    AttrDecl { path: Some(tool.to_string()), items }
}

fn field(name: &str, attrs: Vec<AttrDecl>, ty: TypeDecl) -> FieldDecl {
    FieldDecl { name: Some(name.to_string()), attrs, ty }
}

fn record(name: &str, fields: Vec<FieldDecl>) -> RecordDecl {
    RecordDecl { name: name.to_string(), data: DataDecl::Struct(FieldsDecl::Named(fields)) }
}

fn request_declaration() -> RecordDecl {
    record(
        "Request",
        vec![
            field("bike_identifier", vec![attr("serde", vec![value("rename")])], path(&["String"])),
            field("change_to_mode", vec![attr("serde", vec![value("rename")])], path(&["String"])),
            field("current_mode", vec![attr("serde", vec![value("rename")])], path(&["Option"])),
        ],
    )
}

#[test]
fn request_schema_is_derived_from_its_declaration() {
    let schema = derive_validate_fields(&request_declaration());
    assert_eq!(schema.record_name, "Request");
    assert_eq!(schema.required, vec!["bike_identifier".to_string(), "change_to_mode".to_string()]);
    let stated: Vec<String> =
        Request::required_fields().iter().map(|name| name.to_string()).collect();
    assert_eq!(schema.required, stated);
}

#[test]
fn request_states_its_own_declaration() {
    let decl = Request::declaration();
    assert_eq!(decl.name, "Request");
    let schema = derive_validate_fields(&decl);
    let stated: Vec<String> =
        Request::required_fields().iter().map(|name| name.to_string()).collect();
    assert_eq!(schema.required, stated);
    match decl.data {
        DataDecl::Struct(FieldsDecl::Named(fields)) => {
            let names: Vec<Option<String>> = fields.iter().map(|f| f.name.clone()).collect();
            assert_eq!(
                names,
                vec![
                    Some("bike_identifier".to_string()),
                    Some("change_to_mode".to_string()),
                    Some("current_mode".to_string())
                ]
            );
            assert!(is_option_type(&fields[2].ty));
            assert!(!is_option_type(&fields[0].ty));
        }
        _ => panic!("expected a struct with named fields"),
    }
}

#[test]
fn derivation_is_repeatable() {
    let first = derive_validate_fields(&request_declaration());
    let second = derive_validate_fields(&request_declaration());
    assert_eq!(first.required, second.required);
}

#[test]
fn option_permits_absence_however_it_is_spelled() {
    assert!(is_option_type(&path(&["Option"])));
    assert!(is_option_type(&path(&["option", "Option"])));
    assert!(is_option_type(&path(&["std", "option", "Option"])));
    assert!(is_option_type(&path(&["core", "option", "Option"])));
}

#[test]
fn other_types_do_not_permit_absence() {
    assert!(!is_option_type(&path(&["String"])));
    assert!(!is_option_type(&path(&["Optional"])));
    assert!(!is_option_type(&path(&["option"])));
    assert!(!is_option_type(&path(&["Option", "Option"])));
    assert!(!is_option_type(&path(&["std", "Option"])));
    assert!(!is_option_type(&path(&["alloc", "option", "Option"])));
    assert!(!is_option_type(&path(&["std", "option", "Option", "Option"])));
    assert!(!is_option_type(&path(&["std", "option", "option"])));
    assert!(!is_option_type(&path(&[])));
    assert!(!is_option_type(&TypeDecl::Other));
}

#[test]
fn markers_make_a_field_optional() {
    assert!(has_override_attr(&vec![attr("field_validator", vec![word("optional")])]));
    assert!(has_override_attr(&vec![attr("serde", vec![word("default")])]));
    assert!(has_override_attr(&vec![attr("serde", vec![value("default")])]));
    assert!(has_override_attr(&vec![attr("serde", vec![value("skip_serializing_if")])]));
    assert!(has_override_attr(&vec![
        attr("serde", vec![value("rename")]),
        attr("doc", vec![word("hidden")]),
        attr("serde", vec![value("rename"), list("bound"), word("default")]),
    ]));
}

#[test]
fn a_marker_word_inside_another_item_is_no_marker() {
    // #[serde(rename = "default_speed")] speed: String
    let decl = record(
        "S",
        vec![field("speed", vec![attr("serde", vec![value("rename")])], path(&["String"]))],
    );
    assert_eq!(extract_required_fields(&decl.data), vec!["speed".to_string()]);
}

#[test]
fn other_attributes_are_no_markers() {
    assert!(!has_override_attr(&vec![]));
    assert!(!has_override_attr(&vec![attr("serde", vec![])]));
    assert!(!has_override_attr(&vec![attr("serde", vec![value("rename")])]));
    assert!(!has_override_attr(&vec![attr("serde", vec![word("skip_serializing_if")])]));
    assert!(!has_override_attr(&vec![attr("serde", vec![list("default")])]));
    assert!(!has_override_attr(&vec![attr("serde", vec![word("defaults")])]));
    assert!(!has_override_attr(&vec![attr("serde", vec![word("optional")])]));
    assert!(!has_override_attr(&vec![attr("field_validator", vec![word("required")])]));
    assert!(!has_override_attr(&vec![attr("field_validator", vec![word("default")])]));
    assert!(!has_override_attr(&vec![attr("field_validator", vec![value("optional")])]));
    assert!(!has_override_attr(&vec![attr("other", vec![word("optional"), word("default")])]));
    assert!(!has_override_attr(&vec![AttrDecl { path: None, items: vec![word("default")] }]));
    assert!(!has_override_attr(&vec![attr(
        "serde",
        vec![ItemDecl { name: None, form: ItemForm::Word }]
    )]));
}

#[test]
fn required_fields_keep_declaration_order() {
    let decl = record(
        "Trip",
        vec![
            field("to", vec![], path(&["String"])),
            field("note", vec![], path(&["Option"])),
            field("from", vec![], TypeDecl::Other),
            field("speed", vec![attr("serde", vec![word("default")])], path(&["f32"])),
            field("hidden", vec![attr("field_validator", vec![word("optional")])], path(&["bool"])),
            field("at", vec![attr("serde", vec![value("rename")])], path(&["u64"])),
            field("last", vec![], path(&["std", "option", "Option"])),
        ],
    );
    assert_eq!(
        extract_required_fields(&decl.data),
        vec!["to".to_string(), "from".to_string(), "at".to_string()]
    );
}

#[test]
fn fields_without_a_name_are_skipped() {
    let decl = DataDecl::Struct(FieldsDecl::Named(vec![
        FieldDecl { name: None, attrs: vec![], ty: path(&["String"]) },
        field("kept", vec![], path(&["String"])),
    ]));
    assert_eq!(extract_required_fields(&decl), vec!["kept".to_string()]);
}

#[test]
fn other_declarations_have_an_empty_schema() {
    assert!(extract_required_fields(&DataDecl::Struct(FieldsDecl::Unnamed)).is_empty());
    assert!(extract_required_fields(&DataDecl::Struct(FieldsDecl::Unit)).is_empty());
    assert!(extract_required_fields(&DataDecl::Enum).is_empty());
    assert!(extract_required_fields(&DataDecl::Union).is_empty());
    assert!(extract_required_fields(&DataDecl::Struct(FieldsDecl::Named(vec![]))).is_empty());
}

#[test]
fn registry_keeps_one_schema_per_type() {
    let registry = SchemaRegistry::new();
    assert!(registry.lookup("Request").is_none());

    let (registry, added) = registry.register(&request_declaration());
    assert!(added);
    let (registry, added) =
        registry.register(&record("Trip", vec![field("to", vec![], path(&["String"]))]));
    assert!(added);

    let changed = record("Request", vec![field("other", vec![], path(&["String"]))]);
    let (registry, added) = registry.register(&changed);
    assert!(!added);

    let found = registry.lookup("Request").unwrap();
    assert_eq!(found.record_name, "Request");
    assert_eq!(found.required, vec!["bike_identifier".to_string(), "change_to_mode".to_string()]);
    assert_eq!(registry.lookup("Trip").unwrap().required, vec!["to".to_string()]);
    assert!(registry.lookup("Other").is_none());
}
