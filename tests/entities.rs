use rext_core::{annotate_entity_lines, is_sea_orm_entity, line_needs_schema};

#[test]
fn entity_header_is_recognised() {
    assert!(is_sea_orm_entity("//! `SeaORM` Entity, @generated by sea-orm-codegen 1.1"));
    assert!(is_sea_orm_entity("   //! `SeaORM` Entity"));
    assert!(!is_sea_orm_entity("//! Something else"));
    assert!(!is_sea_orm_entity(""));
}

#[test]
fn schema_attribute_goes_before_wrapped_fields() {
    assert!(line_needs_schema("    pub id: Uuid,"));
    assert!(line_needs_schema("\tpub created_at: DateTimeWithTimeZone,"));
    assert!(!line_needs_schema("    pub name: String,"));
    assert!(!line_needs_schema("    id: Uuid,"));
    let lines: Vec<String> = vec!["pub struct Model {", "    pub id: Uuid,", "    pub name: String,", "}"]
        .into_iter()
        .map(String::from)
        .collect();
    let out = annotate_entity_lines(&lines);
    assert_eq!(
        out,
        vec![
            "pub struct Model {".to_string(),
            "    #[schema(value_type = String)]".to_string(),
            "    pub id: Uuid,".to_string(),
            "    pub name: String,".to_string(),
            "}".to_string(),
        ]
    );
}
