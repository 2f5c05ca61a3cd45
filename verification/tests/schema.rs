use datafusion_csv::schema::{DataType, Field, Schema};

#[test]
fn fields_keep_what_they_are_given() {
    let field = Field::new("age", DataType::Int64, true);
    assert_eq!(field.name(), "age");
    assert_eq!(field.data_type(), DataType::Int64);
    assert!(field.is_nullable());
    let strict = Field::new("", DataType::Boolean, false);
    assert_eq!(strict.name(), "");
    assert!(!strict.is_nullable());
    assert_eq!(field.clone(), field);
    assert_ne!(field, strict);
}

#[test]
fn schemas_list_their_fields_in_order() {
    let schema = Schema::new(vec![
        Field::new("a", DataType::Utf8, true),
        Field::new("b", DataType::Float64, true),
    ]);
    assert_eq!(schema.len(), 2);
    assert_eq!(schema.fields().len(), 2);
    assert_eq!(schema.field(0).name(), "a");
    assert_eq!(schema.field(1).data_type(), DataType::Float64);
    assert_eq!(schema.clone(), schema);
    assert_eq!(Schema::empty().len(), 0);
    assert_eq!(Schema::empty(), Schema::new(Vec::new()));
}

#[test]
fn projecting_a_schema() {
    let schema = Schema::new(vec![
        Field::new("a", DataType::Utf8, true),
        Field::new("b", DataType::Float64, true),
        Field::new("c", DataType::Int64, false),
    ]);
    let projected = schema.project(&[2, 0]).unwrap();
    assert_eq!(
        projected,
        Schema::new(vec![
            Field::new("c", DataType::Int64, false),
            Field::new("a", DataType::Utf8, true)
        ])
    );
    assert_eq!(schema.project(&[]).unwrap(), Schema::empty());
    assert_eq!(schema.project(&[1, 1]).unwrap().len(), 2);
    assert!(schema.project(&[3]).is_none());
    assert!(schema.project(&[0, 1, 2, 3]).is_none());
    assert!(Schema::empty().project(&[0]).is_none());
}
