use tsdb_catalog::schema::{
    is_time_column, CatalogIntegrityViolation, TableSchema, FIELD_ENTRY_SIZE, SCHEMA_BASE_SIZE,
};
use tsdb_catalog::{ColumnType, NativeType, TableFiled, UnsupportedTypeError, ValueType};

fn field(id: u64, name: &str, column_type: ColumnType) -> TableFiled {
    TableFiled::new(id, name.to_string(), column_type, 0)
}

#[test]
fn column_type_labels() {
    assert_eq!(ColumnType::Tag.as_str(), "tag");
    assert_eq!(ColumnType::Time.as_str(), "time");
    assert_eq!(ColumnType::Field(ValueType::Integer).as_str(), "i64");
    assert_eq!(ColumnType::Field(ValueType::Unsigned).as_str(), "u64");
    assert_eq!(ColumnType::Field(ValueType::Float).as_str(), "f64");
    assert_eq!(ColumnType::Field(ValueType::Boolean).as_str(), "bool");
    assert_eq!(ColumnType::Field(ValueType::String).as_str(), "string");
}

#[test]
fn column_type_wire_tags() {
    assert_eq!(ColumnType::Field(ValueType::Float).field_type(), 0);
    assert_eq!(ColumnType::Field(ValueType::Integer).field_type(), 1);
    assert_eq!(ColumnType::Field(ValueType::Unsigned).field_type(), 2);
    assert_eq!(ColumnType::Field(ValueType::Boolean).field_type(), 3);
    assert_eq!(ColumnType::Field(ValueType::String).field_type(), 4);
    assert_eq!(ColumnType::Tag.field_type(), 0);
}

#[test]
fn column_type_from_wire_tag() {
    assert_eq!(ColumnType::from_i32(0), ColumnType::Field(ValueType::Float));
    assert_eq!(ColumnType::from_i32(1), ColumnType::Field(ValueType::Integer));
    assert_eq!(ColumnType::from_i32(2), ColumnType::Field(ValueType::Unsigned));
    assert_eq!(ColumnType::from_i32(3), ColumnType::Field(ValueType::Boolean));
    assert_eq!(ColumnType::from_i32(4), ColumnType::Field(ValueType::String));
    assert_eq!(ColumnType::from_i32(5), ColumnType::Time);
    assert_eq!(ColumnType::from_i32(99), ColumnType::Field(ValueType::Unknown));
    assert_eq!(ColumnType::from_i32(-1), ColumnType::Field(ValueType::Unknown));
}

#[test]
fn column_type_is_tag() {
    assert!(ColumnType::Tag.is_tag());
    assert!(!ColumnType::Time.is_tag());
    assert!(!ColumnType::Field(ValueType::Float).is_tag());
}

#[test]
fn native_representation_mapping() {
    assert_eq!(ColumnType::Tag.to_native_representation(), NativeType::Text);
    assert_eq!(ColumnType::Time.to_native_representation(), NativeType::TimestampNanos);
    assert_eq!(
        ColumnType::Field(ValueType::Float).to_native_representation(),
        NativeType::Float64
    );
    assert_eq!(
        ColumnType::Field(ValueType::Unknown).to_native_representation(),
        NativeType::Null
    );
}

#[test]
fn native_round_trip_concrete_fields() {
    for vt in [
        ValueType::Float,
        ValueType::Integer,
        ValueType::Unsigned,
        ValueType::Boolean,
        ValueType::String,
    ] {
        let ct = ColumnType::Field(vt);
        let native = ct.to_native_representation();
        assert_eq!(ColumnType::from_native_representation(native), Ok(ct));
    }
}

#[test]
fn native_narrowing_failures() {
    assert_eq!(
        ColumnType::from_native_representation(NativeType::TimestampNanos),
        Err(UnsupportedTypeError)
    );
    assert_eq!(
        ColumnType::from_native_representation(NativeType::Null),
        Err(UnsupportedTypeError)
    );
}

#[test]
fn table_field_constructors() {
    let f = TableFiled::new(7, "temp".to_string(), ColumnType::Field(ValueType::Float), 2);
    assert_eq!(f.id, 7);
    assert_eq!(f.name, "temp");
    assert_eq!(f.column_type, ColumnType::Field(ValueType::Float));
    assert_eq!(f.codec, 2);

    let d = TableFiled::new_with_default("region".to_string(), ColumnType::Tag);
    assert_eq!(d.id, 0);
    assert_eq!(d.codec, 0);

    let t = TableFiled::time_field(5);
    assert_eq!(t.name, "time");
    assert_eq!(t.column_type, ColumnType::Time);
    assert_eq!(t.codec, 5);
    assert_eq!(t.id, 0);
}

#[test]
fn table_field_structural_equality() {
    let a = field(1, "temp", ColumnType::Field(ValueType::Float));
    let b = field(1, "temp", ColumnType::Field(ValueType::Float));
    let c = field(2, "temp", ColumnType::Field(ValueType::Float));
    assert_eq!(a, b);
    assert_ne!(a, c);
}

#[test]
fn new_sorts_fields_by_name() {
    let s = TableSchema::new(
        "db".to_string(),
        "t".to_string(),
        vec![
            field(1, "zeta", ColumnType::Field(ValueType::Integer)),
            field(2, "alpha", ColumnType::Tag),
            field(3, "mid", ColumnType::Field(ValueType::Float)),
        ],
    )
    .unwrap();
    let names: Vec<&str> = s.fields().iter().map(|f| f.name.as_str()).collect();
    assert_eq!(names, vec!["alpha", "mid", "zeta"]);
    assert_eq!(s.schema_id, 0);
    assert_eq!(s.db, "db");
    assert_eq!(s.name, "t");
}

#[test]
fn duplicate_field_name_rejected() {
    let r = TableSchema::new(
        "db".to_string(),
        "t".to_string(),
        vec![
            field(1, "temp", ColumnType::Field(ValueType::Float)),
            field(2, "temp", ColumnType::Field(ValueType::Integer)),
        ],
    );
    assert_eq!(r.unwrap_err(), CatalogIntegrityViolation::DuplicateFieldName);
}

#[test]
fn duplicate_field_id_rejected() {
    let r = TableSchema::new(
        "db".to_string(),
        "t".to_string(),
        vec![
            field(7, "a", ColumnType::Field(ValueType::Float)),
            field(7, "b", ColumnType::Field(ValueType::Integer)),
        ],
    );
    assert_eq!(r.unwrap_err(), CatalogIntegrityViolation::DuplicateFieldId);
}

#[test]
fn duplicate_id_on_tag_columns_accepted() {
    // Only field-role columns must have unique identifiers.
    let r = TableSchema::new(
        "db".to_string(),
        "t".to_string(),
        vec![field(7, "a", ColumnType::Tag), field(7, "b", ColumnType::Tag)],
    );
    assert!(r.is_ok());
}

#[test]
fn multiple_time_columns_rejected() {
    let r = TableSchema::new(
        "db".to_string(),
        "t".to_string(),
        vec![field(1, "time", ColumnType::Time), field(2, "time2", ColumnType::Time)],
    );
    assert_eq!(r.unwrap_err(), CatalogIntegrityViolation::MultipleTimeColumns);
}

#[test]
fn default_schema_is_empty_public() {
    let s = TableSchema::default();
    assert_eq!(s.db, "public");
    assert_eq!(s.name, "");
    assert_eq!(s.schema_id, 0);
    assert!(s.fields().is_empty());
}

#[test]
fn field_fields_num_counts_field_roles_only() {
    let s = TableSchema::new(
        "db".to_string(),
        "t".to_string(),
        vec![
            field(1, "time", ColumnType::Time),
            field(2, "region", ColumnType::Tag),
            field(3, "temp", ColumnType::Field(ValueType::Float)),
            field(4, "hits", ColumnType::Field(ValueType::Unsigned)),
        ],
    )
    .unwrap();
    assert_eq!(s.field_fields_num(), 2);
}

#[test]
fn fields_id_slots_follow_ascending_ids() {
    let s = TableSchema::new(
        "db".to_string(),
        "t".to_string(),
        vec![
            field(10, "a", ColumnType::Field(ValueType::Float)),
            field(3, "b", ColumnType::Field(ValueType::Integer)),
            field(7, "c", ColumnType::Field(ValueType::Unsigned)),
            field(99, "region", ColumnType::Tag),
            field(0, "time", ColumnType::Time),
        ],
    )
    .unwrap();
    let m = s.fields_id();
    assert_eq!(m.len(), 3);
    assert_eq!(m.get(&3), Some(&0));
    assert_eq!(m.get(&7), Some(&1));
    assert_eq!(m.get(&10), Some(&2));
    assert_eq!(m.get(&99), None);
    assert_eq!(m.get(&0), None);
}

#[test]
fn fields_id_independent_of_insertion_order() {
    let a = TableSchema::new(
        "db".to_string(),
        "t".to_string(),
        vec![
            field(10, "a", ColumnType::Field(ValueType::Float)),
            field(3, "b", ColumnType::Field(ValueType::Integer)),
            field(7, "c", ColumnType::Field(ValueType::Unsigned)),
        ],
    )
    .unwrap();
    let b = TableSchema::new(
        "db".to_string(),
        "t".to_string(),
        vec![
            field(7, "c", ColumnType::Field(ValueType::Unsigned)),
            field(10, "a", ColumnType::Field(ValueType::Float)),
            field(3, "b", ColumnType::Field(ValueType::Integer)),
        ],
    )
    .unwrap();
    assert_eq!(a.fields_id(), b.fields_id());
}

#[test]
fn size_counts_names_and_entries() {
    let s = TableSchema::new(
        "db".to_string(),
        "t".to_string(),
        vec![
            field(1, "time", ColumnType::Time),
            field(3, "temp", ColumnType::Field(ValueType::Float)),
        ],
    )
    .unwrap();
    assert_eq!(s.size(), SCHEMA_BASE_SIZE + 2 * FIELD_ENTRY_SIZE + "time".len() + "temp".len());
}

#[test]
fn columnar_schema_projection() {
    let s = TableSchema::new(
        "db".to_string(),
        "t".to_string(),
        vec![
            field(0, "time", ColumnType::Time),
            field(1, "region", ColumnType::Tag),
            field(3, "temp", ColumnType::Field(ValueType::Float)),
        ],
    )
    .unwrap();
    let c = s.to_columnar_schema();
    assert_eq!(c.columns.len(), 3);
    assert_eq!(c.columns[0].name, "region");
    assert_eq!(c.columns[1].name, "temp");
    assert_eq!(c.columns[2].name, "time");
    assert_eq!(c.columns[0].data_type, NativeType::Text);
    assert_eq!(c.columns[1].data_type, NativeType::Float64);
    assert_eq!(c.columns[2].data_type, NativeType::TimestampNanos);
    assert_eq!(c.columns[1].field_id, "3");
    assert_eq!(c.columns[1].is_tag_flag, "false");
    assert_eq!(c.columns[0].is_tag_flag, "true");
    assert_eq!(c.columns[2].is_tag_flag, "false");
    assert!(c.columns.iter().all(|col| col.nullable));
}

#[test]
fn columnar_schema_large_field_id_text() {
    let s = TableSchema::new(
        "db".to_string(),
        "t".to_string(),
        vec![field(1234567890123, "temp", ColumnType::Field(ValueType::Float))],
    )
    .unwrap();
    let c = s.to_columnar_schema();
    assert_eq!(c.columns[0].field_id, "1234567890123");
}

#[test]
fn columnar_schema_idempotent() {
    let s = TableSchema::new(
        "db".to_string(),
        "t".to_string(),
        vec![
            field(0, "time", ColumnType::Time),
            field(1, "region", ColumnType::Tag),
            field(3, "temp", ColumnType::Field(ValueType::Float)),
        ],
    )
    .unwrap();
    let c1 = s.to_columnar_schema();
    let c2 = s.to_columnar_schema();
    assert_eq!(c1.columns.len(), c2.columns.len());
    for (a, b) in c1.columns.iter().zip(c2.columns.iter()) {
        assert_eq!(a.name, b.name);
        assert_eq!(a.data_type, b.data_type);
        assert_eq!(a.nullable, b.nullable);
        assert_eq!(a.field_id, b.field_id);
        assert_eq!(a.is_tag_flag, b.is_tag_flag);
    }
}

#[test]
fn time_column_recognized_by_name() {
    let s = TableSchema::new(
        "db".to_string(),
        "t".to_string(),
        vec![field(0, "time", ColumnType::Time), field(1, "region", ColumnType::Tag)],
    )
    .unwrap();
    let c = s.to_columnar_schema();
    assert!(!is_time_column(&c.columns[0]));
    assert!(is_time_column(&c.columns[1]));
}
