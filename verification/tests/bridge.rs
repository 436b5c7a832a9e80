use schema_bridge::register;
use schema_bridge::ForeignValue;
use schema_bridge::GenericValue;
use schema_bridge::NativeType;
use schema_bridge::Point;

fn point_tree(x: i64, y: i64) -> GenericValue {
    GenericValue::Mapping(vec![
        ("x".to_string(), GenericValue::Int(x)),
        ("y".to_string(), GenericValue::Int(y)),
    ])
}

#[test]
fn codec_round_trip_via_generic_path() {
    let p = Point { x: 1, y: 2 };
    let tree = p.encode().expect("encoding a point always succeeds");
    let q = Point::decode(&tree).expect("decoding an encoded point succeeds");
    assert_eq!(p, q);
}

#[test]
fn codec_round_trip_extreme_coordinates() {
    let p = Point { x: i64::MAX, y: i64::MIN };
    let tree = p.encode().expect("encoding a point always succeeds");
    let q = Point::decode(&tree).expect("decoding an encoded point succeeds");
    assert_eq!(p, q);
}

#[test]
fn validate_generic_tree_builds_instance() {
    let descriptor = register::<Point>();
    let result = descriptor.validate(ForeignValue::Generic(point_tree(1, 2)));
    match result {
        Ok(p) => assert_eq!(p, Point { x: 1, y: 2 }),
        Err(e) => panic!("expected success, got: {}", e.message),
    }
}

#[test]
fn validate_fast_path_returns_instance_unchanged() {
    let descriptor = register::<Point>();
    let already_native = Point { x: 3, y: 4 };
    let result = descriptor.validate(ForeignValue::Instance(already_native));
    match result {
        Ok(p) => assert_eq!(p, already_native),
        Err(e) => panic!("expected success, got: {}", e.message),
    }
}

#[test]
fn validate_malformed_tree_reports_deserialize_failure() {
    let descriptor = register::<Point>();
    let malformed = GenericValue::Mapping(vec![(
        "bad".to_string(),
        GenericValue::Text("shape".to_string()),
    )]);
    let result = descriptor.validate(ForeignValue::Generic(malformed));
    let err = result.expect_err("a malformed tree must be rejected");
    assert!(err.message.starts_with("Failed to deserialize: "));
    assert!(err.message.contains("missing field `x`"));
    assert_eq!(err.message, "Failed to deserialize: missing field `x`");
}

#[test]
fn validate_reports_wrong_field_type() {
    let descriptor = register::<Point>();
    let tree = GenericValue::Mapping(vec![
        ("x".to_string(), GenericValue::Text("one".to_string())),
        ("y".to_string(), GenericValue::Int(2)),
    ]);
    let err = descriptor
        .validate(ForeignValue::Generic(tree))
        .expect_err("a mistyped field must be rejected");
    assert_eq!(
        err.message,
        "Failed to deserialize: invalid value for field `x`: expected an integer"
    );
}

#[test]
fn validate_reports_missing_second_field() {
    let descriptor = register::<Point>();
    let tree = GenericValue::Mapping(vec![("x".to_string(), GenericValue::Int(1))]);
    let err = descriptor
        .validate(ForeignValue::Generic(tree))
        .expect_err("a tree without `y` must be rejected");
    assert_eq!(err.message, "Failed to deserialize: missing field `y`");
}

#[test]
fn validate_rejects_non_mapping_value() {
    let descriptor = register::<Point>();
    let err = descriptor
        .validate(ForeignValue::Generic(GenericValue::Int(5)))
        .expect_err("a scalar must be rejected");
    assert_eq!(
        err.message,
        "Failed to deserialize: expected a string-keyed mapping, found an integer"
    );
}

#[test]
fn validate_takes_first_entry_of_duplicate_keys() {
    let descriptor = register::<Point>();
    let tree = GenericValue::Mapping(vec![
        ("x".to_string(), GenericValue::Int(1)),
        ("x".to_string(), GenericValue::Int(9)),
        ("y".to_string(), GenericValue::Int(2)),
    ]);
    let result = descriptor.validate(ForeignValue::Generic(tree));
    match result {
        Ok(p) => assert_eq!(p, Point { x: 1, y: 2 }),
        Err(e) => panic!("expected success, got: {}", e.message),
    }
}

#[test]
fn validate_ignores_extra_entries() {
    let descriptor = register::<Point>();
    let tree = GenericValue::Mapping(vec![
        ("x".to_string(), GenericValue::Int(7)),
        ("y".to_string(), GenericValue::Int(8)),
        ("note".to_string(), GenericValue::List(vec![GenericValue::Null])),
    ]);
    let result = descriptor.validate(ForeignValue::Generic(tree));
    match result {
        Ok(p) => assert_eq!(p, Point { x: 7, y: 8 }),
        Err(e) => panic!("expected success, got: {}", e.message),
    }
}

#[test]
fn serialize_instance_yields_generic_tree() {
    let descriptor = register::<Point>();
    let result = descriptor.serialize(ForeignValue::Instance(Point { x: 1, y: 2 }));
    match result {
        Ok(tree) => assert_eq!(tree, point_tree(1, 2)),
        Err(e) => panic!("expected success, got: {}", e.message),
    }
}

#[test]
fn serialize_defensive_extraction_failure() {
    let descriptor = register::<Point>();
    let err = descriptor
        .serialize(ForeignValue::Generic(point_tree(1, 2)))
        .expect_err("a value without the native identity must be rejected");
    assert!(err.message.starts_with("Failed to extract: "));
    assert_eq!(
        err.message,
        "Failed to extract: the value is a mapping, not an instance of the native type"
    );
}

#[test]
fn serialize_extraction_failure_names_the_shape() {
    let descriptor = register::<Point>();
    let err = descriptor
        .serialize(ForeignValue::Generic(GenericValue::List(vec![])))
        .expect_err("a sequence must be rejected");
    assert_eq!(
        err.message,
        "Failed to extract: the value is a sequence, not an instance of the native type"
    );
    let err = descriptor
        .serialize(ForeignValue::Generic(GenericValue::Null))
        .expect_err("null must be rejected");
    assert_eq!(
        err.message,
        "Failed to extract: the value is null, not an instance of the native type"
    );
}

#[test]
fn end_to_end_scenario() {
    let descriptor = register::<Point>();

    let validated = descriptor.validate(ForeignValue::Generic(point_tree(1, 2)));
    match validated {
        Ok(p) => {
            assert_eq!(p, Point { x: 1, y: 2 });
            let serialized = descriptor.serialize(ForeignValue::Instance(p));
            match serialized {
                Ok(tree) => assert_eq!(tree, point_tree(1, 2)),
                Err(e) => panic!("expected success, got: {}", e.message),
            }
        },
        Err(e) => panic!("expected success, got: {}", e.message),
    }

    let native = Point { x: 3, y: 4 };
    match descriptor.validate(ForeignValue::Instance(native)) {
        Ok(p) => assert_eq!(p, native),
        Err(e) => panic!("expected success, got: {}", e.message),
    }
}
