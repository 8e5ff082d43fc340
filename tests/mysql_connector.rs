use schema_migration::connector_error::ConnectorError;
use schema_migration::mysql_connector::{
    Field, FieldType, IndexDefinition, IndexType, Model, MySqlDatamodelConnector,
};
use schema_migration::native_types::{MySqlType, NativeTypeInstance, ScalarType};

fn native_field(name: &str, ty: &str, t: MySqlType, unique: bool, id: bool) -> Field {
    Field {
        name: name.to_string(),
        field_type: FieldType::NativeType(
            ScalarType::String,
            NativeTypeInstance {
                name: ty.to_string(),
                args: Vec::new(),
                native_type: t,
            },
        ),
        is_unique: unique,
        is_id: id,
    }
}

fn out_of_range_message(r: Result<(), ConnectorError>) -> String {
    match r {
        Err(ConnectorError::ArgumentOutOfRange { message, native_type: _, connector_name }) => {
            assert_eq!(connector_name, "MySQL");
            message
        }
        other => panic!("expected an out-of-range error, got {:?}", other),
    }
}

#[test]
fn connector_lists_constructors_and_capabilities() {
    let connector = MySqlDatamodelConnector::new();
    let constructors = connector.available_native_type_constructors();
    assert_eq!(constructors.len(), 33);
    assert_eq!(constructors[0].name, "Int");
    assert_eq!(constructors[10].name, "Decimal");
    assert_eq!(constructors[10].number_of_optional_args, 2);
    assert_eq!(constructors[15].name, "Char");
    assert_eq!(constructors[15].number_of_args, 1);
    assert_eq!(constructors[4].prisma_types, vec![ScalarType::Boolean, ScalarType::Int]);
    assert_eq!(constructors[32].name, "JSON");
    assert_eq!(connector.capabilities().len(), 6);
    assert_eq!(MySqlDatamodelConnector::default().available_native_type_constructors().len(), 33);
}

#[test]
fn parse_decimal_with_two_arguments() {
    let connector = MySqlDatamodelConnector::new();
    let instance = connector
        .parse_native_type("Decimal", vec!["10".to_string(), "2".to_string()])
        .unwrap();
    assert_eq!(instance.name, "Decimal");
    assert_eq!(instance.args, vec!["10".to_string(), "2".to_string()]);
    assert_eq!(instance.native_type, MySqlType::Decimal(Some((10, 2))));
}

#[test]
fn parse_optional_arguments_may_be_left_out() {
    let connector = MySqlDatamodelConnector::new();
    let time = connector.parse_native_type("Time", Vec::new()).unwrap();
    assert_eq!(time.native_type, MySqlType::Time(None));
    let numeric = connector.parse_native_type("Numeric", Vec::new()).unwrap();
    assert_eq!(numeric.native_type, MySqlType::Numeric(None));
    let datetime = connector.parse_native_type("Datetime", vec!["+3".to_string()]).unwrap();
    assert_eq!(datetime.native_type, MySqlType::DateTime(Some(3)));
}

#[test]
fn parse_wrong_argument_count_fails() {
    let connector = MySqlDatamodelConnector::new();
    match connector.parse_native_type("VarChar", Vec::new()) {
        Err(ConnectorError::ArgumentCountMismatch { native_type, required_count, given_count }) => {
            assert_eq!(native_type, "VarChar");
            assert_eq!(required_count, 1);
            assert_eq!(given_count, 0);
        }
        other => panic!("unexpected {:?}", other),
    }
    match connector.parse_native_type("Decimal", vec!["1".to_string()]) {
        Err(ConnectorError::ArgumentCountMismatch { required_count, given_count, .. }) => {
            assert_eq!(required_count, 2);
            assert_eq!(given_count, 1);
        }
        other => panic!("unexpected {:?}", other),
    }
}

#[test]
fn parse_non_numeric_argument_fails() {
    let connector = MySqlDatamodelConnector::new();
    match connector.parse_native_type("Bit", vec!["x".to_string()]) {
        Err(ConnectorError::ValueParserError { expected_type, raw }) => {
            assert_eq!(expected_type, "numeric");
            assert_eq!(raw, "x");
        }
        other => panic!("unexpected {:?}", other),
    }
    assert!(connector.parse_native_type("Char", vec!["4294967296".to_string()]).is_err());
    assert!(connector.parse_native_type("Char", vec!["".to_string()]).is_err());
}

#[test]
fn parse_keeps_arguments_of_types_without_arguments() {
    let connector = MySqlDatamodelConnector::new();
    let int = connector.parse_native_type("Int", Vec::new()).unwrap();
    assert_eq!(int.native_type, MySqlType::Int);
    assert!(int.args.is_empty());
}

#[test]
fn introspect_writes_name_and_arguments() {
    let connector = MySqlDatamodelConnector::new();
    let decimal = connector.introspect_native_type(MySqlType::Decimal(Some((65, 30)))).unwrap();
    assert_eq!(decimal.name, "Decimal");
    assert_eq!(decimal.args, vec!["65".to_string(), "30".to_string()]);
    let time = connector.introspect_native_type(MySqlType::Time(None)).unwrap();
    assert_eq!(time.name, "Time");
    assert!(time.args.is_empty());
    let datetime = connector.introspect_native_type(MySqlType::DateTime(Some(6))).unwrap();
    assert_eq!(datetime.name, "Datetime");
    assert_eq!(datetime.args, vec!["6".to_string()]);
    let char_type = connector.introspect_native_type(MySqlType::VarChar(191)).unwrap();
    assert_eq!(char_type.args, vec!["191".to_string()]);
}

#[test]
fn introspect_then_parse_round_trips() {
    let connector = MySqlDatamodelConnector::new();
    let types = vec![
        MySqlType::Int,
        MySqlType::UnsignedBigInt,
        MySqlType::Decimal(Some((12, 4))),
        MySqlType::Numeric(None),
        MySqlType::Bit(1),
        MySqlType::Char(0),
        MySqlType::VarChar(4294967295),
        MySqlType::Binary(16),
        MySqlType::VarBinary(300),
        MySqlType::Time(Some(0)),
        MySqlType::Timestamp(Some(3)),
        MySqlType::LongText,
        MySqlType::JSON,
        MySqlType::Year,
    ];
    for t in types {
        let introspected = connector.introspect_native_type(t).unwrap();
        let parsed = connector
            .parse_native_type(&introspected.name, introspected.args.clone())
            .unwrap();
        assert_eq!(parsed.name, introspected.name);
        assert_eq!(parsed.args, introspected.args);
        assert_eq!(parsed.native_type, t);
    }
}

#[test]
fn decimal_scale_larger_than_precision_fails() {
    let connector = MySqlDatamodelConnector::new();
    let field = native_field("price", "Decimal", MySqlType::Decimal(Some((5, 10))), false, false);
    match connector.validate_field(&field) {
        Err(ConnectorError::ScaleLargerThanPrecision { native_type, connector_name }) => {
            assert_eq!(native_type, "Decimal");
            assert_eq!(connector_name, "MySQL");
        }
        other => panic!("unexpected {:?}", other),
    }
}

#[test]
fn decimal_precision_and_scale_bounds() {
    let connector = MySqlDatamodelConnector::new();
    let too_precise = native_field("p", "Decimal", MySqlType::Decimal(Some((66, 2))), false, false);
    assert_eq!(
        out_of_range_message(connector.validate_field(&too_precise)),
        "Precision can range from 1 to 65."
    );
    let too_scaled = native_field("p", "Numeric", MySqlType::Numeric(Some((40, 31))), false, false);
    assert_eq!(
        out_of_range_message(connector.validate_field(&too_scaled)),
        "Scale can range from 0 to 30."
    );
    let no_precision = native_field("p", "Decimal", MySqlType::Decimal(Some((0, 0))), false, false);
    assert_eq!(
        out_of_range_message(connector.validate_field(&no_precision)),
        "Precision can range from 1 to 65."
    );
    for (p, s) in [(1, 0), (65, 30), (10, 10), (30, 0)] {
        let ok = native_field("p", "Decimal", MySqlType::Decimal(Some((p, s))), true, true);
        assert!(connector.validate_field(&ok).is_ok());
    }
}

#[test]
fn length_bounds_of_bit_and_char_types() {
    let connector = MySqlDatamodelConnector::new();
    let check = |name: &str, t: MySqlType| connector.validate_field(&native_field("f", name, t, false, false));
    assert_eq!(out_of_range_message(check("Bit", MySqlType::Bit(0))), "M can range from 1 to 64.");
    assert_eq!(out_of_range_message(check("Bit", MySqlType::Bit(65))), "M can range from 1 to 64.");
    assert!(check("Bit", MySqlType::Bit(1)).is_ok());
    assert!(check("Bit", MySqlType::Bit(64)).is_ok());
    assert_eq!(out_of_range_message(check("Char", MySqlType::Char(256))), "M can range from 0 to 255.");
    assert!(check("Char", MySqlType::Char(0)).is_ok());
    assert!(check("Char", MySqlType::Char(255)).is_ok());
    assert_eq!(
        out_of_range_message(check("VarChar", MySqlType::VarChar(65536))),
        "M can range from 0 to 65,535."
    );
    assert!(check("VarChar", MySqlType::VarChar(65535)).is_ok());
}

#[test]
fn large_object_field_cannot_be_unique_or_id() {
    let connector = MySqlDatamodelConnector::new();
    let unique = native_field("bio", "Text", MySqlType::Text, true, false);
    assert!(matches!(
        connector.validate_field(&unique),
        Err(ConnectorError::IncompatibleNativeTypeWithUnique { .. })
    ));
    let id = native_field("bio", "LongBlob", MySqlType::LongBlob, false, true);
    assert!(matches!(
        connector.validate_field(&id),
        Err(ConnectorError::IncompatibleNativeTypeWithId { .. })
    ));
    let plain = native_field("bio", "MediumText", MySqlType::MediumText, false, false);
    assert!(connector.validate_field(&plain).is_ok());
    let base = Field {
        name: "n".to_string(),
        field_type: FieldType::Base(ScalarType::Int),
        is_unique: true,
        is_id: true,
    };
    assert!(connector.validate_field(&base).is_ok());
}

fn model_with(indices: Vec<IndexDefinition>, id_fields: Vec<&str>) -> Model {
    Model {
        name: "User".to_string(),
        fields: vec![
            native_field("id", "Int", MySqlType::Int, false, false),
            native_field("bio", "Text", MySqlType::Text, false, false),
            native_field("email", "VarChar", MySqlType::VarChar(191), false, false),
        ],
        indices,
        id_fields: id_fields.into_iter().map(String::from).collect(),
    }
}

#[test]
fn large_object_field_in_index_fails_model_validation() {
    let connector = MySqlDatamodelConnector::new();
    let normal = model_with(
        vec![IndexDefinition {
            name: None,
            fields: vec!["email".to_string(), "bio".to_string()],
            tpe: IndexType::Normal,
        }],
        vec!["id"],
    );
    match connector.validate_model(&normal) {
        Err(ConnectorError::IncompatibleNativeTypeWithIndex { native_type, .. }) => {
            assert_eq!(native_type, "Text")
        }
        other => panic!("unexpected {:?}", other),
    }
    let unique = model_with(
        vec![IndexDefinition {
            name: Some("bio_key".to_string()),
            fields: vec!["bio".to_string()],
            tpe: IndexType::Unique,
        }],
        vec!["id"],
    );
    assert!(matches!(
        connector.validate_model(&unique),
        Err(ConnectorError::IncompatibleNativeTypeWithUnique { .. })
    ));
    let keyed = model_with(Vec::new(), vec!["id", "bio"]);
    assert!(matches!(
        connector.validate_model(&keyed),
        Err(ConnectorError::IncompatibleNativeTypeWithId { .. })
    ));
    let fine = model_with(
        vec![IndexDefinition {
            name: None,
            fields: vec!["email".to_string()],
            tpe: IndexType::Unique,
        }],
        vec!["id"],
    );
    assert!(connector.validate_model(&fine).is_ok());
    assert!(fine.find_field("email").is_some());
    assert!(fine.find_field("missing").is_none());
}

#[test]
fn parse_arguments_for_types_without_arguments_fails() {
    let connector = MySqlDatamodelConnector::new();
    for name in ["Int", "Float", "Text", "Date", "JSON"] {
        match connector.parse_native_type(name, vec!["5".to_string()]) {
            Err(ConnectorError::ArgumentCountMismatch { native_type, required_count, given_count }) => {
                assert_eq!(native_type, name);
                assert_eq!(required_count, 0);
                assert_eq!(given_count, 1);
            }
            other => panic!("unexpected {:?}", other),
        }
    }
}

#[test]
fn argument_count_is_checked_before_arguments_are_read() {
    let connector = MySqlDatamodelConnector::new();
    let cases = vec![
        ("Bit", vec!["a", "b"], 1, 2),
        ("VarChar", vec![], 1, 0),
        ("Decimal", vec!["x"], 2, 1),
        ("Numeric", vec!["a", "b", "c"], 2, 3),
        ("Time", vec!["a", "b"], 1, 2),
    ];
    for (name, args, required, given) in cases {
        let args: Vec<String> = args.into_iter().map(String::from).collect();
        match connector.parse_native_type(name, args) {
            Err(ConnectorError::ArgumentCountMismatch { native_type, required_count, given_count }) => {
                assert_eq!(native_type, name);
                assert_eq!(required_count, required);
                assert_eq!(given_count, given);
            }
            other => panic!("unexpected {:?}", other),
        }
    }
    assert!(matches!(
        connector.parse_native_type("Decimal", vec!["10".to_string(), "x".to_string()]),
        Err(ConnectorError::ValueParserError { .. })
    ));
}
