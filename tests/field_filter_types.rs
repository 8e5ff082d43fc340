use schema_migration::field_filter_types::{
    alphanumeric_filters, equality_filters, inclusion_filters, map_avg_type_ident,
    scalar_filter_name, string_filters, InputType, TypeIdentifier,
};

#[test]
fn scalar_filter_names() {
    assert_eq!(scalar_filter_name(&TypeIdentifier::Int, false, false, false, false), "IntFilter");
    assert_eq!(
        scalar_filter_name(&TypeIdentifier::Enum("Role".to_string()), true, true, true, true),
        "NestedEnumRoleNullableListWithAggregatesFilter"
    );
    assert_eq!(scalar_filter_name(&TypeIdentifier::UUID, false, true, false, false), "UuidNullableFilter");
    assert_eq!(scalar_filter_name(&TypeIdentifier::Boolean, false, false, true, false), "NestedBoolFilter");
}

#[test]
fn average_of_integers_is_a_float() {
    assert!(matches!(map_avg_type_ident(TypeIdentifier::Int), TypeIdentifier::Float));
    assert!(matches!(map_avg_type_ident(TypeIdentifier::BigInt), TypeIdentifier::Float));
    assert!(matches!(map_avg_type_ident(TypeIdentifier::Decimal), TypeIdentifier::Decimal));
    assert!(TypeIdentifier::Decimal.is_numeric());
    assert!(!TypeIdentifier::String.is_numeric());
}

#[test]
fn equality_and_inclusion_filters_accept_null_when_nullable() {
    let equals = equality_filters(InputType::Scalar(TypeIdentifier::Int), true);
    assert_eq!(equals.len(), 1);
    assert_eq!(equals[0].name, "equals");
    assert!(!equals[0].is_required);
    assert_eq!(equals[0].field_types.len(), 2);
    assert!(matches!(equals[0].field_types[1], InputType::Null));

    let inclusion = inclusion_filters(InputType::Scalar(TypeIdentifier::String), false);
    let names: Vec<&str> = inclusion.iter().map(|f| f.name.as_str()).collect();
    assert_eq!(names, vec!["in", "notIn"]);
    assert_eq!(inclusion[1].field_types.len(), 1);
    assert!(matches!(inclusion[1].field_types[0], InputType::List(_)));
}

#[test]
fn comparison_and_string_filters() {
    let compare = alphanumeric_filters(InputType::Scalar(TypeIdentifier::DateTime));
    let names: Vec<&str> = compare.iter().map(|f| f.name.as_str()).collect();
    assert_eq!(names, vec!["lt", "lte", "gt", "gte"]);
    let strings = string_filters(InputType::Scalar(TypeIdentifier::String));
    let names: Vec<&str> = strings.iter().map(|f| f.name.as_str()).collect();
    assert_eq!(names, vec!["contains", "startsWith", "endsWith"]);
    assert!(strings.iter().all(|f| !f.is_required && f.field_types.len() == 1));
}

use schema_migration::field_filter_types::{
    get_field_filter_types, full_scalar_filter_type, scalar_list_filter_type, BuilderContext, ScalarField,
};
use schema_migration::mysql_connector::ConnectorCapability;

fn names_of(ctx: &BuilderContext, object_name: &str) -> Vec<String> {
    let object = ctx.input_types.iter().find(|t| t.name == object_name).unwrap();
    object.fields.iter().map(|f| f.name.clone()).collect()
}

#[test]
fn string_filter_type_offers_mode_where_insensitive() {
    let mut ctx = BuilderContext {
        capabilities: vec![ConnectorCapability::InsensitiveFilters],
        input_types: Vec::new(),
    };
    let name = full_scalar_filter_type(&mut ctx, &TypeIdentifier::String, false, false, false, false);
    assert_eq!(name, "StringFilter");
    assert_eq!(
        names_of(&ctx, "StringFilter"),
        vec![
            "equals", "in", "notIn", "lt", "lte", "gt", "gte", "contains", "startsWith",
            "endsWith", "mode", "not"
        ]
    );
    assert_eq!(
        names_of(&ctx, "NestedStringFilter"),
        vec!["equals", "in", "notIn", "lt", "lte", "gt", "gte", "contains", "startsWith", "endsWith", "not"]
    );
    let mode = &ctx.input_types[1].fields[10];
    assert_eq!(mode.default_value.as_deref(), Some("default"));
    assert_eq!(ctx.input_types.len(), 2);
    let again = full_scalar_filter_type(&mut ctx, &TypeIdentifier::String, false, false, false, false);
    assert_eq!(again, "StringFilter");
    assert_eq!(ctx.input_types.len(), 2);
}

#[test]
fn numeric_filter_type_with_aggregates() {
    let mut ctx = BuilderContext { capabilities: Vec::new(), input_types: Vec::new() };
    let name = full_scalar_filter_type(&mut ctx, &TypeIdentifier::Int, false, true, false, true);
    assert_eq!(name, "IntNullableWithAggregatesFilter");
    assert_eq!(
        names_of(&ctx, "IntNullableWithAggregatesFilter"),
        vec!["equals", "in", "notIn", "lt", "lte", "gt", "gte", "not", "count", "avg", "sum", "min", "max"]
    );
    let object = ctx.input_types.last().unwrap();
    let not = &object.fields[7];
    assert_eq!(not.field_types.len(), 3);
    assert!(matches!(&not.field_types[1], InputType::Object(n) if n == "NestedIntNullableWithAggregatesFilter"));
    assert!(matches!(&object.fields[9].field_types[0], InputType::Object(n) if n == "NestedFloatNullableFilter"));
    assert!(ctx.input_types.iter().any(|t| t.name == "NestedIntNullableFilter"));
}

#[test]
fn json_filter_type_has_no_nested_not() {
    let mut ctx = BuilderContext { capabilities: Vec::new(), input_types: Vec::new() };
    let name = full_scalar_filter_type(&mut ctx, &TypeIdentifier::Json, true, false, false, true);
    assert_eq!(name, "JsonListWithAggregatesFilter");
    assert_eq!(names_of(&ctx, "JsonListWithAggregatesFilter"), vec!["equals", "not", "count"]);
    let object = ctx.input_types.last().unwrap();
    assert_eq!(object.fields[1].field_types.len(), 1);
}

#[test]
fn scalar_list_filter_type_has_equality_only() {
    let mut ctx = BuilderContext { capabilities: Vec::new(), input_types: Vec::new() };
    let field = ScalarField {
        name: "tags".to_string(),
        type_identifier: TypeIdentifier::String,
        is_list: true,
        is_required: false,
    };
    assert_eq!(scalar_list_filter_type(&mut ctx, &field), "StringNullableListFilter");
    assert_eq!(names_of(&ctx, "StringNullableListFilter"), vec!["equals"]);
    let equals = &ctx.input_types[0].fields[0];
    assert!(matches!(equals.field_types[0], InputType::List(_)));
    assert!(matches!(equals.field_types[1], InputType::Null));
}

fn scalar_field(typ: TypeIdentifier, is_list: bool, is_required: bool) -> ScalarField {
    ScalarField { name: "f".to_string(), type_identifier: typ, is_list, is_required }
}

#[test]
fn field_filter_types_of_scalar_fields() {
    let mut ctx = BuilderContext { capabilities: Vec::new(), input_types: Vec::new() };
    let optional = get_field_filter_types(&mut ctx, &scalar_field(TypeIdentifier::Int, false, false), false);
    assert_eq!(optional.len(), 3);
    assert!(matches!(&optional[0], InputType::Object(n) if n == "IntNullableFilter"));
    assert!(matches!(&optional[1], InputType::Scalar(TypeIdentifier::Int)));
    assert!(matches!(optional[2], InputType::Null));

    let required = get_field_filter_types(&mut ctx, &scalar_field(TypeIdentifier::String, false, true), true);
    assert_eq!(required.len(), 2);
    assert!(matches!(&required[0], InputType::Object(n) if n == "StringWithAggregatesFilter"));

    let json = get_field_filter_types(&mut ctx, &scalar_field(TypeIdentifier::Json, false, false), false);
    assert_eq!(json.len(), 1);
    assert!(matches!(&json[0], InputType::Object(n) if n == "JsonNullableFilter"));

    let list = get_field_filter_types(&mut ctx, &scalar_field(TypeIdentifier::String, true, true), false);
    assert_eq!(list.len(), 1);
    assert!(matches!(&list[0], InputType::Object(n) if n == "StringListFilter"));
}
