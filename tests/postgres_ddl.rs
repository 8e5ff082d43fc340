use schema_migration::postgres_ddl::{CreateEnum, CreateIndex, PostgresIdentifier};

#[test]
fn create_enum_without_variants() {
    let create_enum = CreateEnum {
        enum_name: "myEnum".into(),
        variants: Vec::new(),
    };

    assert_eq!(create_enum.to_string(), r#"CREATE TYPE "myEnum" AS ENUM ()"#);
}

#[test]
fn create_enum_with_variants() {
    let variants = vec!["One".into(), "Two".into(), "Three".into()];
    let create_enum = CreateEnum {
        enum_name: "myEnum".into(),
        variants,
    };

    assert_eq!(
        create_enum.to_string(),
        r#"CREATE TYPE "myEnum" AS ENUM ('One', 'Two', 'Three')"#
    );
}

#[test]
fn create_unique_index() {
    let columns = vec!["name".into(), "age".into()];

    let create_index = CreateIndex {
        is_unique: true,
        index_name: "meow_idx".into(),
        table_reference: "Cat".into(),
        columns,
    };

    assert_eq!(
        create_index.to_string(),
        "CREATE UNIQUE INDEX \"meow_idx\" ON \"Cat\"(\"name\", \"age\")"
    )
}

#[test]
fn create_plain_index_on_schema_qualified_table() {
    let create_index = CreateIndex {
        is_unique: false,
        index_name: "idx".into(),
        table_reference: ("public", "Dog").into(),
        columns: vec!["id".to_string()],
    };

    assert_eq!(
        create_index.to_string(),
        "CREATE INDEX \"idx\" ON \"public\".\"Dog\"(\"id\")"
    );
}

#[test]
fn enum_variant_quotes_are_doubled() {
    let create_enum = CreateEnum {
        enum_name: PostgresIdentifier::Simple("mood".to_string()),
        variants: vec!["it's".to_string()],
    };

    assert_eq!(
        create_enum.to_string(),
        "CREATE TYPE \"mood\" AS ENUM ('it''s')"
    );
}
