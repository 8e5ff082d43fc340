use schema_migration::sql_schema::{
    ForeignKey, ForeignKeyAction, Column, ColumnArity, ColumnType, ColumnTypeFamily, DefaultKind, DefaultValue, Index, IndexType,
    Pair, PrimaryKey, PrismaValue, SqlSchema, Table, TableChange,
};
use schema_migration::sql_schema_differ::{column_changes, diff_schemas, diff_table, SqlMigrationStep};

fn column(name: &str, family: ColumnTypeFamily) -> Column {
    Column {
        name: name.to_string(),
        tpe: ColumnType { full_data_type: String::new(), family },
        arity: ColumnArity::Required,
        default: None,
        auto_increment: false,
    }
}

fn table(name: &str, columns: Vec<Column>) -> Table {
    Table {
        name: name.to_string(),
        columns,
        indices: Vec::new(),
        primary_key: None,
        foreign_keys: Vec::new(),
    }
}

#[test]
fn only_default_changed_is_reported() {
    let previous = column("c", ColumnTypeFamily::String);
    let mut next = column("c", ColumnTypeFamily::String);
    next.default = Some(DefaultValue { kind: DefaultKind::Value(PrismaValue::String("x".to_string())) });
    let changes = column_changes(Pair { previous: &previous, next: &next });
    assert!(changes.only_default_changed());
    assert!(!changes.type_changed());

    let mut wider = column("c", ColumnTypeFamily::String);
    wider.arity = ColumnArity::Nullable;
    wider.default = next.default.as_ref().map(|d| d.copy_value());
    let changes = column_changes(Pair { previous: &previous, next: &wider });
    assert!(changes.default_change && changes.arity_change);
    assert!(!changes.only_default_changed());
}

#[test]
fn database_generated_defaults_are_not_compared_by_text() {
    let mut previous = column("id", ColumnTypeFamily::String);
    previous.default = Some(DefaultValue::db_generated("(uuid())".to_string()));
    let mut next = column("id", ColumnTypeFamily::String);
    next.default = Some(DefaultValue::db_generated(String::new()));
    let changes = column_changes(Pair { previous: &previous, next: &next });
    assert!(!changes.default_change);
    let enum_a = column("e", ColumnTypeFamily::Enum("A".to_string()));
    let enum_b = column("e", ColumnTypeFamily::Enum("B".to_string()));
    assert!(column_changes(Pair { previous: &enum_a, next: &enum_b }).type_changed());
}

#[test]
fn table_diff_orders_key_columns_and_alterations() {
    let mut previous = table(
        "T",
        vec![column("id", ColumnTypeFamily::Int), column("gone", ColumnTypeFamily::Int), column("n", ColumnTypeFamily::Int)],
    );
    previous.primary_key = Some(PrimaryKey { columns: vec!["id".to_string()] });
    let mut next = table(
        "T",
        vec![column("id", ColumnTypeFamily::Int), column("n", ColumnTypeFamily::BigInt), column("new", ColumnTypeFamily::String)],
    );
    next.primary_key = Some(PrimaryKey { columns: vec!["id".to_string(), "n".to_string()] });
    let changes = diff_table(Pair { previous: &previous, next: &next });
    assert_eq!(changes.len(), 5);
    assert!(matches!(changes[0], TableChange::DropPrimaryKey));
    assert!(matches!(&changes[1], TableChange::DropColumn(d) if d.index == 1));
    assert!(matches!(&changes[2], TableChange::AddColumn(a) if a.column_index == 2));
    assert!(matches!(&changes[3], TableChange::AlterColumn(a)
        if a.column_index.previous == 2 && a.column_index.next == 1 && a.changes.type_change));
    assert!(matches!(&changes[4], TableChange::AddPrimaryKey { columns } if columns == &vec!["id".to_string(), "n".to_string()]));
    let same = diff_table(Pair { previous: &previous, next: &previous });
    assert!(same.is_empty());
}

#[test]
fn schema_diff_matches_tables_and_indexes_by_name() {
    let mut kept = table("Kept", vec![column("a", ColumnTypeFamily::Int)]);
    kept.indices.push(Index { name: "a_idx".to_string(), columns: vec!["a".to_string()], tpe: IndexType::Normal });
    kept.indices.push(Index { name: "same".to_string(), columns: vec!["a".to_string()], tpe: IndexType::Unique });
    let previous = SqlSchema { tables: vec![table("Old", Vec::new()), kept], enums: Vec::new() };
    let mut kept_next = table("Kept", vec![column("a", ColumnTypeFamily::Int)]);
    kept_next.indices.push(Index { name: "same".to_string(), columns: vec!["a".to_string()], tpe: IndexType::Unique });
    kept_next.indices.push(Index { name: "a_key".to_string(), columns: vec!["a".to_string()], tpe: IndexType::Unique });
    let next = SqlSchema { tables: vec![kept_next, table("New", Vec::new())], enums: Vec::new() };
    let steps = diff_schemas(&Pair { previous, next }, true);
    assert_eq!(steps.len(), 4);
    assert!(matches!(steps[0], SqlMigrationStep::DropIndex { table_index: 1, index_index: 0 }));
    assert!(matches!(steps[1], SqlMigrationStep::DropTable { table_index: 0 }));
    assert!(matches!(steps[2], SqlMigrationStep::CreateTable { table_index: 1 }));
    assert!(matches!(steps[3], SqlMigrationStep::CreateIndex { table_index: 0, index_index: 1 }));
}

#[test]
fn renamed_index_is_renamed_or_recreated() {
    let mut before = table("T", vec![column("a", ColumnTypeFamily::Int)]);
    before.indices.push(Index { name: "old_idx".to_string(), columns: vec!["a".to_string()], tpe: IndexType::Normal });
    let mut after = table("T", vec![column("a", ColumnTypeFamily::Int)]);
    after.indices.push(Index { name: "new_idx".to_string(), columns: vec!["a".to_string()], tpe: IndexType::Normal });
    let schemas = Pair {
        previous: SqlSchema { tables: vec![before], enums: Vec::new() },
        next: SqlSchema { tables: vec![after], enums: Vec::new() },
    };
    let in_place = diff_schemas(&schemas, true);
    assert_eq!(in_place.len(), 1);
    assert!(matches!(&in_place[0], SqlMigrationStep::RenameIndex { table_index, index_index }
        if table_index.previous == 0 && table_index.next == 0 && index_index.previous == 0 && index_index.next == 0));
    let recreated = diff_schemas(&schemas, false);
    assert_eq!(recreated.len(), 1);
    assert!(matches!(&recreated[0], SqlMigrationStep::DropAndRecreateIndex { .. }));
}

#[test]
fn changed_index_definition_is_dropped_and_created() {
    let mut before = table("T", vec![column("a", ColumnTypeFamily::Int)]);
    before.indices.push(Index { name: "idx".to_string(), columns: vec!["a".to_string()], tpe: IndexType::Normal });
    let mut after = table("T", vec![column("a", ColumnTypeFamily::Int)]);
    after.indices.push(Index { name: "idx".to_string(), columns: vec!["a".to_string()], tpe: IndexType::Unique });
    let schemas = Pair {
        previous: SqlSchema { tables: vec![before], enums: Vec::new() },
        next: SqlSchema { tables: vec![after], enums: Vec::new() },
    };
    let steps = diff_schemas(&schemas, true);
    assert_eq!(steps.len(), 2);
    assert!(matches!(steps[0], SqlMigrationStep::DropIndex { table_index: 0, index_index: 0 }));
    assert!(matches!(steps[1], SqlMigrationStep::CreateIndex { table_index: 0, index_index: 0 }));
}

fn foreign_key(column: &str, target: &str) -> ForeignKey {
    ForeignKey {
        constraint_name: None,
        columns: vec![column.to_string()],
        referenced_table: target.to_string(),
        referenced_columns: vec!["id".to_string()],
        on_delete_action: ForeignKeyAction::Cascade,
        on_update_action: ForeignKeyAction::Cascade,
    }
}

#[test]
fn foreign_keys_are_dropped_first_and_added_last() {
    let user = table("User", vec![column("id", ColumnTypeFamily::Int)]);
    let mut post = table("Post", vec![column("id", ColumnTypeFamily::Int), column("author", ColumnTypeFamily::Int)]);
    post.foreign_keys.push(foreign_key("author", "User"));
    let previous = SqlSchema { tables: vec![user, post], enums: Vec::new() };

    let user_next = table("User", vec![column("id", ColumnTypeFamily::Int)]);
    let post_next = table("Post", vec![column("id", ColumnTypeFamily::Int), column("author", ColumnTypeFamily::Int)]);
    let mut comment = table("Comment", vec![column("id", ColumnTypeFamily::Int), column("post", ColumnTypeFamily::Int)]);
    comment.foreign_keys.push(foreign_key("post", "Post"));
    let next = SqlSchema { tables: vec![user_next, post_next, comment], enums: Vec::new() };

    let steps = diff_schemas(&Pair { previous, next }, true);
    assert_eq!(steps.len(), 3);
    assert!(matches!(steps[0], SqlMigrationStep::DropForeignKey { table_index: 1, foreign_key_index: 0 }));
    assert!(matches!(steps[1], SqlMigrationStep::CreateTable { table_index: 2 }));
    assert!(matches!(steps[2], SqlMigrationStep::AddForeignKey { table_index: 2, foreign_key_index: 0 }));
}

#[test]
fn unchanged_schema_needs_no_steps() {
    let mut post = table("Post", vec![column("id", ColumnTypeFamily::Int), column("author", ColumnTypeFamily::Int)]);
    post.foreign_keys.push(foreign_key("author", "User"));
    post.indices.push(Index { name: "author_idx".to_string(), columns: vec!["author".to_string()], tpe: IndexType::Normal });
    let mut post_again = table("Post", vec![column("id", ColumnTypeFamily::Int), column("author", ColumnTypeFamily::Int)]);
    post_again.foreign_keys.push(foreign_key("author", "User"));
    post_again.indices.push(Index { name: "author_idx".to_string(), columns: vec!["author".to_string()], tpe: IndexType::Normal });
    let schemas = Pair {
        previous: SqlSchema { tables: vec![post], enums: Vec::new() },
        next: SqlSchema { tables: vec![post_again], enums: Vec::new() },
    };
    assert!(diff_schemas(&schemas, true).is_empty());
}
