use schema_migration::sql_schema_differ::diff_schemas;
use schema_migration::mysql_renderer::{render_column_type, MysqlFlavour};
use schema_migration::sql_schema::{
    AddColumn, AlterColumn, AlterTable, Column, ColumnArity, ColumnChanges, ColumnType,
    ColumnTypeFamily, DefaultKind, DefaultValue, DropColumn, Enum, ForeignKey, ForeignKeyAction,
    Index, IndexType, Pair, PrimaryKey, PrismaValue, SqlSchema, Table, TableChange,
};

fn column(name: &str, family: ColumnTypeFamily, arity: ColumnArity) -> Column {
    Column {
        name: name.to_string(),
        tpe: ColumnType { full_data_type: String::new(), family },
        arity,
        default: None,
        auto_increment: false,
    }
}

fn table(name: &str, columns: Vec<Column>) -> Table {
    Table {
        name: name.to_string(),
        columns,
        indices: Vec::new(),
        primary_key: None,
        foreign_keys: Vec::new(),
    }
}

fn empty_schema() -> SqlSchema {
    SqlSchema { tables: Vec::new(), enums: Vec::new() }
}

fn no_changes() -> ColumnChanges {
    ColumnChanges {
        type_change: false,
        default_change: false,
        arity_change: false,
        rename: false,
        autoincrement_change: false,
        sequence_change: false,
    }
}

fn index(name: &str, columns: &[&str], tpe: IndexType) -> Index {
    Index {
        name: name.to_string(),
        columns: columns.iter().map(|c| c.to_string()).collect(),
        tpe,
    }
}

fn default_of(kind: DefaultKind) -> Option<DefaultValue> {
    Some(DefaultValue { kind })
}

#[test]
fn quote_uses_backticks() {
    assert_eq!(MysqlFlavour.quote("Cat"), "`Cat`");
}

#[test]
fn create_table_lists_columns_indexes_then_primary_key() {
    let mut id = column("id", ColumnTypeFamily::Int, ColumnArity::Required);
    id.auto_increment = true;
    let mut name = column("name", ColumnTypeFamily::String, ColumnArity::Nullable);
    name.default = default_of(DefaultKind::Value(PrismaValue::String("bob".to_string())));
    let mut user = table("User", vec![id, name]);
    user.indices.push(index("name_idx", &["name"], IndexType::Unique));
    user.primary_key = Some(PrimaryKey { columns: vec!["id".to_string()] });
    assert_eq!(
        MysqlFlavour.render_create_table(&user, &empty_schema()),
        "CREATE TABLE `User` (\n    `id` INT NOT NULL AUTO_INCREMENT,\n    `name` VARCHAR(191) DEFAULT 'bob',\nUNIQUE INDEX `name_idx`(`name`),\n\n    PRIMARY KEY (`id`)\n) DEFAULT CHARACTER SET utf8mb4 COLLATE utf8mb4_unicode_ci"
    );
}

#[test]
fn create_table_as_uses_the_given_name() {
    let t = table("Cat", vec![column("age", ColumnTypeFamily::BigInt, ColumnArity::Required)]);
    assert_eq!(
        MysqlFlavour.render_create_table_as(&t, "_prisma_new_Cat", &empty_schema()),
        "CREATE TABLE `_prisma_new_Cat` (\n    `age` BIGINT NOT NULL\n) DEFAULT CHARACTER SET utf8mb4 COLLATE utf8mb4_unicode_ci"
    );
}

#[test]
fn column_constrained_by_foreign_key_has_no_auto_increment() {
    let mut author = column("author_id", ColumnTypeFamily::Int, ColumnArity::Required);
    author.auto_increment = true;
    let mut post = table("Post", vec![author]);
    post.foreign_keys.push(ForeignKey {
        constraint_name: Some("fk".to_string()),
        columns: vec!["author_id".to_string()],
        referenced_table: "User".to_string(),
        referenced_columns: vec!["id".to_string()],
        on_delete_action: ForeignKeyAction::Cascade,
        on_update_action: ForeignKeyAction::NoAction,
    });
    let rendered = MysqlFlavour.render_column(&post.columns[0], &post, &empty_schema());
    assert_eq!(rendered, "    `author_id` INT NOT NULL");
    let lonely = table("Other", Vec::new());
    assert_eq!(
        MysqlFlavour.render_column(&post.columns[0], &lonely, &empty_schema()),
        "    `author_id` INT NOT NULL AUTO_INCREMENT"
    );
}

#[test]
fn json_and_binary_defaults_are_not_written() {
    let mut json = column("data", ColumnTypeFamily::Json, ColumnArity::Required);
    json.default = default_of(DefaultKind::Value(PrismaValue::Json("{}".to_string())));
    let t = table("T", Vec::new());
    assert_eq!(MysqlFlavour.render_column(&json, &t, &empty_schema()), "    `data` JSON NOT NULL");
    let mut blob = column("bytes", ColumnTypeFamily::Binary, ColumnArity::Nullable);
    blob.default = default_of(DefaultKind::Value(PrismaValue::String("x".to_string())));
    assert_eq!(MysqlFlavour.render_column(&blob, &t, &empty_schema()), "    `bytes` LONGBLOB");
    let mut generated = column("uid", ColumnTypeFamily::String, ColumnArity::Required);
    generated.default = default_of(DefaultKind::DbGenerated("uuid()".to_string()));
    assert_eq!(
        MysqlFlavour.render_column(&generated, &t, &empty_schema()),
        "    `uid` VARCHAR(191) NOT NULL"
    );
}

#[test]
fn defaults_render_by_kind_and_family() {
    let f = MysqlFlavour;
    let int = DefaultValue { kind: DefaultKind::Value(PrismaValue::Int(-42)) };
    assert_eq!(f.render_default(&int, &ColumnTypeFamily::Int), "-42");
    let min = DefaultValue { kind: DefaultKind::Value(PrismaValue::Int(i64::MIN)) };
    assert_eq!(f.render_default(&min, &ColumnTypeFamily::BigInt), "-9223372036854775808");
    let text = DefaultValue { kind: DefaultKind::Value(PrismaValue::String("it's".to_string())) };
    assert_eq!(f.render_default(&text, &ColumnTypeFamily::String), "'it''s'");
    let variant = DefaultValue { kind: DefaultKind::Value(PrismaValue::Enum("HAPPY".to_string())) };
    assert_eq!(f.render_default(&variant, &ColumnTypeFamily::Enum("Mood".to_string())), "'HAPPY'");
    let now = DefaultValue { kind: DefaultKind::Now };
    assert_eq!(f.render_default(&now, &ColumnTypeFamily::DateTime), "CURRENT_TIMESTAMP(3)");
    let date = DefaultValue {
        kind: DefaultKind::Value(PrismaValue::String("2020-01-01".to_string())),
    };
    assert_eq!(f.render_default(&date, &ColumnTypeFamily::DateTime), "'2020-01-01'");
    let flag = DefaultValue { kind: DefaultKind::Value(PrismaValue::Boolean(true)) };
    assert_eq!(f.render_default(&flag, &ColumnTypeFamily::Boolean), "true");
    let null = DefaultValue { kind: DefaultKind::Value(PrismaValue::Null) };
    assert_eq!(f.render_default(&null, &ColumnTypeFamily::Int), "null");
    let expression = DefaultValue { kind: DefaultKind::DbGenerated("(now())".to_string()) };
    assert_eq!(f.render_default(&expression, &ColumnTypeFamily::DateTime), "(now())");
    let sequence = DefaultValue { kind: DefaultKind::Sequence("seq".to_string()) };
    assert_eq!(f.render_default(&sequence, &ColumnTypeFamily::Int), "");
}

#[test]
fn column_types_by_family() {
    let schema = SqlSchema {
        tables: Vec::new(),
        enums: vec![Enum {
            name: "Mood".to_string(),
            values: vec!["happy".to_string(), "it's".to_string()],
        }],
    };
    let cases = vec![
        (ColumnTypeFamily::Boolean, "BOOLEAN"),
        (ColumnTypeFamily::DateTime, "DATETIME(3)"),
        (ColumnTypeFamily::Float, "DECIMAL(65,30)"),
        (ColumnTypeFamily::Decimal, "DECIMAL(65,30)"),
        (ColumnTypeFamily::Int, "INT"),
        (ColumnTypeFamily::BigInt, "BIGINT"),
        (ColumnTypeFamily::String, "VARCHAR(191)"),
        (ColumnTypeFamily::Json, "JSON"),
        (ColumnTypeFamily::Binary, "LONGBLOB"),
        (ColumnTypeFamily::Enum("Mood".to_string()), "ENUM('happy', 'it''s')"),
    ];
    for (family, expected) in cases {
        let c = column("c", family, ColumnArity::Required);
        assert_eq!(render_column_type(&c, &schema), expected);
    }
    let mut known = column("c", ColumnTypeFamily::Uuid, ColumnArity::Required);
    known.tpe.full_data_type = "char(36)".to_string();
    assert_eq!(render_column_type(&known, &schema), "char(36)");
}

#[test]
fn alter_table_without_changes_renders_nothing() {
    let schemas = Pair {
        previous: SqlSchema { tables: vec![table("T", Vec::new())], enums: Vec::new() },
        next: SqlSchema { tables: vec![table("T", Vec::new())], enums: Vec::new() },
    };
    let alter = AlterTable { table_index: Pair { previous: 0, next: 0 }, changes: Vec::new() };
    assert!(MysqlFlavour.render_alter_table(&alter, &schemas).is_empty());
}

#[test]
fn alter_table_joins_clauses_in_order() {
    let previous = table(
        "T",
        vec![
            column("a", ColumnTypeFamily::Int, ColumnArity::Required),
            column("old", ColumnTypeFamily::Int, ColumnArity::Nullable),
        ],
    );
    let next = table(
        "T",
        vec![
            column("a", ColumnTypeFamily::Int, ColumnArity::Required),
            column("b", ColumnTypeFamily::String, ColumnArity::Required),
        ],
    );
    let schemas = Pair {
        previous: SqlSchema { tables: vec![previous], enums: Vec::new() },
        next: SqlSchema { tables: vec![next], enums: Vec::new() },
    };
    let alter = AlterTable {
        table_index: Pair { previous: 0, next: 0 },
        changes: vec![
            TableChange::DropPrimaryKey,
            TableChange::AddPrimaryKey { columns: vec!["a".to_string(), "b".to_string()] },
            TableChange::AddColumn(AddColumn { column_index: 1 }),
            TableChange::DropColumn(DropColumn { index: 1 }),
        ],
    };
    assert_eq!(
        MysqlFlavour.render_alter_table(&alter, &schemas),
        vec!["ALTER TABLE `T` DROP PRIMARY KEY,\n    ADD PRIMARY KEY (`a`, `b`),\n    ADD COLUMN     `b` VARCHAR(191) NOT NULL,\n    DROP COLUMN `old`".to_string()]
    );
}

#[test]
fn alter_column_drops_or_modifies_default() {
    let mut with_default = column("c", ColumnTypeFamily::String, ColumnArity::Required);
    with_default.default = default_of(DefaultKind::Value(PrismaValue::String("x".to_string())));
    let without_default = column("c", ColumnTypeFamily::String, ColumnArity::Required);
    let schemas = Pair {
        previous: SqlSchema { tables: vec![table("T", vec![with_default])], enums: Vec::new() },
        next: SqlSchema { tables: vec![table("T", vec![without_default])], enums: Vec::new() },
    };
    let mut changes = no_changes();
    changes.default_change = true;
    let alter = AlterTable {
        table_index: Pair { previous: 0, next: 0 },
        changes: vec![TableChange::AlterColumn(AlterColumn {
            column_index: Pair { previous: 0, next: 0 },
            changes,
            type_change: None,
        })],
    };
    assert_eq!(
        MysqlFlavour.render_alter_table(&alter, &schemas),
        vec!["ALTER TABLE `T` ALTER COLUMN `c` DROP DEFAULT".to_string()]
    );

    let mut nullable_now = column("c", ColumnTypeFamily::String, ColumnArity::Nullable);
    nullable_now.auto_increment = true;
    let schemas = Pair {
        previous: SqlSchema {
            tables: vec![table("T", vec![column("c", ColumnTypeFamily::String, ColumnArity::Required)])],
            enums: Vec::new(),
        },
        next: SqlSchema { tables: vec![table("T", vec![nullable_now])], enums: Vec::new() },
    };
    let mut changes = no_changes();
    changes.arity_change = true;
    let alter = AlterTable {
        table_index: Pair { previous: 0, next: 0 },
        changes: vec![TableChange::AlterColumn(AlterColumn {
            column_index: Pair { previous: 0, next: 0 },
            changes,
            type_change: None,
        })],
    };
    assert_eq!(
        MysqlFlavour.render_alter_table(&alter, &schemas),
        vec!["ALTER TABLE `T` MODIFY `c` VARCHAR(191) AUTO_INCREMENT".to_string()]
    );
}

#[test]
fn modify_keeps_database_generated_default_of_previous_side() {
    let mut previous = column("id", ColumnTypeFamily::String, ColumnArity::Required);
    previous.default = default_of(DefaultKind::DbGenerated("(uuid())".to_string()));
    let mut next = column("id", ColumnTypeFamily::String, ColumnArity::Required);
    next.default = default_of(DefaultKind::DbGenerated(String::new()));
    next.tpe.full_data_type = "varchar(36)".to_string();
    let schemas = Pair {
        previous: SqlSchema { tables: vec![table("T", vec![previous])], enums: Vec::new() },
        next: SqlSchema { tables: vec![table("T", vec![next])], enums: Vec::new() },
    };
    let mut changes = no_changes();
    changes.type_change = true;
    let alter = AlterTable {
        table_index: Pair { previous: 0, next: 0 },
        changes: vec![TableChange::AlterColumn(AlterColumn {
            column_index: Pair { previous: 0, next: 0 },
            changes,
            type_change: None,
        })],
    };
    assert_eq!(
        MysqlFlavour.render_alter_table(&alter, &schemas),
        vec!["ALTER TABLE `T` MODIFY `id` varchar(36) NOT NULL DEFAULT (uuid())".to_string()]
    );
}

#[test]
fn index_statements() {
    let t = table("Cat", Vec::new());
    let unique = index("meow_idx", &["name", "age"], IndexType::Unique);
    assert_eq!(
        MysqlFlavour.render_create_index(&t, &unique),
        "CREATE UNIQUE INDEX `meow_idx` ON `Cat`(`name`, `age`)"
    );
    assert_eq!(MysqlFlavour.render_drop_index(&t, &unique), "DROP INDEX `meow_idx` ON `Cat`");
    let renamed = index("purr_idx", &["name", "age"], IndexType::Unique);
    assert_eq!(
        MysqlFlavour.render_alter_index(&t, Pair { previous: &unique, next: &renamed }),
        vec!["ALTER TABLE `Cat` RENAME INDEX `meow_idx` TO `purr_idx`".to_string()]
    );
}

#[test]
fn drop_and_recreate_index_creates_before_dropping() {
    let t = table("T", Vec::new());
    let old = index("old_idx", &["a"], IndexType::Normal);
    let new = index("new_idx", &["a"], IndexType::Normal);
    assert_eq!(
        MysqlFlavour.render_drop_and_recreate_index(
            Pair { previous: &t, next: &t },
            Pair { previous: &old, next: &new }
        ),
        vec!["CREATE INDEX `new_idx` ON `T`(`a`)".to_string(), "DROP INDEX `old_idx` ON `T`".to_string()]
    );
}

#[test]
fn long_index_names_are_cut_alike_on_create_and_drop() {
    let t = table("T", Vec::new());
    let long_name = "a".repeat(70);
    let long = index(&long_name, &["x"], IndexType::Normal);
    let cut = "a".repeat(64);
    assert_eq!(
        MysqlFlavour.render_create_index(&t, &long),
        format!("CREATE INDEX `{}` ON `T`(`x`)", cut)
    );
    assert_eq!(MysqlFlavour.render_drop_index(&t, &long), format!("DROP INDEX `{}` ON `T`", cut));
}

#[test]
fn foreign_key_statements() {
    let post = table("Post", Vec::new());
    let fk = ForeignKey {
        constraint_name: Some("Post_author_fkey".to_string()),
        columns: vec!["author_id".to_string(), "tenant".to_string()],
        referenced_table: "User".to_string(),
        referenced_columns: vec!["id".to_string(), "tenant".to_string()],
        on_delete_action: ForeignKeyAction::SetNull,
        on_update_action: ForeignKeyAction::Cascade,
    };
    assert_eq!(
        MysqlFlavour.render_add_foreign_key(&post, &fk),
        "ALTER TABLE `Post` ADD CONSTRAINT `Post_author_fkey` FOREIGN KEY (`author_id`, `tenant`) REFERENCES `User`(`id`, `tenant`) ON DELETE SET NULL ON UPDATE CASCADE"
    );
    assert_eq!(
        MysqlFlavour.render_drop_foreign_key(&post, &fk),
        "ALTER TABLE `Post` DROP FOREIGN KEY `Post_author_fkey`"
    );
    assert_eq!(
        MysqlFlavour.render_references(&fk),
        " REFERENCES `User`(`id`,`tenant`) ON DELETE SET NULL ON UPDATE CASCADE"
    );
    let unnamed = ForeignKey {
        constraint_name: None,
        columns: vec!["a".to_string()],
        referenced_table: "B".to_string(),
        referenced_columns: vec!["id".to_string()],
        on_delete_action: ForeignKeyAction::NoAction,
        on_update_action: ForeignKeyAction::Restrict,
    };
    assert_eq!(
        MysqlFlavour.render_add_foreign_key(&post, &unnamed),
        "ALTER TABLE `Post` ADD FOREIGN KEY (`a`) REFERENCES `B`(`id`) ON DELETE NO ACTION ON UPDATE RESTRICT"
    );
    assert_eq!(MysqlFlavour.render_references(&unnamed), " REFERENCES `B`(`id`)  ON UPDATE CASCADE");
}

#[test]
fn table_statements_and_enums() {
    assert_eq!(MysqlFlavour.render_drop_table("Cat"), vec!["DROP TABLE `Cat`".to_string()]);
    assert_eq!(MysqlFlavour.render_rename_table("Cat", "Dog"), "ALTER TABLE `Cat` RENAME TO `Dog`");
    let e = Enum { name: "Mood".to_string(), values: vec!["happy".to_string()] };
    assert!(MysqlFlavour.render_create_enum(&e).is_empty());
    assert!(MysqlFlavour.render_drop_enum(&e).is_empty());
}

#[test]
fn diffed_steps_render_in_order() {
    let previous = SqlSchema {
        tables: vec![
            table("User", vec![column("id", ColumnTypeFamily::Int, ColumnArity::Required)]),
            table("Old", vec![column("id", ColumnTypeFamily::Int, ColumnArity::Required)]),
        ],
        enums: Vec::new(),
    };
    let mut user = table(
        "User",
        vec![
            column("id", ColumnTypeFamily::Int, ColumnArity::Required),
            column("email", ColumnTypeFamily::String, ColumnArity::Required),
        ],
    );
    user.indices.push(index("User_email_key", &["email"], IndexType::Unique));
    let next = SqlSchema { tables: vec![user], enums: Vec::new() };
    let schemas = Pair { previous, next };
    let steps = diff_schemas(&schemas, true);
    let statements = MysqlFlavour.render_steps(&steps, &schemas);
    assert_eq!(
        statements,
        vec![
            vec!["DROP TABLE `Old`".to_string()],
            vec!["ALTER TABLE `User` ADD COLUMN     `email` VARCHAR(191) NOT NULL".to_string()],
            vec!["CREATE UNIQUE INDEX `User_email_key` ON `User`(`email`)".to_string()],
        ]
    );
}
