//! Renders migration steps as MySQL statements.

use crate::sql_schema::{
    AlterTable, Column, ColumnArity, ColumnChanges, ColumnTypeFamily, DefaultKind,
    DefaultKindView, DefaultValue, Enum, ForeignKey, ForeignKeyAction, Index, IndexType, Pair,
    PrismaValue, PrismaValueView, SqlSchema, Table, TableChange, opt_default_view,
};
use crate::sql_schema_differ::SqlMigrationStep;
use crate::text::{
    decimal, escape_quotes, escape_string_literal, join, join_strings, strings_view,
    u64_to_decimal, wrap_each, wrapped,
};
use vstd::prelude::*;
use vstd::string::*;

verus! {

/// The longest identifier that MySQL accepts, in characters.
pub const MYSQL_IDENTIFIER_SIZE_LIMIT: usize = 64;

/// `name` between backticks.
pub open spec fn quoted(name: Seq<char>) -> Seq<char> {
    "`"@ + name + "`"@
}

/// Each name between backticks.
pub open spec fn quoted_all(names: Seq<String>) -> Seq<Seq<char>> {
    wrapped(strings_view(names), "`"@, "`"@)
}

/// `name` cut to the longest identifier MySQL accepts.
pub open spec fn truncated(name: Seq<char>) -> Seq<char> {
    if name.len() > MYSQL_IDENTIFIER_SIZE_LIMIT {
        name.take(MYSQL_IDENTIFIER_SIZE_LIMIT as int)
    } else {
        name
    }
}

pub open spec fn drop_table_sql(table_name: Seq<char>) -> Seq<char> {
    "DROP TABLE "@ + quoted(table_name)
}

pub open spec fn rename_table_sql(name: Seq<char>, new_name: Seq<char>) -> Seq<char> {
    "ALTER TABLE "@ + quoted(name) + " RENAME TO "@ + quoted(new_name)
}

pub open spec fn drop_index_sql(table: Table, index: Index) -> Seq<char> {
    "DROP INDEX "@ + quoted(truncated(index.name@)) + " ON "@ + quoted(table.name@)
}

pub open spec fn create_index_sql(table: Table, index: Index) -> Seq<char> {
    "CREATE "@ + (if index.tpe == IndexType::Unique {
        "UNIQUE "@
    } else {
        Seq::empty()
    }) + "INDEX "@ + quoted(truncated(index.name@)) + " ON "@ + quoted(table.name@) + "("@ + join(
        quoted_all(index.columns@),
        ", "@,
    ) + ")"@
}

pub open spec fn rename_index_sql(table: Table, previous: Index, next: Index) -> Seq<char> {
    "ALTER TABLE "@ + quoted(table.name@) + " RENAME INDEX "@ + quoted(previous.name@) + " TO "@
        + quoted(next.name@)
}

pub open spec fn drop_foreign_key_sql(table: Table, constraint_name: Seq<char>) -> Seq<char> {
    "ALTER TABLE "@ + quoted(table.name@) + " DROP FOREIGN KEY "@ + quoted(constraint_name)
}

/// The referential action as a `FOREIGN KEY` clause writes it.
pub open spec fn action_sql(action: ForeignKeyAction) -> Seq<char> {
    match action {
        ForeignKeyAction::Cascade => "CASCADE"@,
        ForeignKeyAction::NoAction => "NO ACTION"@,
        ForeignKeyAction::Restrict => "RESTRICT"@,
        ForeignKeyAction::SetDefault => "SET DEFAULT"@,
        ForeignKeyAction::SetNull => "SET NULL"@,
    }
}

pub open spec fn foreign_key_sql(fk: ForeignKey) -> Seq<char> {
    (match fk.constraint_name {
        Some(name) => "CONSTRAINT "@ + quoted(name@) + " "@,
        None => Seq::empty(),
    }) + "FOREIGN KEY ("@ + join(quoted_all(fk.columns@), ", "@) + ") REFERENCES "@ + quoted(
        fk.referenced_table@,
    ) + "("@ + join(quoted_all(fk.referenced_columns@), ", "@) + ") ON DELETE "@ + action_sql(
        fk.on_delete_action,
    ) + " ON UPDATE "@ + action_sql(fk.on_update_action)
}

pub open spec fn add_foreign_key_sql(table: Table, fk: ForeignKey) -> Seq<char> {
    "ALTER TABLE "@ + quoted(table.name@) + " ADD "@ + foreign_key_sql(fk)
}

/// The `ON DELETE` part of an inline reference.
pub open spec fn on_delete_sql(action: ForeignKeyAction) -> Seq<char> {
    match action {
        ForeignKeyAction::NoAction => Seq::empty(),
        ForeignKeyAction::SetNull => "ON DELETE SET NULL"@,
        ForeignKeyAction::Cascade => "ON DELETE CASCADE"@,
        ForeignKeyAction::SetDefault => "ON DELETE SET DEFAULT"@,
        ForeignKeyAction::Restrict => "ON DELETE RESTRICT"@,
    }
}

pub open spec fn references_sql(fk: ForeignKey) -> Seq<char> {
    " REFERENCES "@ + quoted(fk.referenced_table@) + "("@ + join(
        quoted_all(fk.referenced_columns@),
        ","@,
    ) + ") "@ + on_delete_sql(fk.on_delete_action) + " ON UPDATE CASCADE"@
}

fn truncate_identifier(name: &str) -> (r: String)
    ensures
        r@ == truncated(name@),
{
    if name.unicode_len() > MYSQL_IDENTIFIER_SIZE_LIMIT {
        String::from_str(name.substring_char(0, MYSQL_IDENTIFIER_SIZE_LIMIT))
    } else {
        String::from_str(name)
    }
}

fn action_text(action: ForeignKeyAction) -> (r: &'static str)
    ensures
        r@ == action_sql(action),
{
    match action {
        ForeignKeyAction::Cascade => "CASCADE",
        ForeignKeyAction::NoAction => "NO ACTION",
        ForeignKeyAction::Restrict => "RESTRICT",
        ForeignKeyAction::SetDefault => "SET DEFAULT",
        ForeignKeyAction::SetNull => "SET NULL",
    }
}

fn on_delete_text(action: ForeignKeyAction) -> (r: &'static str)
    ensures
        r@ == on_delete_sql(action),
{
    match action {
        ForeignKeyAction::NoAction => {
            proof {
                reveal_strlit("");
            }
            ""
        },
        ForeignKeyAction::SetNull => "ON DELETE SET NULL",
        ForeignKeyAction::Cascade => "ON DELETE CASCADE",
        ForeignKeyAction::SetDefault => "ON DELETE SET DEFAULT",
        ForeignKeyAction::Restrict => "ON DELETE RESTRICT",
    }
}

/// The names between backticks, joined with `sep`.
fn quoted_list(names: &Vec<String>, sep: &str) -> (r: String)
    ensures
        r@ == join(quoted_all(names@), sep@),
{
    let quoted = wrap_each(names, "`", "`");
    join_strings(&quoted, sep)
}

/// Whether the type of `column` can be written: it is known, or its family
/// has a MySQL type, and an enum family names an enum of the schema.
pub open spec fn column_type_renderable(column: Column, schema: SqlSchema) -> bool {
    column.tpe.full_data_type@.len() > 0 || match column.tpe.family {
        ColumnTypeFamily::Uuid => false,
        ColumnTypeFamily::Unsupported(_) => false,
        ColumnTypeFamily::Enum(name) => schema.enum_named(name@) is Some,
        _ => true,
    }
}

/// A default of the current time sits on a date-time column only.
pub open spec fn default_fits(default: Option<DefaultKindView>, family: ColumnTypeFamily) -> bool {
    default matches Some(DefaultKindView::Now) ==> family is DateTime
}

/// The column can be written in a `CREATE TABLE` or an `ALTER TABLE`.
pub open spec fn column_renderable(column: Column, schema: SqlSchema) -> bool {
    column_type_renderable(column, schema) && default_fits(
        opt_default_view(column.default),
        column.tpe.family,
    )
}

/// A string literal: the text between single quotes, each quote doubled.
pub open spec fn string_literal(s: Seq<char>) -> Seq<char> {
    "'"@ + escape_quotes(s) + "'"@
}

pub open spec fn enum_type_sql(e: Enum) -> Seq<char> {
    "ENUM("@ + join(strings_view(e.values@).map_values(|v: Seq<char>| string_literal(v)), ", "@)
        + ")"@
}

/// The type of a column: the full type when it is known, else the MySQL
/// type of its family.
pub open spec fn column_type_sql(column: Column, schema: SqlSchema) -> Seq<char> {
    if column.tpe.full_data_type@.len() > 0 {
        column.tpe.full_data_type@
    } else {
        match column.tpe.family {
            ColumnTypeFamily::Boolean => "BOOLEAN"@,
            ColumnTypeFamily::DateTime => "DATETIME(3)"@,
            ColumnTypeFamily::Float => "DECIMAL(65,30)"@,
            ColumnTypeFamily::Decimal => "DECIMAL(65,30)"@,
            ColumnTypeFamily::Int => "INT"@,
            ColumnTypeFamily::BigInt => "BIGINT"@,
            ColumnTypeFamily::String => "VARCHAR(191)"@,
            ColumnTypeFamily::Enum(name) => enum_type_sql(schema.enum_named(name@)->0),
            ColumnTypeFamily::Json => "JSON"@,
            ColumnTypeFamily::Binary => "LONGBLOB"@,
            _ => Seq::empty(),
        }
    }
}

/// An integer in decimal, with a minus sign when negative.
pub open spec fn int_sql(i: int) -> Seq<char> {
    if i < 0 {
        "-"@ + decimal((-i) as nat)
    } else {
        decimal(i as nat)
    }
}

/// A value as text.
pub open spec fn value_sql(v: PrismaValueView) -> Seq<char> {
    match v {
        PrismaValueView::String(s) => s,
        PrismaValueView::Boolean(b) => if b {
            "true"@
        } else {
            "false"@
        },
        PrismaValueView::Enum(s) => s,
        PrismaValueView::Int(i) => int_sql(i),
        PrismaValueView::Json(s) => s,
        PrismaValueView::Null => "null"@,
    }
}

/// A default as the expression that follows `DEFAULT`.
pub open spec fn default_sql(d: DefaultKindView, family: ColumnTypeFamily) -> Seq<char> {
    match d {
        DefaultKindView::DbGenerated(expression) => expression,
        DefaultKindView::Now => "CURRENT_TIMESTAMP(3)"@,
        DefaultKindView::Sequence(_) => Seq::empty(),
        DefaultKindView::Value(v) => match v {
            PrismaValueView::String(s) if family is String => string_literal(s),
            PrismaValueView::Enum(s) if family is Enum => string_literal(s),
            _ => if family is DateTime {
                "'"@ + value_sql(v) + "'"@
            } else {
                value_sql(v)
            },
        },
    }
}

pub open spec fn nullability_sql(arity: ColumnArity) -> Seq<char> {
    if arity == ColumnArity::Required {
        " NOT NULL"@
    } else {
        Seq::empty()
    }
}

/// Whether a column definition writes its default: not for expressions
/// of the database or sequences, nor on JSON or binary columns, which
/// MySQL cannot give a literal default.
pub open spec fn writes_default(d: DefaultKindView, family: ColumnTypeFamily) -> bool {
    !(d is DbGenerated) && !(d is Sequence) && !(family is Json) && !(family is Binary)
}

pub open spec fn column_default_sql(column: Column) -> Seq<char> {
    match column.default {
        Some(d) => if writes_default(d@, column.tpe.family) {
            " DEFAULT "@ + default_sql(d@, column.tpe.family)
        } else {
            Seq::empty()
        },
        None => Seq::empty(),
    }
}

/// A column definition; a column that a foreign key constrains never
/// carries `AUTO_INCREMENT`.
pub open spec fn column_sql(column: Column, table: Table, schema: SqlSchema) -> Seq<char> {
    "    "@ + quoted(column.name@) + " "@ + column_type_sql(column, schema) + nullability_sql(
        column.arity,
    ) + column_default_sql(column) + (if !table.has_foreign_key_for(column.name@)
        && column.auto_increment {
        " AUTO_INCREMENT"@
    } else {
        Seq::empty()
    })
}

/// Every column of the table can be written.
pub open spec fn table_renderable(table: Table, schema: SqlSchema) -> bool {
    forall|i: int|
        0 <= i < table.columns@.len() ==> column_renderable(#[trigger] table.columns@[i], schema)
}

pub open spec fn columns_sql(table: Table, schema: SqlSchema) -> Seq<Seq<char>> {
    Seq::new(table.columns@.len(), |i: int| column_sql(table.columns@[i], table, schema))
}

pub open spec fn index_line_sql(index: Index) -> Seq<char> {
    (if index.tpe == IndexType::Unique {
        "UNIQUE "@
    } else {
        Seq::empty()
    }) + "INDEX "@ + quoted(truncated(index.name@)) + "("@ + join(quoted_all(index.columns@), ", "@)
        + ")"@
}

pub open spec fn indexes_sql(table: Table) -> Seq<char> {
    if table.indices@.len() > 0 {
        ",\n"@ + join(
            Seq::new(table.indices@.len(), |i: int| index_line_sql(table.indices@[i])),
            ",\n"@,
        )
    } else {
        Seq::empty()
    }
}

pub open spec fn primary_key_sql(table: Table) -> Seq<char> {
    match table.primary_key {
        Some(pk) => if pk.columns@.len() > 0 {
            ",\n\n    PRIMARY KEY ("@ + join(quoted_all(pk.columns@), ","@) + ")"@
        } else {
            Seq::empty()
        },
        None => Seq::empty(),
    }
}

/// A `CREATE TABLE` statement: columns in order, then indexes, then the
/// primary key.
pub open spec fn create_table_sql(table: Table, table_name: Seq<char>, schema: SqlSchema) -> Seq<
    char,
> {
    "CREATE TABLE "@ + quoted(table_name) + " (\n"@ + join(columns_sql(table, schema), ",\n"@)
        + indexes_sql(table) + primary_key_sql(table)
        + "\n) DEFAULT CHARACTER SET utf8mb4 COLLATE utf8mb4_unicode_ci"@
}

fn string_is_empty(s: &String) -> (r: bool)
    ensures
        r == (s@.len() == 0),
{
    s.as_str().unicode_len() == 0
}

/// Writes an integer in decimal.
fn int_to_decimal(i: i64) -> (r: String)
    ensures
        r@ == int_sql(i as int),
{
    if i < 0 {
        let magnitude: u64 = (0i128 - i as i128) as u64;
        let digits = u64_to_decimal(magnitude);
        let mut r = String::from_str("-");
        r.append(digits.as_str());
        r
    } else {
        u64_to_decimal(i as u64)
    }
}

fn render_value(v: &PrismaValue) -> (r: String)
    ensures
        r@ == value_sql(v@),
{
    match v {
        PrismaValue::String(s) => s.clone(),
        PrismaValue::Boolean(b) => if *b {
            String::from_str("true")
        } else {
            String::from_str("false")
        },
        PrismaValue::Enum(s) => s.clone(),
        PrismaValue::Int(i) => int_to_decimal(*i),
        PrismaValue::Json(s) => s.clone(),
        PrismaValue::Null => String::from_str("null"),
    }
}

fn render_string_literal(s: &str) -> (r: String)
    ensures
        r@ == string_literal(s@),
{
    let mut r = String::from_str("'");
    let escaped = escape_string_literal(s);
    r.append(escaped.as_str());
    r.append("'");
    r
}

/// The MySQL type of a column.
pub fn render_column_type(column: &Column, schema: &SqlSchema) -> (r: String)
    requires
        column_type_renderable(*column, *schema),
    ensures
        r@ == column_type_sql(*column, *schema),
{
    if !string_is_empty(&column.tpe.full_data_type) {
        return column.tpe.full_data_type.clone();
    }
    match &column.tpe.family {
        ColumnTypeFamily::Boolean => String::from_str("BOOLEAN"),
        ColumnTypeFamily::DateTime => String::from_str("DATETIME(3)"),
        ColumnTypeFamily::Float => String::from_str("DECIMAL(65,30)"),
        ColumnTypeFamily::Decimal => String::from_str("DECIMAL(65,30)"),
        ColumnTypeFamily::Int => String::from_str("INT"),
        ColumnTypeFamily::BigInt => String::from_str("BIGINT"),
        ColumnTypeFamily::String => String::from_str("VARCHAR(191)"),
        ColumnTypeFamily::Enum(enum_name) => {
            let e = schema.get_enum(enum_name.as_str());
            match e {
                Some(e) => {
                    let mut literals: Vec<String> = Vec::new();
                    let mut i: usize = 0;
                    while i < e.values.len()
                        invariant
                            i <= e.values.len(),
                            literals@.len() == i,
                            forall|j: int|
                                0 <= j < i ==> (#[trigger] literals@[j])@ == string_literal(
                                    e.values@[j]@,
                                ),
                        decreases e.values.len() - i,
                    {
                        literals.push(render_string_literal(e.values[i].as_str()));
                        i = i + 1;
                    }
                    assert(strings_view(literals@) =~= strings_view(e.values@).map_values(
                        |v: Seq<char>| string_literal(v),
                    ));
                    let mut r = String::from_str("ENUM(");
                    let body = join_strings(&literals, ", ");
                    r.append(body.as_str());
                    r.append(")");
                    r
                },
                None => {
                    proof {
                        assert(false);
                    }
                    String::new()
                },
            }
        },
        ColumnTypeFamily::Json => String::from_str("JSON"),
        ColumnTypeFamily::Binary => String::from_str("LONGBLOB"),
        _ => {
            proof {
                assert(false);
            }
            String::new()
        },
    }
}

/// How MySQL alters a column: dropping its default, or redefining it with
/// `MODIFY` (`SET DEFAULT` cannot take an expression on most versions).
#[derive(Debug)]
pub enum MysqlAlterColumn {
    DropDefault,
    Modify { new_default: Option<DefaultValue>, changes: ColumnChanges },
}

/// Only the default changed, and the column has none any more.
pub open spec fn drops_default(next: Column, changes: ColumnChanges) -> bool {
    changes.spec_only_default_changed() && next.default is None
}

/// The default of the redefined column. An expression of the database that
/// the next side leaves empty keeps the text that the previous side had.
pub open spec fn carried_default(previous: Column, next: Column) -> Option<DefaultKindView> {
    match (opt_default_view(previous.default), opt_default_view(next.default)) {
        (Some(DefaultKindView::DbGenerated(p)), Some(DefaultKindView::DbGenerated(n))) => if n.len()
            == 0 && p.len() > 0 {
            Some(DefaultKindView::DbGenerated(p))
        } else {
            Some(DefaultKindView::DbGenerated(n))
        },
        (_, d) => d,
    }
}

impl MysqlAlterColumn {
    pub fn new(columns: Pair<&Column>, changes: &ColumnChanges) -> (r: MysqlAlterColumn)
        requires
            !changes.rename,
        ensures
            match r {
                MysqlAlterColumn::DropDefault => drops_default(*columns.next, *changes),
                MysqlAlterColumn::Modify { new_default, changes: c } => !drops_default(
                    *columns.next,
                    *changes,
                ) && c == *changes && opt_default_view(new_default) == carried_default(
                    *columns.previous,
                    *columns.next,
                ),
            },
    {
        if changes.only_default_changed() && columns.next.default.is_none() {
            return MysqlAlterColumn::DropDefault;
        }
        let mut new_default: Option<DefaultValue> = match &columns.next.default {
            Some(d) => Some(d.copy_value()),
            None => None,
        };
        if let (Some(previous), Some(next)) = (&columns.previous.default, &columns.next.default) {
            if let (DefaultKind::DbGenerated(p), DefaultKind::DbGenerated(n)) = (
                &previous.kind,
                &next.kind,
            ) {
                if string_is_empty(n) && !string_is_empty(p) {
                    new_default = Some(DefaultValue::db_generated(p.clone()));
                }
            }
        }
        MysqlAlterColumn::Modify { changes: *changes, new_default }
    }
}

pub open spec fn modify_default_sql(d: Option<DefaultKindView>, family: ColumnTypeFamily) -> Seq<
    char,
> {
    match d {
        Some(d) => if default_sql(d, family).len() > 0 {
            " DEFAULT "@ + default_sql(d, family)
        } else {
            Seq::empty()
        },
        None => Seq::empty(),
    }
}

/// A `MODIFY` clause that redefines `next` with the default `new_default`.
pub open spec fn modify_sql(new_default: Option<DefaultKindView>, next: Column, schema: SqlSchema) -> Seq<
    char,
> {
    "MODIFY "@ + quoted(next.name@) + " "@ + column_type_sql(next, schema) + nullability_sql(
        next.arity,
    ) + modify_default_sql(new_default, next.tpe.family) + (if next.auto_increment {
        " AUTO_INCREMENT"@
    } else {
        Seq::empty()
    })
}

/// Writes a `MODIFY` clause.
pub fn render_mysql_modify(
    changes: &ColumnChanges,
    new_default: Option<&DefaultValue>,
    next_column: &Column,
    renderer: &MysqlFlavour,
    schema: &SqlSchema,
) -> (r: String)
    requires
        column_type_renderable(*next_column, *schema),
        match new_default {
            Some(d) => default_fits(Some(d@), next_column.tpe.family),
            None => true,
        },
    ensures
        r@ == modify_sql(
            match new_default {
                Some(d) => Some(d@),
                None => None,
            },
            *next_column,
            *schema,
        ),
{
    let column_type = if changes.type_changed() {
        if !string_is_empty(&next_column.tpe.full_data_type) {
            next_column.tpe.full_data_type.clone()
        } else {
            render_column_type(next_column, schema)
        }
    } else {
        if !string_is_empty(&next_column.tpe.full_data_type) {
            next_column.tpe.full_data_type.clone()
        } else {
            render_column_type(next_column, schema)
        }
    };
    let mut s = String::from_str("MODIFY ");
    let name = renderer.quote(next_column.name.as_str());
    s.append(name.as_str());
    s.append(" ");
    s.append(column_type.as_str());
    if next_column.arity == ColumnArity::Required {
        s.append(" NOT NULL");
    }
    let ghost before_default = s@;
    match new_default {
        Some(d) => {
            let expression = renderer.render_default(d, &next_column.tpe.family);
            if !string_is_empty(&expression) {
                s.append(" DEFAULT ");
                s.append(expression.as_str());
            }
        },
        None => {},
    }
    assert(s@ =~= before_default + modify_default_sql(
        match new_default {
            Some(d) => Some(d@),
            None => None,
        },
        next_column.tpe.family,
    ));
    if next_column.auto_increment {
        s.append(" AUTO_INCREMENT");
    }
    assert(s@ =~= modify_sql(
        match new_default {
            Some(d) => Some(d@),
            None => None,
        },
        *next_column,
        *schema,
    ));
    s
}

/// The tables that an `ALTER TABLE` step speaks of exist.
pub open spec fn alter_table_tables_exist(alter_table: AlterTable, schemas: Pair<SqlSchema>) -> bool {
    alter_table.table_index.previous < schemas.previous.tables@.len()
        && alter_table.table_index.next < schemas.next.tables@.len()
}

/// The change can be written for MySQL: the columns it names exist, the
/// columns it writes can be written, no column is renamed, and no column is
/// dropped and recreated (MySQL alters columns in place).
pub open spec fn change_renderable(
    change: TableChange,
    previous: Table,
    next: Table,
    schema: SqlSchema,
) -> bool {
    match change {
        TableChange::AddColumn(add) => add.column_index < next.columns@.len() && column_renderable(
            next.columns@[add.column_index as int],
            schema,
        ),
        TableChange::DropColumn(drop) => drop.index < previous.columns@.len(),
        TableChange::AlterColumn(alter) => alter.column_index.previous < previous.columns@.len()
            && alter.column_index.next < next.columns@.len() && !alter.changes.rename
            && column_renderable(next.columns@[alter.column_index.next as int], schema),
        TableChange::DropAndRecreateColumn { .. } => false,
        TableChange::DropPrimaryKey => true,
        TableChange::AddPrimaryKey { .. } => true,
    }
}

/// The clause of `ALTER TABLE` that one change becomes.
pub open spec fn clause_sql(change: TableChange, previous: Table, next: Table, schema: SqlSchema) -> Seq<
    char,
> {
    match change {
        TableChange::DropPrimaryKey => "DROP PRIMARY KEY"@,
        TableChange::AddPrimaryKey { columns } => "ADD PRIMARY KEY ("@ + join(
            quoted_all(columns@),
            ", "@,
        ) + ")"@,
        TableChange::AddColumn(add) => "ADD COLUMN "@ + column_sql(
            next.columns@[add.column_index as int],
            next,
            schema,
        ),
        TableChange::DropColumn(drop) => "DROP COLUMN "@ + quoted(
            previous.columns@[drop.index as int].name@,
        ),
        TableChange::AlterColumn(alter) => {
            let p = previous.columns@[alter.column_index.previous as int];
            let n = next.columns@[alter.column_index.next as int];
            if drops_default(n, alter.changes) {
                "ALTER COLUMN "@ + quoted(p.name@) + " DROP DEFAULT"@
            } else {
                modify_sql(carried_default(p, n), n, schema)
            }
        },
        TableChange::DropAndRecreateColumn { .. } => Seq::empty(),
    }
}

pub open spec fn clauses_sql(alter_table: AlterTable, schemas: Pair<SqlSchema>) -> Seq<Seq<char>> {
    let previous = schemas.previous.tables@[alter_table.table_index.previous as int];
    let next = schemas.next.tables@[alter_table.table_index.next as int];
    Seq::new(
        alter_table.changes@.len(),
        |i: int| clause_sql(alter_table.changes@[i], previous, next, schemas.next),
    )
}

/// One `ALTER TABLE` statement with a clause per change, or no statement
/// when there is no change.
pub open spec fn alter_table_sql(alter_table: AlterTable, schemas: Pair<SqlSchema>) -> Seq<Seq<char>> {
    if alter_table.changes@.len() == 0 {
        Seq::empty()
    } else {
        let previous = schemas.previous.tables@[alter_table.table_index.previous as int];
        seq![
            "ALTER TABLE "@ + quoted(previous.name@) + " "@ + join(
                clauses_sql(alter_table, schemas),
                ",\n    "@,
            ),
        ]
    }
}

/// The step names tables, indexes and foreign keys that exist, and what it
/// writes can be written for MySQL.
pub open spec fn step_renderable(step: SqlMigrationStep, schemas: Pair<SqlSchema>) -> bool {
    let previous = schemas.previous.tables@;
    let next = schemas.next.tables@;
    match step {
        SqlMigrationStep::CreateTable { table_index } => table_index < next.len() && table_renderable(
            next[table_index as int],
            schemas.next,
        ),
        SqlMigrationStep::DropTable { table_index } => table_index < previous.len(),
        SqlMigrationStep::AlterTable(alter) => alter_table_tables_exist(alter, schemas) && forall|
            i: int,
        |
            0 <= i < alter.changes@.len() ==> change_renderable(
                #[trigger] alter.changes@[i],
                previous[alter.table_index.previous as int],
                next[alter.table_index.next as int],
                schemas.next,
            ),
        SqlMigrationStep::CreateIndex { table_index, index_index } => table_index < next.len()
            && index_index < next[table_index as int].indices@.len(),
        SqlMigrationStep::DropIndex { table_index, index_index } => table_index < previous.len()
            && index_index < previous[table_index as int].indices@.len(),
        SqlMigrationStep::RenameIndex { table_index, index_index } => table_index.previous
            < previous.len() && table_index.next < next.len() && index_index.previous
            < previous[table_index.previous as int].indices@.len() && index_index.next
            < next[table_index.next as int].indices@.len(),
        SqlMigrationStep::DropAndRecreateIndex { table_index, index_index } => table_index.previous
            < previous.len() && table_index.next < next.len() && index_index.previous
            < previous[table_index.previous as int].indices@.len() && index_index.next
            < next[table_index.next as int].indices@.len(),
        SqlMigrationStep::AddForeignKey { table_index, foreign_key_index } => table_index
            < next.len() && foreign_key_index < next[table_index as int].foreign_keys@.len(),
        SqlMigrationStep::DropForeignKey { table_index, foreign_key_index } => table_index
            < previous.len() && foreign_key_index < previous[table_index as int].foreign_keys@.len()
            && previous[table_index as int].foreign_keys@[foreign_key_index as int].constraint_name is Some,
    }
}

/// The statements of one step, in the order in which they run.
pub open spec fn step_sql(step: SqlMigrationStep, schemas: Pair<SqlSchema>) -> Seq<Seq<char>> {
    let previous = schemas.previous.tables@;
    let next = schemas.next.tables@;
    match step {
        SqlMigrationStep::CreateTable { table_index } => {
            let t = next[table_index as int];
            seq![create_table_sql(t, t.name@, schemas.next)]
        },
        SqlMigrationStep::DropTable { table_index } => seq![
            drop_table_sql(previous[table_index as int].name@),
        ],
        SqlMigrationStep::AlterTable(alter) => alter_table_sql(alter, schemas),
        SqlMigrationStep::CreateIndex { table_index, index_index } => {
            let t = next[table_index as int];
            seq![create_index_sql(t, t.indices@[index_index as int])]
        },
        SqlMigrationStep::DropIndex { table_index, index_index } => {
            let t = previous[table_index as int];
            seq![drop_index_sql(t, t.indices@[index_index as int])]
        },
        SqlMigrationStep::RenameIndex { table_index, index_index } => {
            let t = previous[table_index.previous as int];
            seq![
                rename_index_sql(
                    t,
                    t.indices@[index_index.previous as int],
                    next[table_index.next as int].indices@[index_index.next as int],
                ),
            ]
        },
        SqlMigrationStep::DropAndRecreateIndex { table_index, index_index } => {
            let p = previous[table_index.previous as int];
            let n = next[table_index.next as int];
            seq![
                create_index_sql(n, n.indices@[index_index.next as int]),
                drop_index_sql(p, p.indices@[index_index.previous as int]),
            ]
        },
        SqlMigrationStep::AddForeignKey { table_index, foreign_key_index } => {
            let t = next[table_index as int];
            seq![add_foreign_key_sql(t, t.foreign_keys@[foreign_key_index as int])]
        },
        SqlMigrationStep::DropForeignKey { table_index, foreign_key_index } => {
            let t = previous[table_index as int];
            seq![
                drop_foreign_key_sql(
                    t,
                    t.foreign_keys@[foreign_key_index as int].constraint_name->0@,
                ),
            ]
        },
    }
}

fn one_statement(s: String) -> (r: Vec<String>)
    ensures
        strings_view(r@) == seq![s@],
{
    let ghost v = s@;
    let mut r: Vec<String> = Vec::new();
    r.push(s);
    assert(strings_view(r@) =~= seq![v]);
    r
}

/// The MySQL dialect.
#[derive(Debug, Clone, Copy)]
pub struct MysqlFlavour;

impl MysqlFlavour {
    /// `name` as a MySQL identifier.
    pub fn quote(&self, name: &str) -> (r: String)
        ensures
            r@ == quoted(name@),
    {
        let mut r = String::from_str("`");
        r.append(name);
        r.append("`");
        r
    }

    pub fn render_drop_table(&self, table_name: &str) -> (r: Vec<String>)
        ensures
            r@.len() == 1,
            r@[0]@ == drop_table_sql(table_name@),
    {
        let mut s = String::from_str("DROP TABLE ");
        let q = self.quote(table_name);
        s.append(q.as_str());
        let mut r: Vec<String> = Vec::new();
        r.push(s);
        r
    }

    pub fn render_rename_table(&self, name: &str, new_name: &str) -> (r: String)
        ensures
            r@ == rename_table_sql(name@, new_name@),
    {
        let mut s = String::from_str("ALTER TABLE ");
        let q = self.quote(name);
        s.append(q.as_str());
        s.append(" RENAME TO ");
        let n = self.quote(new_name);
        s.append(n.as_str());
        assert(s@ =~= rename_table_sql(name@, new_name@));
        s
    }

    /// Drops an index; its name is cut as on creation, so that both address
    /// the same index.
    pub fn render_drop_index(&self, table: &Table, index: &Index) -> (r: String)
        ensures
            r@ == drop_index_sql(*table, *index),
    {
        let mut s = String::from_str("DROP INDEX ");
        let name = truncate_identifier(index.name.as_str());
        let q = self.quote(name.as_str());
        s.append(q.as_str());
        s.append(" ON ");
        let t = self.quote(table.name.as_str());
        s.append(t.as_str());
        assert(s@ =~= drop_index_sql(*table, *index));
        s
    }

    pub fn render_create_index(&self, table: &Table, index: &Index) -> (r: String)
        ensures
            r@ == create_index_sql(*table, *index),
    {
        let mut s = String::from_str("CREATE ");
        if index.tpe == IndexType::Unique {
            s.append("UNIQUE ");
        }
        s.append("INDEX ");
        let name = truncate_identifier(index.name.as_str());
        let q = self.quote(name.as_str());
        s.append(q.as_str());
        s.append(" ON ");
        let t = self.quote(table.name.as_str());
        s.append(t.as_str());
        s.append("(");
        let columns = quoted_list(&index.columns, ", ");
        s.append(columns.as_str());
        s.append(")");
        assert(s@ =~= create_index_sql(*table, *index));
        s
    }

    /// Renames an index in place.
    pub fn render_alter_index(&self, table: &Table, indexes: Pair<&Index>) -> (r: Vec<String>)
        ensures
            r@.len() == 1,
            r@[0]@ == rename_index_sql(*table, *indexes.previous, *indexes.next),
    {
        let mut s = String::from_str("ALTER TABLE ");
        let t = self.quote(table.name.as_str());
        s.append(t.as_str());
        s.append(" RENAME INDEX ");
        let p = self.quote(indexes.previous.name.as_str());
        s.append(p.as_str());
        s.append(" TO ");
        let n = self.quote(indexes.next.name.as_str());
        s.append(n.as_str());
        assert(s@ =~= rename_index_sql(*table, *indexes.previous, *indexes.next));
        let mut r: Vec<String> = Vec::new();
        r.push(s);
        r
    }

    /// Replaces an index by creating the new one before dropping the old
    /// one, so that a foreign key that relies on it is never left without.
    pub fn render_drop_and_recreate_index(&self, tables: Pair<&Table>, indexes: Pair<&Index>) -> (r:
        Vec<String>)
        ensures
            r@.len() == 2,
            r@[0]@ == create_index_sql(*tables.next, *indexes.next),
            r@[1]@ == drop_index_sql(*tables.previous, *indexes.previous),
    {
        let mut r: Vec<String> = Vec::new();
        r.push(self.render_create_index(tables.next, indexes.next));
        r.push(self.render_drop_index(tables.previous, indexes.previous));
        r
    }

    pub fn render_drop_foreign_key(&self, table: &Table, foreign_key: &ForeignKey) -> (r: String)
        requires
            foreign_key.constraint_name is Some,
        ensures
            r@ == drop_foreign_key_sql(*table, foreign_key.constraint_name->0@),
    {
        let mut s = String::from_str("ALTER TABLE ");
        let t = self.quote(table.name.as_str());
        s.append(t.as_str());
        s.append(" DROP FOREIGN KEY ");
        match &foreign_key.constraint_name {
            Some(name) => {
                let q = self.quote(name.as_str());
                s.append(q.as_str());
            },
            None => {},
        }
        assert(s@ =~= drop_foreign_key_sql(*table, foreign_key.constraint_name->0@));
        s
    }

    pub fn render_add_foreign_key(&self, table: &Table, foreign_key: &ForeignKey) -> (r: String)
        ensures
            r@ == add_foreign_key_sql(*table, *foreign_key),
    {
        let mut s = String::from_str("ALTER TABLE ");
        let t = self.quote(table.name.as_str());
        s.append(t.as_str());
        s.append(" ADD ");
        let ghost head = s@;
        match &foreign_key.constraint_name {
            Some(name) => {
                s.append("CONSTRAINT ");
                let q = self.quote(name.as_str());
                s.append(q.as_str());
                s.append(" ");
            },
            None => {},
        }
        s.append("FOREIGN KEY (");
        let columns = quoted_list(&foreign_key.columns, ", ");
        s.append(columns.as_str());
        s.append(") REFERENCES ");
        let rt = self.quote(foreign_key.referenced_table.as_str());
        s.append(rt.as_str());
        s.append("(");
        let referenced = quoted_list(&foreign_key.referenced_columns, ", ");
        s.append(referenced.as_str());
        s.append(") ON DELETE ");
        s.append(action_text(foreign_key.on_delete_action));
        s.append(" ON UPDATE ");
        s.append(action_text(foreign_key.on_update_action));
        assert(s@ =~= add_foreign_key_sql(*table, *foreign_key));
        s
    }

    /// The inline `REFERENCES` clause of a foreign key.
    pub fn render_references(&self, foreign_key: &ForeignKey) -> (r: String)
        ensures
            r@ == references_sql(*foreign_key),
    {
        let mut s = String::from_str(" REFERENCES ");
        let rt = self.quote(foreign_key.referenced_table.as_str());
        s.append(rt.as_str());
        s.append("(");
        let referenced = quoted_list(&foreign_key.referenced_columns, ",");
        s.append(referenced.as_str());
        s.append(") ");
        s.append(on_delete_text(foreign_key.on_delete_action));
        s.append(" ON UPDATE CASCADE");
        assert(s@ =~= references_sql(*foreign_key));
        s
    }

    /// A default as the expression that follows `DEFAULT`.
    pub fn render_default(&self, default: &DefaultValue, family: &ColumnTypeFamily) -> (r: String)
        requires
            default_fits(Some(default@), *family),
        ensures
            r@ == default_sql(default@, *family),
    {
        match &default.kind {
            DefaultKind::DbGenerated(expression) => expression.clone(),
            DefaultKind::Now => String::from_str("CURRENT_TIMESTAMP(3)"),
            DefaultKind::Sequence(_) => String::new(),
            DefaultKind::Value(v) => {
                match v {
                    PrismaValue::String(s) => {
                        if let ColumnTypeFamily::String = family {
                            return render_string_literal(s.as_str());
                        }
                    },
                    PrismaValue::Enum(s) => {
                        if let ColumnTypeFamily::Enum(_) = family {
                            return render_string_literal(s.as_str());
                        }
                    },
                    _ => {},
                }
                let text = render_value(v);
                if let ColumnTypeFamily::DateTime = family {
                    let mut r = String::from_str("'");
                    r.append(text.as_str());
                    r.append("'");
                    r
                } else {
                    text
                }
            },
        }
    }

    /// A column definition: name, type, nullability, default and
    /// `AUTO_INCREMENT` where no foreign key constrains the column.
    pub fn render_column(&self, column: &Column, table: &Table, schema: &SqlSchema) -> (r: String)
        requires
            column_renderable(*column, *schema),
        ensures
            r@ == column_sql(*column, *table, *schema),
    {
        let mut s = String::from_str("    ");
        let name = self.quote(column.name.as_str());
        s.append(name.as_str());
        s.append(" ");
        let tpe = render_column_type(column, schema);
        s.append(tpe.as_str());
        if column.arity == ColumnArity::Required {
            s.append(" NOT NULL");
        }
        let ghost before_default = s@;
        match &column.default {
            Some(d) => {
                let skip = match &d.kind {
                    DefaultKind::DbGenerated(_) => true,
                    DefaultKind::Sequence(_) => true,
                    _ => match &column.tpe.family {
                        ColumnTypeFamily::Json => true,
                        ColumnTypeFamily::Binary => true,
                        _ => false,
                    },
                };
                if !skip {
                    s.append(" DEFAULT ");
                    let text = self.render_default(d, &column.tpe.family);
                    s.append(text.as_str());
                }
            },
            None => {},
        }
        assert(s@ =~= before_default + column_default_sql(*column));
        if !table.foreign_key_for_column(column.name.as_str()) && column.auto_increment {
            s.append(" AUTO_INCREMENT");
        }
        assert(s@ =~= column_sql(*column, *table, *schema));
        s
    }

    /// A `CREATE TABLE` statement for `table` under the name `table_name`.
    pub fn render_create_table_as(&self, table: &Table, table_name: &str, schema: &SqlSchema) -> (r:
        String)
        requires
            table_renderable(*table, *schema),
        ensures
            r@ == create_table_sql(*table, table_name@, *schema),
    {
        let mut columns: Vec<String> = Vec::new();
        let mut i: usize = 0;
        while i < table.columns.len()
            invariant
                table_renderable(*table, *schema),
                i <= table.columns.len(),
                columns@.len() == i,
                forall|j: int|
                    0 <= j < i ==> (#[trigger] columns@[j])@ == column_sql(
                        table.columns@[j],
                        *table,
                        *schema,
                    ),
            decreases table.columns.len() - i,
        {
            assert(column_renderable(table.columns@[i as int], *schema));
            columns.push(self.render_column(&table.columns[i], table, schema));
            i = i + 1;
        }
        assert(strings_view(columns@) =~= columns_sql(*table, *schema));
        let mut lines: Vec<String> = Vec::new();
        let mut k: usize = 0;
        while k < table.indices.len()
            invariant
                k <= table.indices.len(),
                lines@.len() == k,
                forall|j: int|
                    0 <= j < k ==> (#[trigger] lines@[j])@ == index_line_sql(table.indices@[j]),
            decreases table.indices.len() - k,
        {
            let index = &table.indices[k];
            let mut line = String::new();
            if index.tpe == IndexType::Unique {
                line.append("UNIQUE ");
            }
            line.append("INDEX ");
            let name = truncate_identifier(index.name.as_str());
            let q = self.quote(name.as_str());
            line.append(q.as_str());
            line.append("(");
            let cols = quoted_list(&index.columns, ", ");
            line.append(cols.as_str());
            line.append(")");
            assert(line@ =~= index_line_sql(*index));
            lines.push(line);
            k = k + 1;
        }
        assert(strings_view(lines@) =~= Seq::new(
            table.indices@.len(),
            |i: int| index_line_sql(table.indices@[i]),
        ));
        let mut s = String::from_str("CREATE TABLE ");
        let q = self.quote(table_name);
        s.append(q.as_str());
        s.append(" (\n");
        let body = join_strings(&columns, ",\n");
        s.append(body.as_str());
        let ghost before_indexes = s@;
        if table.indices.len() > 0 {
            s.append(",\n");
            let indexes = join_strings(&lines, ",\n");
            s.append(indexes.as_str());
        }
        assert(s@ =~= before_indexes + indexes_sql(*table));
        let ghost before_key = s@;
        match &table.primary_key {
            Some(pk) => {
                if pk.columns.len() > 0 {
                    s.append(",\n\n    PRIMARY KEY (");
                    let cols = quoted_list(&pk.columns, ",");
                    s.append(cols.as_str());
                    s.append(")");
                }
            },
            None => {},
        }
        assert(s@ =~= before_key + primary_key_sql(*table));
        s.append("\n) DEFAULT CHARACTER SET utf8mb4 COLLATE utf8mb4_unicode_ci");
        assert(s@ =~= create_table_sql(*table, table_name@, *schema));
        s
    }

    /// A `CREATE TABLE` statement for `table` under its own name.
    pub fn render_create_table(&self, table: &Table, schema: &SqlSchema) -> (r: String)
        requires
            table_renderable(*table, *schema),
        ensures
            r@ == create_table_sql(*table, table.name@, *schema),
    {
        self.render_create_table_as(table, table.name.as_str(), schema)
    }

    /// One `ALTER TABLE` statement with a clause per change, in order, or
    /// no statement at all when there is no change.
    pub fn render_alter_table(&self, alter_table: &AlterTable, schemas: &Pair<SqlSchema>) -> (r: Vec<
        String,
    >)
        requires
            alter_table_tables_exist(*alter_table, *schemas),
            forall|i: int|
                0 <= i < alter_table.changes@.len() ==> change_renderable(
                    #[trigger] alter_table.changes@[i],
                    schemas.previous.tables@[alter_table.table_index.previous as int],
                    schemas.next.tables@[alter_table.table_index.next as int],
                    schemas.next,
                ),
        ensures
            strings_view(r@) == alter_table_sql(*alter_table, *schemas),
            r@.len() == 0 <==> alter_table.changes@.len() == 0,
    {
        let previous = &schemas.previous.tables[alter_table.table_index.previous];
        let next = &schemas.next.tables[alter_table.table_index.next];
        let mut lines: Vec<String> = Vec::new();
        let mut i: usize = 0;
        while i < alter_table.changes.len()
            invariant
                alter_table_tables_exist(*alter_table, *schemas),
                *previous == schemas.previous.tables@[alter_table.table_index.previous as int],
                *next == schemas.next.tables@[alter_table.table_index.next as int],
                forall|i: int|
                    0 <= i < alter_table.changes@.len() ==> change_renderable(
                        #[trigger] alter_table.changes@[i],
                        *previous,
                        *next,
                        schemas.next,
                    ),
                i <= alter_table.changes.len(),
                lines@.len() == i,
                forall|j: int|
                    0 <= j < i ==> (#[trigger] lines@[j])@ == clause_sql(
                        alter_table.changes@[j],
                        *previous,
                        *next,
                        schemas.next,
                    ),
            decreases alter_table.changes.len() - i,
        {
            let change = &alter_table.changes[i];
            assert(change_renderable(*change, *previous, *next, schemas.next));
            let line = match change {
                TableChange::DropPrimaryKey => String::from_str("DROP PRIMARY KEY"),
                TableChange::AddPrimaryKey { columns } => {
                    let mut l = String::from_str("ADD PRIMARY KEY (");
                    let cols = quoted_list(columns, ", ");
                    l.append(cols.as_str());
                    l.append(")");
                    l
                },
                TableChange::AddColumn(add) => {
                    let column = &next.columns[add.column_index];
                    let mut l = String::from_str("ADD COLUMN ");
                    let col = self.render_column(column, next, &schemas.next);
                    l.append(col.as_str());
                    l
                },
                TableChange::DropColumn(drop) => {
                    let mut l = String::from_str("DROP COLUMN ");
                    let q = self.quote(previous.columns[drop.index].name.as_str());
                    l.append(q.as_str());
                    l
                },
                TableChange::AlterColumn(alter) => {
                    let p = &previous.columns[alter.column_index.previous];
                    let n = &next.columns[alter.column_index.next];
                    let expanded = MysqlAlterColumn::new(Pair { previous: p, next: n }, &alter.changes);
                    match expanded {
                        MysqlAlterColumn::DropDefault => {
                            let mut l = String::from_str("ALTER COLUMN ");
                            let q = self.quote(p.name.as_str());
                            l.append(q.as_str());
                            l.append(" DROP DEFAULT");
                            l
                        },
                        MysqlAlterColumn::Modify { new_default, changes } => {
                            render_mysql_modify(&changes, new_default.as_ref(), n, self, &schemas.next)
                        },
                    }
                },
                TableChange::DropAndRecreateColumn { .. } => {
                    proof {
                        assert(false);
                    }
                    String::new()
                },
            };
            lines.push(line);
            i = i + 1;
        }
        assert(strings_view(lines@) =~= clauses_sql(*alter_table, *schemas));
        if lines.len() == 0 {
            let r: Vec<String> = Vec::new();
            assert(strings_view(r@) =~= alter_table_sql(*alter_table, *schemas));
            return r;
        }
        let mut s = String::from_str("ALTER TABLE ");
        let q = self.quote(previous.name.as_str());
        s.append(q.as_str());
        s.append(" ");
        let body = join_strings(&lines, ",\n    ");
        s.append(body.as_str());
        let mut r: Vec<String> = Vec::new();
        r.push(s);
        assert(strings_view(r@) =~= alter_table_sql(*alter_table, *schemas));
        r
    }

    /// The statements of one step, in the order in which they run.
    pub fn render_step(&self, step: &SqlMigrationStep, schemas: &Pair<SqlSchema>) -> (r: Vec<String>)
        requires
            step_renderable(*step, *schemas),
        ensures
            strings_view(r@) == step_sql(*step, *schemas),
    {
        let previous = &schemas.previous;
        let next = &schemas.next;
        match step {
            SqlMigrationStep::CreateTable { table_index } => {
                one_statement(self.render_create_table(&next.tables[*table_index], next))
            },
            SqlMigrationStep::DropTable { table_index } => {
                let r = self.render_drop_table(previous.tables[*table_index].name.as_str());
                assert(strings_view(r@) =~= step_sql(*step, *schemas));
                r
            },
            SqlMigrationStep::AlterTable(alter) => self.render_alter_table(alter, schemas),
            SqlMigrationStep::CreateIndex { table_index, index_index } => {
                let t = &next.tables[*table_index];
                one_statement(self.render_create_index(t, &t.indices[*index_index]))
            },
            SqlMigrationStep::DropIndex { table_index, index_index } => {
                let t = &previous.tables[*table_index];
                one_statement(self.render_drop_index(t, &t.indices[*index_index]))
            },
            SqlMigrationStep::RenameIndex { table_index, index_index } => {
                let t = &previous.tables[table_index.previous];
                let indexes = Pair {
                    previous: &t.indices[index_index.previous],
                    next: &next.tables[table_index.next].indices[index_index.next],
                };
                let r = self.render_alter_index(t, indexes);
                assert(strings_view(r@) =~= step_sql(*step, *schemas));
                r
            },
            SqlMigrationStep::DropAndRecreateIndex { table_index, index_index } => {
                let p = &previous.tables[table_index.previous];
                let n = &next.tables[table_index.next];
                let r = self.render_drop_and_recreate_index(
                    Pair { previous: p, next: n },
                    Pair { previous: &p.indices[index_index.previous], next: &n.indices[index_index.next] },
                );
                assert(strings_view(r@) =~= step_sql(*step, *schemas));
                r
            },
            SqlMigrationStep::AddForeignKey { table_index, foreign_key_index } => {
                let t = &next.tables[*table_index];
                one_statement(self.render_add_foreign_key(t, &t.foreign_keys[*foreign_key_index]))
            },
            SqlMigrationStep::DropForeignKey { table_index, foreign_key_index } => {
                let t = &previous.tables[*table_index];
                one_statement(self.render_drop_foreign_key(t, &t.foreign_keys[*foreign_key_index]))
            },
        }
    }

    /// The statements of each step, grouped by step and in order.
    pub fn render_steps(&self, steps: &Vec<SqlMigrationStep>, schemas: &Pair<SqlSchema>) -> (r: Vec<
        Vec<String>,
    >)
        requires
            forall|i: int| 0 <= i < steps@.len() ==> step_renderable(#[trigger] steps@[i], *schemas),
        ensures
            r@.len() == steps@.len(),
            forall|i: int|
                0 <= i < steps@.len() ==> strings_view(#[trigger] r@[i]@) == step_sql(
                    steps@[i],
                    *schemas,
                ),
    {
        let mut r: Vec<Vec<String>> = Vec::new();
        let mut i: usize = 0;
        while i < steps.len()
            invariant
                i <= steps.len(),
                r@.len() == i,
                forall|i: int| 0 <= i < steps@.len() ==> step_renderable(#[trigger] steps@[i], *schemas),
                forall|j: int|
                    0 <= j < i ==> strings_view(#[trigger] r@[j]@) == step_sql(steps@[j], *schemas),
            decreases steps.len() - i,
        {
            r.push(self.render_step(&steps[i], schemas));
            i = i + 1;
        }
        r
    }

    /// MySQL declares enums on the columns that use them: nothing to create.
    pub fn render_create_enum(&self, create_enum: &Enum) -> (r: Vec<String>)
        ensures
            r@.len() == 0,
    {
        Vec::new()
    }

    /// MySQL declares enums on the columns that use them: nothing to drop.
    pub fn render_drop_enum(&self, drop_enum: &Enum) -> (r: Vec<String>)
        ensures
            r@.len() == 0,
    {
        Vec::new()
    }
}

} // verus!
