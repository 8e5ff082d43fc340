//! A structural snapshot of a SQL schema, and the steps that migrate one
//! snapshot to another.

use crate::text::str_eq;
use vstd::prelude::*;
use vstd::string::*;

verus! {

/// The logical family of a column's type.
#[derive(Debug)]
pub enum ColumnTypeFamily {
    Int,
    BigInt,
    Float,
    Decimal,
    Boolean,
    String,
    DateTime,
    Binary,
    Json,
    Uuid,
    Enum(String),
    Unsupported(String),
}

/// A column's type: the full type as the database wrote it (empty when
/// unknown) and its family.
#[derive(Debug)]
pub struct ColumnType {
    pub full_data_type: String,
    pub family: ColumnTypeFamily,
}

#[derive(Clone, Copy, Debug, PartialEq, Eq, Structural)]
pub enum ColumnArity {
    Required,
    Nullable,
    List,
}

/// A literal value.
#[derive(Debug)]
pub enum PrismaValue {
    String(String),
    Boolean(bool),
    Enum(String),
    Int(i64),
    Json(String),
    Null,
}

/// The mathematical value of a [`PrismaValue`].
pub enum PrismaValueView {
    String(Seq<char>),
    Boolean(bool),
    Enum(Seq<char>),
    Int(int),
    Json(Seq<char>),
    Null,
}

impl View for PrismaValue {
    type V = PrismaValueView;

    open spec fn view(&self) -> PrismaValueView {
        match self {
            PrismaValue::String(s) => PrismaValueView::String(s@),
            PrismaValue::Boolean(b) => PrismaValueView::Boolean(*b),
            PrismaValue::Enum(s) => PrismaValueView::Enum(s@),
            PrismaValue::Int(i) => PrismaValueView::Int(*i as int),
            PrismaValue::Json(s) => PrismaValueView::Json(s@),
            PrismaValue::Null => PrismaValueView::Null,
        }
    }
}

/// How a column's default is given.
#[derive(Debug)]
pub enum DefaultKind {
    /// An expression that the database evaluates.
    DbGenerated(String),
    /// A literal value.
    Value(PrismaValue),
    /// The current time.
    Now,
    /// The next value of a sequence.
    Sequence(String),
}

pub enum DefaultKindView {
    DbGenerated(Seq<char>),
    Value(PrismaValueView),
    Now,
    Sequence(Seq<char>),
}

/// A column's default.
#[derive(Debug)]
pub struct DefaultValue {
    pub kind: DefaultKind,
}

impl View for DefaultValue {
    type V = DefaultKindView;

    open spec fn view(&self) -> DefaultKindView {
        match self.kind {
            DefaultKind::DbGenerated(s) => DefaultKindView::DbGenerated(s@),
            DefaultKind::Value(v) => DefaultKindView::Value(v@),
            DefaultKind::Now => DefaultKindView::Now,
            DefaultKind::Sequence(s) => DefaultKindView::Sequence(s@),
        }
    }
}

impl PrismaValue {
    /// A copy of the value.
    pub fn copy_value(&self) -> (r: PrismaValue)
        ensures
            r@ == self@,
    {
        match self {
            PrismaValue::String(s) => PrismaValue::String(s.clone()),
            PrismaValue::Boolean(b) => PrismaValue::Boolean(*b),
            PrismaValue::Enum(s) => PrismaValue::Enum(s.clone()),
            PrismaValue::Int(i) => PrismaValue::Int(*i),
            PrismaValue::Json(s) => PrismaValue::Json(s.clone()),
            PrismaValue::Null => PrismaValue::Null,
        }
    }
}

impl DefaultValue {
    /// A default computed by the database from `expression`.
    pub fn db_generated(expression: String) -> (r: DefaultValue)
        ensures
            r@ == DefaultKindView::DbGenerated(expression@),
    {
        DefaultValue { kind: DefaultKind::DbGenerated(expression) }
    }

    /// A copy of the default.
    pub fn copy_value(&self) -> (r: DefaultValue)
        ensures
            r@ == self@,
    {
        let kind = match &self.kind {
            DefaultKind::DbGenerated(s) => DefaultKind::DbGenerated(s.clone()),
            DefaultKind::Value(v) => DefaultKind::Value(v.copy_value()),
            DefaultKind::Now => DefaultKind::Now,
            DefaultKind::Sequence(s) => DefaultKind::Sequence(s.clone()),
        };
        DefaultValue { kind }
    }
}

/// The view of an optional default.
pub open spec fn opt_default_view(d: Option<DefaultValue>) -> Option<DefaultKindView> {
    match d {
        Some(v) => Some(v@),
        None => None,
    }
}

/// A column of a table.
#[derive(Debug)]
pub struct Column {
    pub name: String,
    pub tpe: ColumnType,
    pub arity: ColumnArity,
    pub default: Option<DefaultValue>,
    pub auto_increment: bool,
}

#[derive(Clone, Copy, Debug, PartialEq, Eq, Structural)]
pub enum IndexType {
    Unique,
    Normal,
}

/// An index of a table, over columns named in order.
#[derive(Debug)]
pub struct Index {
    pub name: String,
    pub columns: Vec<String>,
    pub tpe: IndexType,
}

#[derive(Clone, Copy, Debug, PartialEq, Eq, Structural)]
pub enum ForeignKeyAction {
    NoAction,
    Restrict,
    Cascade,
    SetNull,
    SetDefault,
}

/// A foreign key from columns of a table to columns of another.
#[derive(Debug)]
pub struct ForeignKey {
    pub constraint_name: Option<String>,
    pub columns: Vec<String>,
    pub referenced_table: String,
    pub referenced_columns: Vec<String>,
    pub on_delete_action: ForeignKeyAction,
    pub on_update_action: ForeignKeyAction,
}

#[derive(Debug)]
pub struct PrimaryKey {
    pub columns: Vec<String>,
}

/// A table: columns in order, indexes, primary key and foreign keys.
#[derive(Debug)]
pub struct Table {
    pub name: String,
    pub columns: Vec<Column>,
    pub indices: Vec<Index>,
    pub primary_key: Option<PrimaryKey>,
    pub foreign_keys: Vec<ForeignKey>,
}

/// An enum type with its variants in order.
#[derive(Debug)]
pub struct Enum {
    pub name: String,
    pub values: Vec<String>,
}

/// A schema: its tables and its enums.
#[derive(Debug)]
pub struct SqlSchema {
    pub tables: Vec<Table>,
    pub enums: Vec<Enum>,
}

/// The same thing on both sides of a migration.
#[derive(Debug)]
pub struct Pair<T> {
    pub previous: T,
    pub next: T,
}

/// The first enum from position `i` on that carries `name`.
pub open spec fn find_enum_from(enums: Seq<Enum>, name: Seq<char>, i: int) -> Option<Enum>
    decreases enums.len() - i,
{
    if i < 0 || i >= enums.len() {
        None
    } else if enums[i].name@ == name {
        Some(enums[i])
    } else {
        find_enum_from(enums, name, i + 1)
    }
}

impl SqlSchema {
    pub open spec fn enum_named(&self, name: Seq<char>) -> Option<Enum> {
        find_enum_from(self.enums@, name, 0)
    }

    /// The first enum that carries `name`.
    pub fn get_enum(&self, name: &str) -> (r: Option<&Enum>)
        ensures
            match r {
                Some(e) => self.enum_named(name@) == Some(*e),
                None => self.enum_named(name@) is None,
            },
    {
        let mut i: usize = 0;
        while i < self.enums.len()
            invariant
                i <= self.enums.len(),
                self.enum_named(name@) == find_enum_from(self.enums@, name@, i as int),
            decreases self.enums.len() - i,
        {
            if str_eq(self.enums[i].name.as_str(), name) {
                return Some(&self.enums[i]);
            }
            i = i + 1;
        }
        None
    }
}

/// Whether `names` holds `name`.
pub open spec fn holds_name(names: Seq<String>, name: Seq<char>) -> bool {
    exists|i: int| 0 <= i < names.len() && (#[trigger] names[i])@ == name
}

fn contains_name(names: &Vec<String>, name: &str) -> (r: bool)
    ensures
        r == holds_name(names@, name@),
{
    let mut i: usize = 0;
    while i < names.len()
        invariant
            i <= names.len(),
            forall|j: int| 0 <= j < i ==> (#[trigger] names@[j])@ != name@,
        decreases names.len() - i,
    {
        if str_eq(names[i].as_str(), name) {
            return true;
        }
        i = i + 1;
    }
    false
}

impl Table {
    /// Whether a foreign key of the table constrains the column `column`.
    pub open spec fn has_foreign_key_for(&self, column: Seq<char>) -> bool {
        exists|i: int|
            0 <= i < self.foreign_keys@.len() && holds_name(
                (#[trigger] self.foreign_keys@[i]).columns@,
                column,
            )
    }

    /// Whether a foreign key of the table constrains the column `column`.
    pub fn foreign_key_for_column(&self, column: &str) -> (r: bool)
        ensures
            r == self.has_foreign_key_for(column@),
    {
        let mut i: usize = 0;
        while i < self.foreign_keys.len()
            invariant
                i <= self.foreign_keys.len(),
                forall|j: int|
                    0 <= j < i ==> !holds_name((#[trigger] self.foreign_keys@[j]).columns@, column@),
            decreases self.foreign_keys.len() - i,
        {
            if contains_name(&self.foreign_keys[i].columns, column) {
                return true;
            }
            i = i + 1;
        }
        false
    }
}

/// Which parts of a column differ between the two sides of a migration.
#[derive(Clone, Copy, Debug, PartialEq, Eq, Structural)]
pub struct ColumnChanges {
    pub type_change: bool,
    pub default_change: bool,
    pub arity_change: bool,
    pub rename: bool,
    pub autoincrement_change: bool,
    pub sequence_change: bool,
}

impl ColumnChanges {
    pub open spec fn spec_only_default_changed(&self) -> bool {
        self.default_change && !self.type_change && !self.arity_change && !self.rename
            && !self.autoincrement_change && !self.sequence_change
    }

    pub fn type_changed(&self) -> (r: bool)
        ensures
            r == self.type_change,
    {
        self.type_change
    }

    pub fn column_was_renamed(&self) -> (r: bool)
        ensures
            r == self.rename,
    {
        self.rename
    }

    /// Whether the default changed and nothing else did.
    pub fn only_default_changed(&self) -> (r: bool)
        ensures
            r == self.spec_only_default_changed(),
    {
        self.default_change && !self.type_change && !self.arity_change && !self.rename
            && !self.autoincrement_change && !self.sequence_change
    }
}

/// Adds the column at `column_index` of the next table.
#[derive(Debug)]
pub struct AddColumn {
    pub column_index: usize,
}

/// Drops the column at `index` of the previous table.
#[derive(Debug)]
pub struct DropColumn {
    pub index: usize,
}

#[derive(Clone, Copy, Debug, PartialEq, Eq, Structural)]
pub enum ColumnTypeChange {
    RiskyCast,
    SafeCast,
    NotCastable,
}

/// Alters a column that exists on both sides.
#[derive(Debug)]
pub struct AlterColumn {
    pub column_index: Pair<usize>,
    pub changes: ColumnChanges,
    pub type_change: Option<ColumnTypeChange>,
}

/// One change to a table.
#[derive(Debug)]
pub enum TableChange {
    AddColumn(AddColumn),
    AlterColumn(AlterColumn),
    DropColumn(DropColumn),
    DropAndRecreateColumn { column_index: Pair<usize>, changes: ColumnChanges },
    DropPrimaryKey,
    AddPrimaryKey { columns: Vec<String> },
}

/// The changes to one table, in order.
#[derive(Debug)]
pub struct AlterTable {
    pub table_index: Pair<usize>,
    pub changes: Vec<TableChange>,
}

/// The mathematical value of a [`TableChange`].
pub enum TableChangeView {
    AddColumn(nat),
    AlterColumn { previous: nat, next: nat, changes: ColumnChanges },
    DropColumn(nat),
    DropAndRecreateColumn { previous: nat, next: nat, changes: ColumnChanges },
    DropPrimaryKey,
    AddPrimaryKey(Seq<Seq<char>>),
}

impl View for TableChange {
    type V = TableChangeView;

    open spec fn view(&self) -> TableChangeView {
        match self {
            TableChange::AddColumn(add) => TableChangeView::AddColumn(add.column_index as nat),
            TableChange::AlterColumn(alter) => TableChangeView::AlterColumn {
                previous: alter.column_index.previous as nat,
                next: alter.column_index.next as nat,
                changes: alter.changes,
            },
            TableChange::DropColumn(drop) => TableChangeView::DropColumn(drop.index as nat),
            TableChange::DropAndRecreateColumn { column_index, changes } =>
                TableChangeView::DropAndRecreateColumn {
                previous: column_index.previous as nat,
                next: column_index.next as nat,
                changes: *changes,
            },
            TableChange::DropPrimaryKey => TableChangeView::DropPrimaryKey,
            TableChange::AddPrimaryKey { columns } => TableChangeView::AddPrimaryKey(
                columns@.map_values(|c: String| c@),
            ),
        }
    }
}

/// The views of a list of changes.
pub open spec fn changes_view(changes: Seq<TableChange>) -> Seq<TableChangeView> {
    changes.map_values(|c: TableChange| c@)
}

} // verus!
