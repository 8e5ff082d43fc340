//! Compares the two sides of a migration: which parts of a column changed,
//! and which changes a table needs.

use crate::sql_schema::{
    AlterTable, ForeignKey, Index, SqlSchema, AddColumn, AlterColumn, Column, ColumnChanges, ColumnTypeFamily, DefaultKind,
    DefaultKindView, DefaultValue, DropColumn, Pair, PrismaValue, Table, TableChange,
    TableChangeView, changes_view, opt_default_view,
};
use crate::text::{clone_strings, str_eq, strings_view};
use vstd::prelude::*;
use vstd::string::*;

verus! {

/// Whether two families are the same, enums and unsupported types by name.
pub open spec fn same_family(a: ColumnTypeFamily, b: ColumnTypeFamily) -> bool {
    match (a, b) {
        (ColumnTypeFamily::Enum(x), ColumnTypeFamily::Enum(y)) => x@ == y@,
        (ColumnTypeFamily::Unsupported(x), ColumnTypeFamily::Unsupported(y)) => x@ == y@,
        (ColumnTypeFamily::Int, ColumnTypeFamily::Int) => true,
        (ColumnTypeFamily::BigInt, ColumnTypeFamily::BigInt) => true,
        (ColumnTypeFamily::Float, ColumnTypeFamily::Float) => true,
        (ColumnTypeFamily::Decimal, ColumnTypeFamily::Decimal) => true,
        (ColumnTypeFamily::Boolean, ColumnTypeFamily::Boolean) => true,
        (ColumnTypeFamily::String, ColumnTypeFamily::String) => true,
        (ColumnTypeFamily::DateTime, ColumnTypeFamily::DateTime) => true,
        (ColumnTypeFamily::Binary, ColumnTypeFamily::Binary) => true,
        (ColumnTypeFamily::Json, ColumnTypeFamily::Json) => true,
        (ColumnTypeFamily::Uuid, ColumnTypeFamily::Uuid) => true,
        _ => false,
    }
}

/// Whether the default changed. An expression of the database is only
/// known to be there: two of them never count as a change.
pub open spec fn defaults_differ(previous: Option<DefaultKindView>, next: Option<DefaultKindView>) -> bool {
    match (previous, next) {
        (None, None) => false,
        (Some(DefaultKindView::DbGenerated(_)), Some(DefaultKindView::DbGenerated(_))) => false,
        (Some(p), Some(n)) => p != n,
        _ => true,
    }
}

pub open spec fn is_sequence(d: Option<DefaultKindView>) -> bool {
    d matches Some(DefaultKindView::Sequence(_))
}

/// What differs between the two sides of a column that kept its name.
pub open spec fn column_changes_spec(previous: Column, next: Column) -> ColumnChanges {
    ColumnChanges {
        type_change: previous.tpe.full_data_type@ != next.tpe.full_data_type@ || !same_family(
            previous.tpe.family,
            next.tpe.family,
        ),
        default_change: defaults_differ(
            opt_default_view(previous.default),
            opt_default_view(next.default),
        ),
        arity_change: previous.arity != next.arity,
        rename: previous.name@ != next.name@,
        autoincrement_change: previous.auto_increment != next.auto_increment,
        sequence_change: is_sequence(opt_default_view(previous.default)) != is_sequence(
            opt_default_view(next.default),
        ),
    }
}

/// Whether any part of the column changed.
pub open spec fn any_change(c: ColumnChanges) -> bool {
    c.type_change || c.default_change || c.arity_change || c.rename || c.autoincrement_change
        || c.sequence_change
}

/// When the two sides of a column differ in their default and in nothing
/// else, the descriptor reports that only the default changed.
pub proof fn lemma_only_default_changed(previous: Column, next: Column)
    requires
        previous.name@ == next.name@,
        previous.tpe.full_data_type@ == next.tpe.full_data_type@,
        same_family(previous.tpe.family, next.tpe.family),
        previous.arity == next.arity,
        previous.auto_increment == next.auto_increment,
        is_sequence(opt_default_view(previous.default)) == is_sequence(opt_default_view(next.default)),
        defaults_differ(opt_default_view(previous.default), opt_default_view(next.default)),
    ensures
        column_changes_spec(previous, next).spec_only_default_changed(),
{
}

fn same_family_exec(a: &ColumnTypeFamily, b: &ColumnTypeFamily) -> (r: bool)
    ensures
        r == same_family(*a, *b),
{
    match (a, b) {
        (ColumnTypeFamily::Enum(x), ColumnTypeFamily::Enum(y)) => str_eq(x.as_str(), y.as_str()),
        (ColumnTypeFamily::Unsupported(x), ColumnTypeFamily::Unsupported(y)) => str_eq(
            x.as_str(),
            y.as_str(),
        ),
        (ColumnTypeFamily::Int, ColumnTypeFamily::Int) => true,
        (ColumnTypeFamily::BigInt, ColumnTypeFamily::BigInt) => true,
        (ColumnTypeFamily::Float, ColumnTypeFamily::Float) => true,
        (ColumnTypeFamily::Decimal, ColumnTypeFamily::Decimal) => true,
        (ColumnTypeFamily::Boolean, ColumnTypeFamily::Boolean) => true,
        (ColumnTypeFamily::String, ColumnTypeFamily::String) => true,
        (ColumnTypeFamily::DateTime, ColumnTypeFamily::DateTime) => true,
        (ColumnTypeFamily::Binary, ColumnTypeFamily::Binary) => true,
        (ColumnTypeFamily::Json, ColumnTypeFamily::Json) => true,
        (ColumnTypeFamily::Uuid, ColumnTypeFamily::Uuid) => true,
        _ => false,
    }
}

fn same_value(a: &PrismaValue, b: &PrismaValue) -> (r: bool)
    ensures
        r == (a@ == b@),
{
    match (a, b) {
        (PrismaValue::String(x), PrismaValue::String(y)) => str_eq(x.as_str(), y.as_str()),
        (PrismaValue::Boolean(x), PrismaValue::Boolean(y)) => *x == *y,
        (PrismaValue::Enum(x), PrismaValue::Enum(y)) => str_eq(x.as_str(), y.as_str()),
        (PrismaValue::Int(x), PrismaValue::Int(y)) => *x == *y,
        (PrismaValue::Json(x), PrismaValue::Json(y)) => str_eq(x.as_str(), y.as_str()),
        (PrismaValue::Null, PrismaValue::Null) => true,
        _ => false,
    }
}

fn same_default(a: &DefaultValue, b: &DefaultValue) -> (r: bool)
    ensures
        r == (a@ == b@),
{
    match (&a.kind, &b.kind) {
        (DefaultKind::DbGenerated(x), DefaultKind::DbGenerated(y)) => str_eq(x.as_str(), y.as_str()),
        (DefaultKind::Value(x), DefaultKind::Value(y)) => same_value(x, y),
        (DefaultKind::Now, DefaultKind::Now) => true,
        (DefaultKind::Sequence(x), DefaultKind::Sequence(y)) => str_eq(x.as_str(), y.as_str()),
        _ => false,
    }
}

fn default_is_sequence(d: &Option<DefaultValue>) -> (r: bool)
    ensures
        r == is_sequence(opt_default_view(*d)),
{
    match d {
        Some(v) => match &v.kind {
            DefaultKind::Sequence(_) => true,
            _ => false,
        },
        None => false,
    }
}

fn defaults_differ_exec(previous: &Option<DefaultValue>, next: &Option<DefaultValue>) -> (r: bool)
    ensures
        r == defaults_differ(opt_default_view(*previous), opt_default_view(*next)),
{
    match (previous, next) {
        (None, None) => false,
        (Some(p), Some(n)) => match (&p.kind, &n.kind) {
            (DefaultKind::DbGenerated(_), DefaultKind::DbGenerated(_)) => false,
            _ => !same_default(p, n),
        },
        _ => true,
    }
}

/// Compares the two sides of a column.
pub fn column_changes(columns: Pair<&Column>) -> (r: ColumnChanges)
    ensures
        r == column_changes_spec(*columns.previous, *columns.next),
{
    let previous = columns.previous;
    let next = columns.next;
    ColumnChanges {
        type_change: !str_eq(
            previous.tpe.full_data_type.as_str(),
            next.tpe.full_data_type.as_str(),
        ) || !same_family_exec(&previous.tpe.family, &next.tpe.family),
        default_change: defaults_differ_exec(&previous.default, &next.default),
        arity_change: previous.arity != next.arity,
        rename: !str_eq(previous.name.as_str(), next.name.as_str()),
        autoincrement_change: previous.auto_increment != next.auto_increment,
        sequence_change: default_is_sequence(&previous.default) != default_is_sequence(
            &next.default,
        ),
    }
}

/// The position of the first column named `name`, from position `i` on.
pub open spec fn column_position_from(columns: Seq<Column>, name: Seq<char>, i: int) -> Option<nat>
    decreases columns.len() - i,
{
    if i < 0 || i >= columns.len() {
        None
    } else if columns[i].name@ == name {
        Some(i as nat)
    } else {
        column_position_from(columns, name, i + 1)
    }
}

pub open spec fn column_position(columns: Seq<Column>, name: Seq<char>) -> Option<nat> {
    column_position_from(columns, name, 0)
}

proof fn lemma_column_position(columns: Seq<Column>, name: Seq<char>, i: int)
    ensures
        column_position_from(columns, name, i) matches Some(p) ==> i <= p < columns.len()
            && columns[p as int].name@ == name,
    decreases columns.len() - i,
{
    if 0 <= i < columns.len() && columns[i].name@ != name {
        lemma_column_position(columns, name, i + 1);
    }
}

/// The drops of the first `k` previous columns that the next table lacks.
pub open spec fn drops_upto(previous: Table, next: Table, k: int) -> Seq<TableChangeView>
    decreases k,
{
    if k <= 0 {
        Seq::empty()
    } else {
        drops_upto(previous, next, k - 1) + if column_position(
            next.columns@,
            previous.columns@[k - 1].name@,
        ) is None {
            seq![TableChangeView::DropColumn((k - 1) as nat)]
        } else {
            Seq::empty()
        }
    }
}

/// The additions of the first `k` next columns that the previous table lacks.
pub open spec fn adds_upto(previous: Table, next: Table, k: int) -> Seq<TableChangeView>
    decreases k,
{
    if k <= 0 {
        Seq::empty()
    } else {
        adds_upto(previous, next, k - 1) + if column_position(
            previous.columns@,
            next.columns@[k - 1].name@,
        ) is None {
            seq![TableChangeView::AddColumn((k - 1) as nat)]
        } else {
            Seq::empty()
        }
    }
}

/// The change of the first `k` next columns, where the previous column of
/// the same name differs.
pub open spec fn alter_at(previous: Table, next: Table, k: int) -> Seq<TableChangeView> {
    match column_position(previous.columns@, next.columns@[k].name@) {
        Some(p) => {
            let c = column_changes_spec(previous.columns@[p as int], next.columns@[k]);
            if any_change(c) {
                seq![TableChangeView::AlterColumn { previous: p, next: k as nat, changes: c }]
            } else {
                Seq::empty()
            }
        },
        None => Seq::empty(),
    }
}

pub open spec fn alters_upto(previous: Table, next: Table, k: int) -> Seq<TableChangeView>
    decreases k,
{
    if k <= 0 {
        Seq::empty()
    } else {
        alters_upto(previous, next, k - 1) + alter_at(previous, next, k - 1)
    }
}

/// The columns of the table's primary key; none without one.
pub open spec fn key_columns(table: Table) -> Seq<Seq<char>> {
    match table.primary_key {
        Some(pk) => strings_view(pk.columns@),
        None => Seq::empty(),
    }
}

/// The changes that turn the previous table into the next one: a changed
/// primary key is dropped first and added last, and in between come the
/// dropped columns, the added ones and the altered ones, each in table order.
pub open spec fn table_changes_spec(previous: Table, next: Table) -> Seq<TableChangeView> {
    let key_changed = key_columns(previous) != key_columns(next);
    (if key_changed && key_columns(previous).len() > 0 {
        seq![TableChangeView::DropPrimaryKey]
    } else {
        Seq::empty()
    }) + drops_upto(previous, next, previous.columns@.len() as int) + adds_upto(
        previous,
        next,
        next.columns@.len() as int,
    ) + alters_upto(previous, next, next.columns@.len() as int) + (if key_changed && key_columns(
        next,
    ).len() > 0 {
        seq![TableChangeView::AddPrimaryKey(key_columns(next))]
    } else {
        Seq::empty()
    })
}

/// The position of the first column named `name`.
pub fn find_column(columns: &Vec<Column>, name: &str) -> (r: Option<usize>)
    ensures
        match r {
            Some(i) => column_position(columns@, name@) == Some(i as nat),
            None => column_position(columns@, name@) is None,
        },
{
    let mut i: usize = 0;
    while i < columns.len()
        invariant
            i <= columns.len(),
            column_position(columns@, name@) == column_position_from(columns@, name@, i as int),
        decreases columns.len() - i,
    {
        if str_eq(columns[i].name.as_str(), name) {
            return Some(i);
        }
        i = i + 1;
    }
    None
}

fn strings_equal(a: &Vec<String>, b: &Vec<String>) -> (r: bool)
    ensures
        r == (strings_view(a@) == strings_view(b@)),
{
    if a.len() != b.len() {
        assert(strings_view(a@).len() != strings_view(b@).len());
        return false;
    }
    let mut i: usize = 0;
    while i < a.len()
        invariant
            a.len() == b.len(),
            i <= a.len(),
            forall|j: int| 0 <= j < i ==> a@[j]@ == b@[j]@,
        decreases a.len() - i,
    {
        if !str_eq(a[i].as_str(), b[i].as_str()) {
            assert(strings_view(a@)[i as int] != strings_view(b@)[i as int]);
            return false;
        }
        i = i + 1;
    }
    assert(strings_view(a@) =~= strings_view(b@));
    true
}

fn key_column_names(table: &Table) -> (r: Vec<String>)
    ensures
        strings_view(r@) == key_columns(*table),
{
    match &table.primary_key {
        Some(pk) => clone_strings(&pk.columns),
        None => {
            let r: Vec<String> = Vec::new();
            assert(strings_view(r@) =~= Seq::<Seq<char>>::empty());
            r
        },
    }
}

fn push_change(changes: &mut Vec<TableChange>, change: TableChange)
    ensures
        changes_view(final(changes)@) == changes_view(old(changes)@).push(change@),
{
    let ghost before = changes@;
    let ghost v = change@;
    changes.push(change);
    assert(changes_view(changes@) =~= changes_view(before).push(v));
}

/// The changes that turn the previous table into the next one, matching
/// columns by name.
pub fn diff_table(tables: Pair<&Table>) -> (r: Vec<TableChange>)
    ensures
        changes_view(r@) == table_changes_spec(*tables.previous, *tables.next),
{
    let previous = tables.previous;
    let next = tables.next;
    let previous_key = key_column_names(previous);
    let next_key = key_column_names(next);
    let key_changed = !strings_equal(&previous_key, &next_key);
    let mut changes: Vec<TableChange> = Vec::new();
    if key_changed && previous_key.len() > 0 {
        push_change(&mut changes, TableChange::DropPrimaryKey);
    }
    let ghost head = changes_view(changes@);
    assert(head =~= (if key_columns(*previous) != key_columns(*next) && key_columns(
        *previous,
    ).len() > 0 {
        seq![TableChangeView::DropPrimaryKey]
    } else {
        Seq::empty()
    }));
    let mut i: usize = 0;
    while i < previous.columns.len()
        invariant
            i <= previous.columns.len(),
            changes_view(changes@) == head + drops_upto(*previous, *next, i as int),
        decreases previous.columns.len() - i,
    {
        if find_column(&next.columns, previous.columns[i].name.as_str()).is_none() {
            push_change(&mut changes, TableChange::DropColumn(DropColumn { index: i }));
        }
        assert(changes_view(changes@) =~= head + drops_upto(*previous, *next, i + 1));
        i = i + 1;
    }
    let ghost head = changes_view(changes@);
    let mut k: usize = 0;
    while k < next.columns.len()
        invariant
            k <= next.columns.len(),
            changes_view(changes@) == head + adds_upto(*previous, *next, k as int),
        decreases next.columns.len() - k,
    {
        if find_column(&previous.columns, next.columns[k].name.as_str()).is_none() {
            push_change(&mut changes, TableChange::AddColumn(AddColumn { column_index: k }));
        }
        assert(changes_view(changes@) =~= head + adds_upto(*previous, *next, k + 1));
        k = k + 1;
    }
    let ghost head = changes_view(changes@);
    let mut k: usize = 0;
    while k < next.columns.len()
        invariant
            k <= next.columns.len(),
            changes_view(changes@) == head + alters_upto(*previous, *next, k as int),
        decreases next.columns.len() - k,
    {
        let column = &next.columns[k];
        match find_column(&previous.columns, column.name.as_str()) {
            Some(p) => {
                proof {
                    lemma_column_position(previous.columns@, column.name@, 0);
                }
                let c = column_changes(Pair { previous: &previous.columns[p], next: column });
                if c.type_change || c.default_change || c.arity_change || c.rename
                    || c.autoincrement_change || c.sequence_change {
                    push_change(
                        &mut changes,
                        TableChange::AlterColumn(
                            AlterColumn {
                                column_index: Pair { previous: p, next: k },
                                changes: c,
                                type_change: None,
                            },
                        ),
                    );
                }
            },
            None => {},
        }
        assert(changes_view(changes@) =~= head + alters_upto(*previous, *next, k + 1));
        k = k + 1;
    }
    let ghost head = changes_view(changes@);
    if key_changed && next_key.len() > 0 {
        let ghost v = strings_view(next_key@);
        let add = TableChange::AddPrimaryKey { columns: next_key };
        assert(add@ == TableChangeView::AddPrimaryKey(v));
        push_change(&mut changes, add);
    }
    assert(changes_view(changes@) =~= table_changes_spec(*previous, *next));
    changes
}

/// One step of a migration.
#[derive(Debug)]
pub enum SqlMigrationStep {
    /// Creates the table at this position of the next schema.
    CreateTable { table_index: usize },
    /// Drops the table at this position of the previous schema.
    DropTable { table_index: usize },
    /// Changes a table that both schemas hold.
    AlterTable(AlterTable),
    /// Creates an index of a table of the next schema.
    CreateIndex { table_index: usize, index_index: usize },
    /// Drops an index of a table of the previous schema.
    DropIndex { table_index: usize, index_index: usize },
    /// Renames an index in place.
    RenameIndex { table_index: Pair<usize>, index_index: Pair<usize> },
    /// Replaces an index by one of another name, where the database cannot
    /// rename it in place.
    DropAndRecreateIndex { table_index: Pair<usize>, index_index: Pair<usize> },
    /// Adds a foreign key of a table of the next schema.
    AddForeignKey { table_index: usize, foreign_key_index: usize },
    /// Drops a foreign key of a table of the previous schema.
    DropForeignKey { table_index: usize, foreign_key_index: usize },
}

/// The mathematical value of a [`SqlMigrationStep`].
pub enum StepView {
    CreateTable(nat),
    DropTable(nat),
    AlterTable { previous: nat, next: nat, changes: Seq<TableChangeView> },
    CreateIndex { table: nat, index: nat },
    DropIndex { table: nat, index: nat },
    RenameIndex { previous_table: nat, next_table: nat, previous: nat, next: nat },
    DropAndRecreateIndex { previous_table: nat, next_table: nat, previous: nat, next: nat },
    AddForeignKey { table: nat, foreign_key: nat },
    DropForeignKey { table: nat, foreign_key: nat },
}

impl View for SqlMigrationStep {
    type V = StepView;

    open spec fn view(&self) -> StepView {
        match self {
            SqlMigrationStep::CreateTable { table_index } => StepView::CreateTable(*table_index as nat),
            SqlMigrationStep::DropTable { table_index } => StepView::DropTable(*table_index as nat),
            SqlMigrationStep::AlterTable(alter) => StepView::AlterTable {
                previous: alter.table_index.previous as nat,
                next: alter.table_index.next as nat,
                changes: changes_view(alter.changes@),
            },
            SqlMigrationStep::CreateIndex { table_index, index_index } => StepView::CreateIndex {
                table: *table_index as nat,
                index: *index_index as nat,
            },
            SqlMigrationStep::DropIndex { table_index, index_index } => StepView::DropIndex {
                table: *table_index as nat,
                index: *index_index as nat,
            },
            SqlMigrationStep::RenameIndex { table_index, index_index } => StepView::RenameIndex {
                previous_table: table_index.previous as nat,
                next_table: table_index.next as nat,
                previous: index_index.previous as nat,
                next: index_index.next as nat,
            },
            SqlMigrationStep::DropAndRecreateIndex { table_index, index_index } =>
                StepView::DropAndRecreateIndex {
                previous_table: table_index.previous as nat,
                next_table: table_index.next as nat,
                previous: index_index.previous as nat,
                next: index_index.next as nat,
            },
            SqlMigrationStep::AddForeignKey { table_index, foreign_key_index } =>
                StepView::AddForeignKey {
                table: *table_index as nat,
                foreign_key: *foreign_key_index as nat,
            },
            SqlMigrationStep::DropForeignKey { table_index, foreign_key_index } =>
                StepView::DropForeignKey {
                table: *table_index as nat,
                foreign_key: *foreign_key_index as nat,
            },
        }
    }
}

pub open spec fn steps_view(steps: Seq<SqlMigrationStep>) -> Seq<StepView> {
    steps.map_values(|s: SqlMigrationStep| s@)
}

/// The position of the first table named `name`, from position `i` on.
pub open spec fn table_position_from(tables: Seq<Table>, name: Seq<char>, i: int) -> Option<nat>
    decreases tables.len() - i,
{
    if i < 0 || i >= tables.len() {
        None
    } else if tables[i].name@ == name {
        Some(i as nat)
    } else {
        table_position_from(tables, name, i + 1)
    }
}

pub open spec fn table_position(tables: Seq<Table>, name: Seq<char>) -> Option<nat> {
    table_position_from(tables, name, 0)
}

/// The position of the first index named `name`, from position `i` on.
pub open spec fn index_position_from(indices: Seq<Index>, name: Seq<char>, i: int) -> Option<nat>
    decreases indices.len() - i,
{
    if i < 0 || i >= indices.len() {
        None
    } else if indices[i].name@ == name {
        Some(i as nat)
    } else {
        index_position_from(indices, name, i + 1)
    }
}

/// Two indexes with the same kind over the same columns.
pub open spec fn same_index(a: Index, b: Index) -> bool {
    a.tpe == b.tpe && strings_view(a.columns@) == strings_view(b.columns@)
}

/// The index at position `k` of `from` has its match in `to`: an index of
/// the same name and the same definition.
pub open spec fn index_kept(from: Table, to: Table, k: int) -> bool {
    match index_position_from(to.indices@, from.indices@[k].name@, 0) {
        Some(j) => same_index(from.indices@[k], to.indices@[j as int]),
        None => false,
    }
}

/// The index at position `i` of the previous table may have become the
/// index at position `j` of the next one by a rename: neither name is on the
/// other side, and both have one definition.
pub open spec fn rename_candidate(previous: Table, next: Table, i: int, j: int) -> bool {
    &&& index_position_from(next.indices@, previous.indices@[i].name@, 0) is None
    &&& index_position_from(previous.indices@, next.indices@[j].name@, 0) is None
    &&& same_index(previous.indices@[i], next.indices@[j])
}

/// The first previous index from position `i` on that the next index `j`
/// may have been renamed from, among those that no earlier next index took.
pub open spec fn partner_from(previous: Table, next: Table, j: int, taken: Seq<Option<nat>>, i: int) -> Option<
    nat,
>
    decreases previous.indices@.len() - i,
{
    if i < 0 || i >= previous.indices@.len() {
        None
    } else if rename_candidate(previous, next, i, j) && !taken.contains(Some(i as nat)) {
        Some(i as nat)
    } else {
        partner_from(previous, next, j, taken, i + 1)
    }
}

/// For each of the first `k` next indexes, the previous index it was
/// renamed from, if any.
pub open spec fn partners_upto(previous: Table, next: Table, k: int) -> Seq<Option<nat>>
    decreases k,
{
    if k <= 0 {
        Seq::empty()
    } else {
        let taken = partners_upto(previous, next, k - 1);
        taken.push(partner_from(previous, next, k - 1, taken, 0))
    }
}

pub open spec fn partners(previous: Table, next: Table) -> Seq<Option<nat>> {
    partners_upto(previous, next, next.indices@.len() as int)
}

/// The previous indexes among the first `k` that go: the next table keeps
/// them neither as they are nor under another name.
pub open spec fn dropped_upto(previous: Table, next: Table, k: int) -> Seq<nat>
    decreases k,
{
    if k <= 0 {
        Seq::empty()
    } else {
        dropped_upto(previous, next, k - 1) + if !index_kept(previous, next, k - 1) && !partners(
            previous,
            next,
        ).contains(Some((k - 1) as nat)) {
            seq![(k - 1) as nat]
        } else {
            Seq::empty()
        }
    }
}

/// The next indexes among the first `k` that are new: the previous table
/// has them neither as they are nor under another name.
pub open spec fn created_upto(previous: Table, next: Table, k: int) -> Seq<nat>
    decreases k,
{
    if k <= 0 {
        Seq::empty()
    } else {
        created_upto(previous, next, k - 1) + if !index_kept(next, previous, k - 1) && partners(
            previous,
            next,
        )[k - 1] is None {
            seq![(k - 1) as nat]
        } else {
            Seq::empty()
        }
    }
}

pub open spec fn dropped(previous: Table, next: Table) -> Seq<nat> {
    dropped_upto(previous, next, previous.indices@.len() as int)
}

pub open spec fn created(previous: Table, next: Table) -> Seq<nat> {
    created_upto(previous, next, next.indices@.len() as int)
}

/// The renames among the first `k` next indexes: in place where the
/// database can, else by creating the new index before dropping the old.
pub open spec fn renames_upto(
    previous: Table,
    next: Table,
    previous_table: nat,
    next_table: nat,
    in_place: bool,
    k: int,
) -> Seq<StepView>
    decreases k,
{
    if k <= 0 {
        Seq::empty()
    } else {
        renames_upto(previous, next, previous_table, next_table, in_place, k - 1) + match partners(previous, next)[k
            - 1] {
            Some(i) => seq![
                if in_place {
                    StepView::RenameIndex {
                        previous_table,
                        next_table,
                        previous: i,
                        next: (k - 1) as nat,
                    }
                } else {
                    StepView::DropAndRecreateIndex {
                        previous_table,
                        next_table,
                        previous: i,
                        next: (k - 1) as nat,
                    }
                },
            ],
            None => Seq::empty(),
        }
    }
}

/// A drop, or else a creation, of the index at position `i` of a table.
pub open spec fn index_step(drop: bool, table: nat, i: nat) -> StepView {
    if drop {
        StepView::DropIndex { table, index: i }
    } else {
        StepView::CreateIndex { table, index: i }
    }
}

/// The index steps for the indexes at the positions `positions`.
pub open spec fn index_steps(positions: Seq<nat>, drop: bool, table: nat) -> Seq<StepView> {
    positions.map_values(|i: nat| index_step(drop, table, i))
}

/// Over the first `k` previous tables: the drops of the indexes that a
/// table of the same name in the next schema does not keep.
pub open spec fn index_drops_upto(previous: SqlSchema, next: SqlSchema, k: int) -> Seq<StepView>
    decreases k,
{
    if k <= 0 {
        Seq::empty()
    } else {
        index_drops_upto(previous, next, k - 1) + match table_position(
            next.tables@,
            previous.tables@[k - 1].name@,
        ) {
            Some(n) => index_steps(
                dropped(previous.tables@[k - 1], next.tables@[n as int]),
                true,
                (k - 1) as nat,
            ),
            None => Seq::empty(),
        }
    }
}

/// The drops of the first `k` previous tables that the next schema lacks.
pub open spec fn table_drops_upto(previous: SqlSchema, next: SqlSchema, k: int) -> Seq<StepView>
    decreases k,
{
    if k <= 0 {
        Seq::empty()
    } else {
        table_drops_upto(previous, next, k - 1) + if table_position(
            next.tables@,
            previous.tables@[k - 1].name@,
        ) is None {
            seq![StepView::DropTable((k - 1) as nat)]
        } else {
            Seq::empty()
        }
    }
}

/// The creations of the first `k` next tables that the previous schema lacks.
pub open spec fn table_creates_upto(previous: SqlSchema, next: SqlSchema, k: int) -> Seq<StepView>
    decreases k,
{
    if k <= 0 {
        Seq::empty()
    } else {
        table_creates_upto(previous, next, k - 1) + if table_position(
            previous.tables@,
            next.tables@[k - 1].name@,
        ) is None {
            seq![StepView::CreateTable((k - 1) as nat)]
        } else {
            Seq::empty()
        }
    }
}

/// The changes of the first `k` next tables that the previous schema holds
/// too, where there is any.
pub open spec fn alters_of_tables_upto(previous: SqlSchema, next: SqlSchema, k: int) -> Seq<StepView>
    decreases k,
{
    if k <= 0 {
        Seq::empty()
    } else {
        alters_of_tables_upto(previous, next, k - 1) + match table_position(
            previous.tables@,
            next.tables@[k - 1].name@,
        ) {
            Some(p) => {
                let c = table_changes_spec(previous.tables@[p as int], next.tables@[k - 1]);
                if c.len() > 0 {
                    seq![StepView::AlterTable { previous: p, next: (k - 1) as nat, changes: c }]
                } else {
                    Seq::empty()
                }
            },
            None => Seq::empty(),
        }
    }
}

/// Over the first `k` next tables: the renames of indexes of the previous
/// table of the same name.
pub open spec fn index_renames_upto(previous: SqlSchema, next: SqlSchema, in_place: bool, k: int) -> Seq<
    StepView,
>
    decreases k,
{
    if k <= 0 {
        Seq::empty()
    } else {
        index_renames_upto(previous, next, in_place, k - 1) + match table_position(
            previous.tables@,
            next.tables@[k - 1].name@,
        ) {
            Some(p) => renames_upto(
                previous.tables@[p as int],
                next.tables@[k - 1],
                p,
                (k - 1) as nat,
                in_place,
                next.tables@[k - 1].indices@.len() as int,
            ),
            None => Seq::empty(),
        }
    }
}

/// Over the first `k` next tables: the creations of the indexes that the
/// previous table of the same name does not have.
pub open spec fn index_creates_upto(previous: SqlSchema, next: SqlSchema, k: int) -> Seq<StepView>
    decreases k,
{
    if k <= 0 {
        Seq::empty()
    } else {
        index_creates_upto(previous, next, k - 1) + match table_position(
            previous.tables@,
            next.tables@[k - 1].name@,
        ) {
            Some(p) => index_steps(
                created(previous.tables@[p as int], next.tables@[k - 1]),
                false,
                (k - 1) as nat,
            ),
            None => Seq::empty(),
        }
    }
}

/// Two foreign keys with the same columns, target and actions.
pub open spec fn same_foreign_key(a: ForeignKey, b: ForeignKey) -> bool {
    &&& strings_view(a.columns@) == strings_view(b.columns@)
    &&& a.referenced_table@ == b.referenced_table@
    &&& strings_view(a.referenced_columns@) == strings_view(b.referenced_columns@)
    &&& a.on_delete_action == b.on_delete_action
    &&& a.on_update_action == b.on_update_action
}

/// The foreign key at position `k` of `from` is in `to` too.
pub open spec fn foreign_key_kept(from: Table, to: Table, k: int) -> bool {
    exists|j: int|
        0 <= j < to.foreign_keys@.len() && same_foreign_key(
            from.foreign_keys@[k],
            #[trigger] to.foreign_keys@[j],
        )
}

/// The foreign keys among the first `k` of `from` that `to` lacks; all of
/// them when there is no `to`.
pub open spec fn foreign_keys_missing_upto(from: Table, to: Option<Table>, k: int) -> Seq<nat>
    decreases k,
{
    if k <= 0 {
        Seq::empty()
    } else {
        foreign_keys_missing_upto(from, to, k - 1) + if to matches Some(t) && foreign_key_kept(
            from,
            t,
            k - 1,
        ) {
            Seq::empty()
        } else {
            seq![(k - 1) as nat]
        }
    }
}

/// The table of `tables` named `name`, if any.
pub open spec fn table_named(tables: Seq<Table>, name: Seq<char>) -> Option<Table> {
    match table_position(tables, name) {
        Some(p) => Some(tables[p as int]),
        None => None,
    }
}

/// A drop, or else an addition, of the foreign key at position `i`.
pub open spec fn foreign_key_step(drop: bool, table: nat, i: nat) -> StepView {
    if drop {
        StepView::DropForeignKey { table, foreign_key: i }
    } else {
        StepView::AddForeignKey { table, foreign_key: i }
    }
}

pub open spec fn foreign_key_steps(positions: Seq<nat>, drop: bool, table: nat) -> Seq<StepView> {
    positions.map_values(|i: nat| foreign_key_step(drop, table, i))
}

/// Over the first `k` tables of `from`: the foreign keys that the table of
/// the same name in `to` lacks, as drops when `drop` holds, else additions.
pub open spec fn foreign_key_changes_upto(from: SqlSchema, to: SqlSchema, drop: bool, k: int) -> Seq<
    StepView,
>
    decreases k,
{
    if k <= 0 {
        Seq::empty()
    } else {
        let table = from.tables@[k - 1];
        foreign_key_changes_upto(from, to, drop, k - 1) + foreign_key_steps(
            foreign_keys_missing_upto(
                table,
                table_named(to.tables@, table.name@),
                table.foreign_keys@.len() as int,
            ),
            drop,
            (k - 1) as nat,
        )
    }
}

/// The steps from the previous schema to the next one, tables matched by
/// name: dropped foreign keys, dropped indexes, dropped tables, created
/// tables, altered tables, renamed indexes, created indexes, then added
/// foreign keys, so that nothing refers to what is not there. An index that
/// only changed its name is renamed in place when `in_place` holds, else
/// created anew before the old one is dropped.
pub open spec fn schema_steps_spec(previous: SqlSchema, next: SqlSchema, in_place: bool) -> Seq<StepView> {
    foreign_key_changes_upto(previous, next, true, previous.tables@.len() as int)
        + index_drops_upto(previous, next, previous.tables@.len() as int) + table_drops_upto(
        previous,
        next,
        previous.tables@.len() as int,
    ) + table_creates_upto(previous, next, next.tables@.len() as int) + alters_of_tables_upto(
        previous,
        next,
        next.tables@.len() as int,
    ) + index_renames_upto(previous, next, in_place, next.tables@.len() as int)
        + index_creates_upto(previous, next, next.tables@.len() as int)
        + foreign_key_changes_upto(next, previous, false, next.tables@.len() as int)
}

proof fn lemma_table_position(tables: Seq<Table>, name: Seq<char>, i: int)
    ensures
        table_position_from(tables, name, i) matches Some(p) ==> i <= p < tables.len()
            && tables[p as int].name@ == name,
    decreases tables.len() - i,
{
    if 0 <= i < tables.len() && tables[i].name@ != name {
        lemma_table_position(tables, name, i + 1);
    }
}

proof fn lemma_index_position(indices: Seq<Index>, name: Seq<char>, i: int)
    ensures
        index_position_from(indices, name, i) matches Some(p) ==> i <= p < indices.len()
            && indices[p as int].name@ == name,
    decreases indices.len() - i,
{
    if 0 <= i < indices.len() && indices[i].name@ != name {
        lemma_index_position(indices, name, i + 1);
    }
}

/// The position of the first table named `name`.
pub fn find_table(tables: &Vec<Table>, name: &str) -> (r: Option<usize>)
    ensures
        match r {
            Some(i) => table_position(tables@, name@) == Some(i as nat) && i < tables@.len(),
            None => table_position(tables@, name@) is None,
        },
{
    let mut i: usize = 0;
    while i < tables.len()
        invariant
            i <= tables.len(),
            table_position(tables@, name@) == table_position_from(tables@, name@, i as int),
        decreases tables.len() - i,
    {
        if str_eq(tables[i].name.as_str(), name) {
            return Some(i);
        }
        i = i + 1;
    }
    None
}

fn find_index(indices: &Vec<Index>, name: &str) -> (r: Option<usize>)
    ensures
        match r {
            Some(i) => index_position_from(indices@, name@, 0) == Some(i as nat) && i
                < indices@.len(),
            None => index_position_from(indices@, name@, 0) is None,
        },
{
    let mut i: usize = 0;
    while i < indices.len()
        invariant
            i <= indices.len(),
            index_position_from(indices@, name@, 0) == index_position_from(
                indices@,
                name@,
                i as int,
            ),
        decreases indices.len() - i,
    {
        if str_eq(indices[i].name.as_str(), name) {
            return Some(i);
        }
        i = i + 1;
    }
    None
}

/// Whether `to` keeps the index at position `k` of `from`.
fn is_index_kept(from: &Table, to: &Table, k: usize) -> (r: bool)
    requires
        k < from.indices@.len(),
    ensures
        r == index_kept(*from, *to, k as int),
{
    let index = &from.indices[k];
    match find_index(&to.indices, index.name.as_str()) {
        Some(j) => {
            let other = &to.indices[j];
            index.tpe == other.tpe && strings_equal(&index.columns, &other.columns)
        },
        None => false,
    }
}

fn push_step(steps: &mut Vec<SqlMigrationStep>, step: SqlMigrationStep)
    ensures
        steps_view(final(steps)@) == steps_view(old(steps)@).push(step@),
{
    let ghost before = steps@;
    let ghost v = step@;
    steps.push(step);
    assert(steps_view(steps@) =~= steps_view(before).push(v));
}

/// The views of a list of optional positions.
pub open spec fn positions_view(v: Seq<Option<usize>>) -> Seq<Option<nat>> {
    v.map_values(
        |o: Option<usize>|
            match o {
                Some(i) => Some(i as nat),
                None => None,
            },
    )
}

fn is_taken(taken: &Vec<Option<usize>>, i: usize) -> (r: bool)
    ensures
        r == positions_view(taken@).contains(Some(i as nat)),
{
    let mut k: usize = 0;
    while k < taken.len()
        invariant
            k <= taken.len(),
            forall|j: int| 0 <= j < k ==> positions_view(taken@)[j] != Some(i as nat),
        decreases taken.len() - k,
    {
        if let Some(t) = taken[k] {
            if t == i {
                assert(positions_view(taken@)[k as int] == Some(i as nat));
                return true;
            }
        }
        k = k + 1;
    }
    false
}

fn is_rename_candidate(previous: &Table, next: &Table, i: usize, j: usize) -> (r: bool)
    requires
        i < previous.indices@.len(),
        j < next.indices@.len(),
    ensures
        r == rename_candidate(*previous, *next, i as int, j as int),
{
    let old_index = &previous.indices[i];
    let new_index = &next.indices[j];
    find_index(&next.indices, old_index.name.as_str()).is_none() && find_index(
        &previous.indices,
        new_index.name.as_str(),
    ).is_none() && old_index.tpe == new_index.tpe && strings_equal(
        &old_index.columns,
        &new_index.columns,
    )
}

/// For each next index, the previous index it was renamed from, if any.
pub fn index_partners(previous: &Table, next: &Table) -> (r: Vec<Option<usize>>)
    ensures
        positions_view(r@) == partners(*previous, *next),
{
    let mut taken: Vec<Option<usize>> = Vec::new();
    let mut j: usize = 0;
    while j < next.indices.len()
        invariant
            j <= next.indices.len(),
            positions_view(taken@) == partners_upto(*previous, *next, j as int),
        decreases next.indices.len() - j,
    {
        let ghost t = positions_view(taken@);
        let mut found: Option<usize> = None;
        let mut i: usize = 0;
        while i < previous.indices.len()
            invariant
                j < next.indices.len(),
                i <= previous.indices.len(),
                t == positions_view(taken@),
                found is None ==> partner_from(*previous, *next, j as int, t, 0) == partner_from(
                    *previous,
                    *next,
                    j as int,
                    t,
                    i as int,
                ),
                found matches Some(f) ==> partner_from(*previous, *next, j as int, t, 0) == Some(
                    f as nat,
                ),
            decreases previous.indices.len() - i,
        {
            if found.is_none() && is_rename_candidate(previous, next, i, j) && !is_taken(&taken, i) {
                found = Some(i);
            }
            i = i + 1;
        }
        let ghost chosen = match found {
            Some(f) => Some(f as nat),
            None => None,
        };
        assert(chosen == partner_from(*previous, *next, j as int, t, 0));
        taken.push(found);
        assert(positions_view(taken@) =~= t.push(chosen));
        j = j + 1;
    }
    taken
}

/// The drops of the previous indexes that go, on the table at
/// `table_index`.
fn push_dropped_indexes(
    steps: &mut Vec<SqlMigrationStep>,
    previous: &Table,
    next: &Table,
    taken: &Vec<Option<usize>>,
    table_index: usize,
)
    requires
        positions_view(taken@) == partners(*previous, *next),
    ensures
        steps_view(final(steps)@) == steps_view(old(steps)@) + index_steps(
            dropped(*previous, *next),
            true,
            table_index as nat,
        ),
{
    let ghost head = steps_view(steps@);
    let mut k: usize = 0;
    while k < previous.indices.len()
        invariant
            k <= previous.indices.len(),
            positions_view(taken@) == partners(*previous, *next),
            steps_view(steps@) == head + index_steps(
                dropped_upto(*previous, *next, k as int),
                true,
                table_index as nat,
            ),
        decreases previous.indices.len() - k,
    {
        let goes = !is_index_kept(previous, next, k) && !is_taken(taken, k);
        if goes {
            push_step(steps, SqlMigrationStep::DropIndex { table_index, index_index: k });
        }
        proof {
            let prefix = dropped_upto(*previous, *next, k as int);
            if goes {
                assert(dropped_upto(*previous, *next, k + 1) =~= prefix.push(k as nat));
                assert(index_steps(prefix.push(k as nat), true, table_index as nat) =~= index_steps(
                    prefix,
                    true,
                    table_index as nat,
                ).push(index_step(true, table_index as nat, k as nat)));
            } else {
                assert(dropped_upto(*previous, *next, k + 1) =~= prefix);
            }
        }
        k = k + 1;
    }
}

/// The creations of the next indexes that are new, on the table at
/// `table_index`.
fn push_created_indexes(
    steps: &mut Vec<SqlMigrationStep>,
    previous: &Table,
    next: &Table,
    taken: &Vec<Option<usize>>,
    table_index: usize,
)
    requires
        positions_view(taken@) == partners(*previous, *next),
    ensures
        steps_view(final(steps)@) == steps_view(old(steps)@) + index_steps(
            created(*previous, *next),
            false,
            table_index as nat,
        ),
{
    let ghost head = steps_view(steps@);
    proof {
        lemma_partners_len(*previous, *next, next.indices@.len() as int);
    }
    let mut k: usize = 0;
    while k < next.indices.len()
        invariant
            k <= next.indices.len(),
            taken@.len() == next.indices@.len(),
            positions_view(taken@) == partners(*previous, *next),
            steps_view(steps@) == head + index_steps(
                created_upto(*previous, *next, k as int),
                false,
                table_index as nat,
            ),
        decreases next.indices.len() - k,
    {
        let is_new = !is_index_kept(next, previous, k) && taken[k].is_none();
        assert(taken[k as int].is_none() == (positions_view(taken@)[k as int] is None));
        if is_new {
            push_step(steps, SqlMigrationStep::CreateIndex { table_index, index_index: k });
        }
        proof {
            let prefix = created_upto(*previous, *next, k as int);
            if is_new {
                assert(created_upto(*previous, *next, k + 1) =~= prefix.push(k as nat));
                assert(index_steps(prefix.push(k as nat), false, table_index as nat) =~= index_steps(
                    prefix,
                    false,
                    table_index as nat,
                ).push(index_step(false, table_index as nat, k as nat)));
            } else {
                assert(created_upto(*previous, *next, k + 1) =~= prefix);
            }
        }
        k = k + 1;
    }
}

proof fn lemma_partners_len(previous: Table, next: Table, k: int)
    requires
        k >= 0,
    ensures
        partners_upto(previous, next, k).len() == k,
    decreases k,
{
    if k > 0 {
        lemma_partners_len(previous, next, k - 1);
    }
}

/// The renames of the indexes of the next table at `next_table` from the
/// previous table at `previous_table`.
fn push_renamed_indexes(
    steps: &mut Vec<SqlMigrationStep>,
    previous: &Table,
    next: &Table,
    taken: &Vec<Option<usize>>,
    previous_table: usize,
    next_table: usize,
    in_place: bool,
)
    requires
        positions_view(taken@) == partners(*previous, *next),
    ensures
        steps_view(final(steps)@) == steps_view(old(steps)@) + renames_upto(
            *previous,
            *next,
            previous_table as nat,
            next_table as nat,
            in_place,
            next.indices@.len() as int,
        ),
{
    let ghost head = steps_view(steps@);
    proof {
        lemma_partners_len(*previous, *next, next.indices@.len() as int);
    }
    let mut k: usize = 0;
    while k < taken.len()
        invariant
            k <= taken.len(),
            taken@.len() == next.indices@.len(),
            positions_view(taken@) == partners(*previous, *next),
            steps_view(steps@) == head + renames_upto(
                *previous,
                *next,
                previous_table as nat,
                next_table as nat,
                in_place,
                k as int,
            ),
        decreases taken.len() - k,
    {
        assert(positions_view(taken@)[k as int] == match taken@[k as int] {
            Some(i) => Some(i as nat),
            None => None::<nat>,
        });
        match taken[k] {
            Some(i) => {
                let table_index = Pair { previous: previous_table, next: next_table };
                let index_index = Pair { previous: i, next: k };
                if in_place {
                    push_step(steps, SqlMigrationStep::RenameIndex { table_index, index_index });
                } else {
                    push_step(steps, SqlMigrationStep::DropAndRecreateIndex { table_index, index_index });
                }
            },
            None => {},
        }
        assert(steps_view(steps@) =~= head + renames_upto(
            *previous,
            *next,
            previous_table as nat,
            next_table as nat,
            in_place,
            k + 1,
        ));
        k = k + 1;
    }
}

fn same_foreign_key_exec(a: &ForeignKey, b: &ForeignKey) -> (r: bool)
    ensures
        r == same_foreign_key(*a, *b),
{
    strings_equal(&a.columns, &b.columns) && str_eq(
        a.referenced_table.as_str(),
        b.referenced_table.as_str(),
    ) && strings_equal(&a.referenced_columns, &b.referenced_columns) && a.on_delete_action
        == b.on_delete_action && a.on_update_action == b.on_update_action
}

fn is_foreign_key_kept(from: &Table, to: &Table, k: usize) -> (r: bool)
    requires
        k < from.foreign_keys@.len(),
    ensures
        r == foreign_key_kept(*from, *to, k as int),
{
    let mut j: usize = 0;
    while j < to.foreign_keys.len()
        invariant
            k < from.foreign_keys@.len(),
            j <= to.foreign_keys.len(),
            forall|i: int|
                0 <= i < j ==> !same_foreign_key(from.foreign_keys@[k as int], #[trigger] to.foreign_keys@[i]),
        decreases to.foreign_keys.len() - j,
    {
        if same_foreign_key_exec(&from.foreign_keys[k], &to.foreign_keys[j]) {
            return true;
        }
        j = j + 1;
    }
    false
}

/// The foreign keys of `from` that `to` lacks, all of them without `to`,
/// as drops when `drop` holds, else additions, on the table at
/// `table_index`.
fn push_missing_foreign_keys(
    steps: &mut Vec<SqlMigrationStep>,
    from: &Table,
    to: Option<&Table>,
    table_index: usize,
    drop: bool,
)
    ensures
        steps_view(final(steps)@) == steps_view(old(steps)@) + foreign_key_steps(
            foreign_keys_missing_upto(
                *from,
                match to {
                    Some(t) => Some(*t),
                    None => None,
                },
                from.foreign_keys@.len() as int,
            ),
            drop,
            table_index as nat,
        ),
{
    let ghost head = steps_view(steps@);
    let ghost other = match to {
        Some(t) => Some(*t),
        None => None,
    };
    let mut k: usize = 0;
    while k < from.foreign_keys.len()
        invariant
            k <= from.foreign_keys.len(),
            other == match to {
                Some(t) => Some(*t),
                None => None::<Table>,
            },
            steps_view(steps@) == head + foreign_key_steps(
                foreign_keys_missing_upto(*from, other, k as int),
                drop,
                table_index as nat,
            ),
        decreases from.foreign_keys.len() - k,
    {
        let missing = match to {
            Some(t) => !is_foreign_key_kept(from, t, k),
            None => true,
        };
        if missing {
            if drop {
                push_step(steps, SqlMigrationStep::DropForeignKey { table_index, foreign_key_index: k });
            } else {
                push_step(steps, SqlMigrationStep::AddForeignKey { table_index, foreign_key_index: k });
            }
        }
        proof {
            let prefix = foreign_keys_missing_upto(*from, other, k as int);
            if missing {
                assert(foreign_keys_missing_upto(*from, other, k + 1) =~= prefix.push(k as nat));
                assert(foreign_key_steps(prefix.push(k as nat), drop, table_index as nat)
                    =~= foreign_key_steps(prefix, drop, table_index as nat).push(
                    foreign_key_step(drop, table_index as nat, k as nat),
                ));
            } else {
                assert(foreign_keys_missing_upto(*from, other, k + 1) =~= prefix);
            }
        }
        k = k + 1;
    }
}

/// Over the tables of `from`: the foreign keys that the table of the same
/// name in `to` lacks, as drops when `drop` holds, else additions.
fn push_foreign_key_changes(steps: &mut Vec<SqlMigrationStep>, from: &SqlSchema, to: &SqlSchema, drop: bool)
    ensures
        steps_view(final(steps)@) == steps_view(old(steps)@) + foreign_key_changes_upto(
            *from,
            *to,
            drop,
            from.tables@.len() as int,
        ),
{
    let ghost head = steps_view(steps@);
    let mut k: usize = 0;
    while k < from.tables.len()
        invariant
            k <= from.tables.len(),
            steps_view(steps@) == head + foreign_key_changes_upto(*from, *to, drop, k as int),
        decreases from.tables.len() - k,
    {
        let table = &from.tables[k];
        let other = match find_table(&to.tables, table.name.as_str()) {
            Some(i) => Some(&to.tables[i]),
            None => None,
        };
        push_missing_foreign_keys(steps, table, other, k, drop);
        assert(steps_view(steps@) =~= head + foreign_key_changes_upto(*from, *to, drop, k + 1));
        k = k + 1;
    }
}

/// The steps that migrate the previous schema to the next one, matching
/// tables, columns and indexes by name.
pub fn diff_schemas(schemas: &Pair<SqlSchema>, rename_in_place: bool) -> (r: Vec<SqlMigrationStep>)
    ensures
        steps_view(r@) == schema_steps_spec(schemas.previous, schemas.next, rename_in_place),
{
    let previous = &schemas.previous;
    let next = &schemas.next;
    let mut steps: Vec<SqlMigrationStep> = Vec::new();
    push_foreign_key_changes(&mut steps, previous, next, true);
    let ghost head = steps_view(steps@);
    let mut k: usize = 0;
    while k < previous.tables.len()
        invariant
            k <= previous.tables.len(),
            steps_view(steps@) == head + index_drops_upto(*previous, *next, k as int),
        decreases previous.tables.len() - k,
    {
        let table = &previous.tables[k];
        match find_table(&next.tables, table.name.as_str()) {
            Some(n) => {
                let taken = index_partners(table, &next.tables[n]);
                push_dropped_indexes(&mut steps, table, &next.tables[n], &taken, k);
            },
            None => {},
        }
        assert(steps_view(steps@) =~= head + index_drops_upto(*previous, *next, k + 1));
        k = k + 1;
    }
    let ghost head = steps_view(steps@);
    let mut k: usize = 0;
    while k < previous.tables.len()
        invariant
            k <= previous.tables.len(),
            steps_view(steps@) == head + table_drops_upto(*previous, *next, k as int),
        decreases previous.tables.len() - k,
    {
        if find_table(&next.tables, previous.tables[k].name.as_str()).is_none() {
            push_step(&mut steps, SqlMigrationStep::DropTable { table_index: k });
        }
        assert(steps_view(steps@) =~= head + table_drops_upto(*previous, *next, k + 1));
        k = k + 1;
    }
    let ghost head = steps_view(steps@);
    let mut k: usize = 0;
    while k < next.tables.len()
        invariant
            k <= next.tables.len(),
            steps_view(steps@) == head + table_creates_upto(*previous, *next, k as int),
        decreases next.tables.len() - k,
    {
        if find_table(&previous.tables, next.tables[k].name.as_str()).is_none() {
            push_step(&mut steps, SqlMigrationStep::CreateTable { table_index: k });
        }
        assert(steps_view(steps@) =~= head + table_creates_upto(*previous, *next, k + 1));
        k = k + 1;
    }
    let ghost head = steps_view(steps@);
    let mut k: usize = 0;
    while k < next.tables.len()
        invariant
            k <= next.tables.len(),
            steps_view(steps@) == head + alters_of_tables_upto(*previous, *next, k as int),
        decreases next.tables.len() - k,
    {
        let table = &next.tables[k];
        match find_table(&previous.tables, table.name.as_str()) {
            Some(p) => {
                let changes = diff_table(Pair { previous: &previous.tables[p], next: table });
                if changes.len() > 0 {
                    push_step(
                        &mut steps,
                        SqlMigrationStep::AlterTable(
                            AlterTable { table_index: Pair { previous: p, next: k }, changes },
                        ),
                    );
                }
            },
            None => {},
        }
        assert(steps_view(steps@) =~= head + alters_of_tables_upto(*previous, *next, k + 1));
        k = k + 1;
    }
    let ghost head = steps_view(steps@);
    let mut k: usize = 0;
    while k < next.tables.len()
        invariant
            k <= next.tables.len(),
            steps_view(steps@) == head + index_renames_upto(*previous, *next, rename_in_place, k as int),
        decreases next.tables.len() - k,
    {
        let table = &next.tables[k];
        match find_table(&previous.tables, table.name.as_str()) {
            Some(p) => {
                let taken = index_partners(&previous.tables[p], table);
                push_renamed_indexes(&mut steps, &previous.tables[p], table, &taken, p, k, rename_in_place);
            },
            None => {},
        }
        assert(steps_view(steps@) =~= head + index_renames_upto(*previous, *next, rename_in_place, k + 1));
        k = k + 1;
    }
    let ghost head = steps_view(steps@);
    let mut k: usize = 0;
    while k < next.tables.len()
        invariant
            k <= next.tables.len(),
            steps_view(steps@) == head + index_creates_upto(*previous, *next, k as int),
        decreases next.tables.len() - k,
    {
        let table = &next.tables[k];
        match find_table(&previous.tables, table.name.as_str()) {
            Some(p) => {
                let taken = index_partners(&previous.tables[p], table);
                push_created_indexes(&mut steps, &previous.tables[p], table, &taken, k);
            },
            None => {},
        }
        assert(steps_view(steps@) =~= head + index_creates_upto(*previous, *next, k + 1));
        k = k + 1;
    }
    push_foreign_key_changes(&mut steps, next, previous, false);
    assert(steps_view(steps@) =~= schema_steps_spec(*previous, *next, rename_in_place));
    steps
}

} // verus!
