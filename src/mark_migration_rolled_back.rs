//! Deciding which records of the migration history a rollback marks.
//!
//! The caller reads the history, hands it here, and then marks the records
//! whose ids come back.

use vstd::prelude::*;
use vstd::string::*;

verus! {

/// The input of the command: the name of the migration to mark rolled back.
#[derive(Debug)]
pub struct MarkMigrationRolledBackInput {
    pub migration_name: String,
}

/// A record of the migration history. Times are milliseconds since the
/// epoch.
#[derive(Debug)]
pub struct MigrationRecord {
    pub id: String,
    pub migration_name: String,
    pub started_at: i64,
    pub finished_at: Option<i64>,
    pub rolled_back_at: Option<i64>,
}

/// Why a migration cannot be marked rolled back.
#[derive(Debug)]
pub enum RollbackError {
    /// No record carries the name: the migration was never applied.
    CannotRollBackUnappliedMigration { migration_name: String },
    /// Every record that carries the name finished: the migration succeeded.
    CannotRollBackSucceededMigration { migration_name: String },
}

pub enum RollbackErrorView {
    CannotRollBackUnappliedMigration { migration_name: Seq<char> },
    CannotRollBackSucceededMigration { migration_name: Seq<char> },
}

impl View for RollbackError {
    type V = RollbackErrorView;

    open spec fn view(&self) -> RollbackErrorView {
        match self {
            RollbackError::CannotRollBackUnappliedMigration { migration_name } =>
                RollbackErrorView::CannotRollBackUnappliedMigration {
                migration_name: migration_name@,
            },
            RollbackError::CannotRollBackSucceededMigration { migration_name } =>
                RollbackErrorView::CannotRollBackSucceededMigration {
                migration_name: migration_name@,
            },
        }
    }
}

/// Whether some record carries the name.
pub open spec fn has_record(migrations: Seq<MigrationRecord>, name: Seq<char>) -> bool {
    exists|i: int| 0 <= i < migrations.len() && (#[trigger] migrations[i]).migration_name@ == name
}

/// Whether every record that carries the name finished.
pub open spec fn all_finished(migrations: Seq<MigrationRecord>, name: Seq<char>) -> bool {
    forall|i: int|
        0 <= i < migrations.len() && (#[trigger] migrations[i]).migration_name@ == name
            ==> migrations[i].finished_at is Some
}

/// A record of the name that neither finished nor was rolled back.
pub open spec fn to_roll_back(m: MigrationRecord, name: Seq<char>) -> bool {
    m.migration_name@ == name && m.finished_at is None && m.rolled_back_at is None
}

/// The ids of the records to mark, in the order of the history.
pub open spec fn ids_to_roll_back(migrations: Seq<MigrationRecord>, name: Seq<char>) -> Seq<Seq<char>>
    decreases migrations.len(),
{
    if migrations.len() == 0 {
        Seq::empty()
    } else {
        let rest = ids_to_roll_back(migrations.drop_last(), name);
        if to_roll_back(migrations.last(), name) {
            rest.push(migrations.last().id@)
        } else {
            rest
        }
    }
}

/// What the command decides for the history `migrations`.
pub open spec fn rollback_spec(migrations: Seq<MigrationRecord>, name: Seq<char>) -> Result<
    Seq<Seq<char>>,
    RollbackErrorView,
> {
    if !has_record(migrations, name) {
        Err(RollbackErrorView::CannotRollBackUnappliedMigration { migration_name: name })
    } else if all_finished(migrations, name) {
        Err(RollbackErrorView::CannotRollBackSucceededMigration { migration_name: name })
    } else {
        Ok(ids_to_roll_back(migrations, name))
    }
}

/// Marks a migration as rolled back.
#[derive(Debug)]
pub struct MarkMigrationRolledBackCommand;

impl MarkMigrationRolledBackCommand {
    /// The ids of the records to mark rolled back, in the order of the
    /// history: those of the migration that neither finished nor were rolled
    /// back already. Fails when no record carries the name, and when every
    /// one that does finished.
    pub fn execute(input: &MarkMigrationRolledBackInput, migrations: &Vec<MigrationRecord>) -> (r:
        Result<Vec<String>, RollbackError>)
        ensures
            match r {
                Ok(ids) => rollback_spec(migrations@, input.migration_name@) == Ok::<
                    Seq<Seq<char>>,
                    RollbackErrorView,
                >(ids@.map_values(|s: String| s@)),
                Err(e) => rollback_spec(migrations@, input.migration_name@) == Err::<
                    Seq<Seq<char>>,
                    RollbackErrorView,
                >(e@),
            },
    {
        let name = input.migration_name.as_str();
        let ghost ms = migrations@;
        let mut found = false;
        let mut unfinished = false;
        let mut ids: Vec<String> = Vec::new();
        let mut i: usize = 0;
        while i < migrations.len()
            invariant
                ms == migrations@,
                name@ == input.migration_name@,
                i <= migrations.len(),
                found == has_record(ms.take(i as int), name@),
                unfinished == !all_finished(ms.take(i as int), name@),
                ids@.map_values(|s: String| s@) == ids_to_roll_back(ms.take(i as int), name@),
            decreases migrations.len() - i,
        {
            let m = &migrations[i];
            let ghost prefix = ms.take(i as int);
            let ghost next = ms.take(i + 1);
            assert(next.drop_last() =~= prefix);
            assert(next.last() == *m);
            let named = crate::text::str_eq(m.migration_name.as_str(), name);
            if named {
                assert(next[i as int] == *m);
                found = true;
                if m.finished_at.is_none() {
                    unfinished = true;
                    if m.rolled_back_at.is_none() {
                        ids.push(m.id.clone());
                    }
                }
            }
            assert(found == has_record(next, name@)) by {
                if has_record(prefix, name@) {
                    let k = choose|k: int|
                        0 <= k < prefix.len() && (#[trigger] prefix[k]).migration_name@ == name@;
                    assert(next[k] == prefix[k]);
                }
                if has_record(next, name@) && !named {
                    let k = choose|k: int|
                        0 <= k < next.len() && (#[trigger] next[k]).migration_name@ == name@;
                    assert(prefix[k] == next[k]);
                }
            }
            assert(unfinished == !all_finished(next, name@)) by {
                if !all_finished(prefix, name@) {
                    let k = choose|k: int|
                        0 <= k < prefix.len() && (#[trigger] prefix[k]).migration_name@ == name@
                            && prefix[k].finished_at is None;
                    assert(next[k] == prefix[k]);
                }
                if !all_finished(next, name@) && !(named && m.finished_at.is_none()) {
                    let k = choose|k: int|
                        0 <= k < next.len() && (#[trigger] next[k]).migration_name@ == name@
                            && next[k].finished_at is None;
                    assert(prefix[k] == next[k]);
                }
            }
            assert(ids@.map_values(|s: String| s@) =~= ids_to_roll_back(next, name@));
            i = i + 1;
        }
        assert(ms.take(migrations.len() as int) =~= ms);
        if !found {
            return Err(
                RollbackError::CannotRollBackUnappliedMigration {
                    migration_name: input.migration_name.clone(),
                },
            );
        }
        if !unfinished {
            return Err(
                RollbackError::CannotRollBackSucceededMigration {
                    migration_name: input.migration_name.clone(),
                },
            );
        }
        Ok(ids)
    }
}

} // verus!
