use schema_migration::mark_migration_rolled_back::{
    MarkMigrationRolledBackCommand, MarkMigrationRolledBackInput, MigrationRecord, RollbackError,
};

fn record(id: &str, name: &str, finished: bool, rolled_back: bool) -> MigrationRecord {
    MigrationRecord {
        id: id.to_string(),
        migration_name: name.to_string(),
        started_at: 1_000,
        finished_at: if finished { Some(2_000) } else { None },
        rolled_back_at: if rolled_back { Some(3_000) } else { None },
    }
}

fn input(name: &str) -> MarkMigrationRolledBackInput {
    MarkMigrationRolledBackInput { migration_name: name.to_string() }
}

#[test]
fn rolling_back_an_unapplied_migration_fails() {
    let history = vec![record("1", "other", false, false)];
    match MarkMigrationRolledBackCommand::execute(&input("init"), &history) {
        Err(RollbackError::CannotRollBackUnappliedMigration { migration_name }) => {
            assert_eq!(migration_name, "init")
        }
        other => panic!("unexpected {:?}", other),
    }
    assert!(matches!(
        MarkMigrationRolledBackCommand::execute(&input("init"), &Vec::new()),
        Err(RollbackError::CannotRollBackUnappliedMigration { .. })
    ));
}

#[test]
fn rolling_back_a_succeeded_migration_fails() {
    let history = vec![
        record("1", "init", true, false),
        record("2", "init", true, true),
        record("3", "other", false, false),
    ];
    match MarkMigrationRolledBackCommand::execute(&input("init"), &history) {
        Err(RollbackError::CannotRollBackSucceededMigration { migration_name }) => {
            assert_eq!(migration_name, "init")
        }
        other => panic!("unexpected {:?}", other),
    }
}

#[test]
fn rolling_back_marks_exactly_the_unfinished_records() {
    let history = vec![
        record("1", "init", true, false),
        record("2", "init", false, false),
        record("3", "other", false, false),
        record("4", "init", false, true),
        record("5", "init", false, false),
    ];
    let ids = MarkMigrationRolledBackCommand::execute(&input("init"), &history).unwrap();
    assert_eq!(ids, vec!["2".to_string(), "5".to_string()]);
}

#[test]
fn rolling_back_an_already_rolled_back_failure_marks_nothing() {
    let history = vec![record("1", "init", false, true)];
    let ids = MarkMigrationRolledBackCommand::execute(&input("init"), &history).unwrap();
    assert!(ids.is_empty());
}
