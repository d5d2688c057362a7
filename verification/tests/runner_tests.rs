use rustyroad::database::DatabaseType;
use rustyroad::runner::is_sql_file;
use rustyroad::runner::sort_file_names;
use rustyroad::runner::CustomMigrationError;
use rustyroad::runner::MigrationRun;
use rustyroad::runner::RunnerState;

fn names(v: &[&str]) -> Vec<String> {
    v.iter().map(|s| s.to_string()).collect()
}

#[test]
fn unsupported_dialects_fail_fast() {
    // No planning, no file access: the error comes back before anything else.
    for dialect in [DatabaseType::Mysql, DatabaseType::Mongo] {
        let r = MigrationRun::new(dialect, names(&["0001_a.sql"]));
        match r {
            Err(CustomMigrationError::UnsupportedDialect { dialect: d }) => {
                assert_eq!(d, dialect);
            }
            other => panic!("expected the unsupported error, got {:?}", other),
        }
    }
    let err = MigrationRun::new(DatabaseType::Mysql, names(&[])).unwrap_err();
    assert_eq!(
        err.message(),
        "Migrations are not supported for this database type: mysql"
    );
}

#[test]
fn plan_keeps_only_sql_files_in_ascending_name_order() {
    let run = MigrationRun::new(
        DatabaseType::Sqlite,
        names(&["0002_b.sql", "readme.md", "0001_a.sql", "0010_c.sql", "notes"]),
    )
    .unwrap();
    assert_eq!(
        run.files,
        names(&["0001_a.sql", "0002_b.sql", "0010_c.sql"])
    );
    assert_eq!(run.state, RunnerState::Connecting);
    assert_eq!(run.next, 0);
}

#[test]
fn run_walks_files_in_order_to_done() {
    let mut run =
        MigrationRun::new(DatabaseType::Postgres, names(&["0002_b.sql", "0001_a.sql"])).unwrap();
    run.connected();
    assert_eq!(run.current_file().unwrap(), "0001_a.sql");
    run.file_applied();
    assert_eq!(run.current_file().unwrap(), "0002_b.sql");
    run.file_applied();
    assert!(run.current_file().is_none());
    run.finish();
    assert_eq!(run.state, RunnerState::Done);
    assert!(run.error.is_none());
}

#[test]
fn a_failing_file_halts_the_run_and_names_the_file() {
    let mut run =
        MigrationRun::new(DatabaseType::Sqlite, names(&["0001_a.sql", "0002_b.sql"])).unwrap();
    run.connected();
    run.file_applied();
    run.file_failed("near \"BOGUS\": syntax error".to_string());
    assert_eq!(run.state, RunnerState::Failed);
    let err = run.error.unwrap();
    assert_eq!(
        err.message(),
        "Failed to execute migration 0002_b.sql: near \"BOGUS\": syntax error"
    );
}

#[test]
fn a_failing_connection_fails_the_run() {
    let mut run = MigrationRun::new(DatabaseType::Postgres, names(&[])).unwrap();
    run.connection_failed("connection refused".to_string());
    assert_eq!(run.state, RunnerState::Failed);
    assert_eq!(
        run.error.unwrap().message(),
        "Failed to connect to database: connection refused"
    );
}

#[test]
fn read_errors_name_the_file_and_cause() {
    let mut run = MigrationRun::new(DatabaseType::Sqlite, names(&["0001_a.sql"])).unwrap();
    run.connected();
    run.file_read_failed("permission denied".to_string());
    assert_eq!(run.state, RunnerState::Failed);
    assert_eq!(
        run.error.unwrap().message(),
        "Failed to read migration file 0001_a.sql: permission denied"
    );
}

#[test]
fn sql_extension_decides_what_runs() {
    assert!(is_sql_file("0001_a.sql"));
    assert!(is_sql_file(".sql"));
    assert!(!is_sql_file("sql"));
    assert!(!is_sql_file("up.sql.bak"));
    assert!(!is_sql_file("README"));
    assert!(!is_sql_file(""));
}

#[test]
fn sorting_is_stable_under_duplicates_and_empties() {
    assert_eq!(sort_file_names(names(&[])), names(&[]));
    assert_eq!(
        sort_file_names(names(&["b.sql", "a.sql", "b.sql"])),
        names(&["a.sql", "b.sql", "b.sql"])
    );
    // Zero-padded numeric names sort numerically because they have equal
    // width.
    assert_eq!(
        sort_file_names(names(&["0010_c.sql", "0002_b.sql", "0001_a.sql"])),
        names(&["0001_a.sql", "0002_b.sql", "0010_c.sql"])
    );
}
