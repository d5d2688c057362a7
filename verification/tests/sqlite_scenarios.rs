//! Scenarios against a real SQLite target: the seeded initial migration, the
//! runner's ordering, and what re-running a batch does today.

use rustyroad::authoring::initial_migration_down_sql;
use rustyroad::authoring::initial_migration_up_sql;
use rustyroad::database::DatabaseType;
use rustyroad::runner::MigrationRun;
use rustyroad::runner::RunnerState;
use sqlx::Connection;
use sqlx::Row;
use sqlx::SqliteConnection;

fn block_on<F: std::future::Future>(f: F) -> F::Output {
    tokio::runtime::Builder::new_current_thread()
        .enable_all()
        .build()
        .unwrap()
        .block_on(f)
}

async fn fresh_target() -> SqliteConnection {
    SqliteConnection::connect("sqlite::memory:").await.unwrap()
}

async fn table_names(conn: &mut SqliteConnection) -> Vec<String> {
    sqlx::query("SELECT name FROM sqlite_master WHERE type='table';")
        .fetch_all(conn)
        .await
        .unwrap()
        .iter()
        .map(|row| row.get::<String, _>(0))
        .collect()
}

/// Drives a planned run against one connection, with the file contents given
/// beside their names.
async fn drive(
    run: &mut MigrationRun,
    contents: &[(&str, &str)],
    conn: &mut SqliteConnection,
) {
    run.connected();
    loop {
        let file = match run.current_file() {
            Some(f) => f.clone(),
            None => break,
        };
        let sql = contents
            .iter()
            .find(|(name, _)| *name == file)
            .map(|(_, sql)| *sql)
            .unwrap();
        match sqlx::query(sql).execute(&mut *conn).await {
            Ok(_) => run.file_applied(),
            Err(e) => {
                run.file_failed(e.to_string());
                return;
            }
        }
    }
    run.finish();
}

#[test]
fn test_run_migration() {
    // Running the seeded initial migration against a fresh SQLite target
    // creates a queryable `users` table.
    block_on(async {
        let mut conn = fresh_target().await;
        let up = initial_migration_up_sql();
        let mut run = MigrationRun::new(DatabaseType::Sqlite, vec!["up.sql".to_string()]).unwrap();
        drive(&mut run, &[("up.sql", up.as_str())], &mut conn).await;
        assert_eq!(run.state, RunnerState::Done);
        let tables = table_names(&mut conn).await;
        assert!(
            tables.contains(&"users".to_string()),
            "The 'users' table should have been created by the migration"
        );
    });
}

#[test]
fn runner_applies_files_in_ascending_name_order() {
    // 0002 alters the table that only 0001 creates, so the run succeeds only
    // when the runner orders the files by name.
    let contents: &[(&str, &str)] = &[
        ("0002_b.sql", "ALTER TABLE t ADD COLUMN b INT;"),
        ("0001_a.sql", "CREATE TABLE t (a INT);"),
    ];
    block_on(async {
        // Out of order, the dependent statement fails on its own.
        let mut conn = fresh_target().await;
        assert!(sqlx::query(contents[0].1).execute(&mut conn).await.is_err());

        // Through the runner, both apply.
        let mut conn = fresh_target().await;
        let mut run = MigrationRun::new(
            DatabaseType::Sqlite,
            vec!["0002_b.sql".to_string(), "0001_a.sql".to_string()],
        )
        .unwrap();
        assert_eq!(run.files, vec!["0001_a.sql", "0002_b.sql"]);
        drive(&mut run, contents, &mut conn).await;
        assert_eq!(run.state, RunnerState::Done);
        assert!(table_names(&mut conn).await.contains(&"t".to_string()));
    });
}

#[test]
fn rerunning_a_batch_reexecutes_every_file() {
    // Nothing records an applied batch. The seeded migration happens to be
    // guarded (`IF NOT EXISTS`), so a second run succeeds; an unguarded
    // batch errors deterministically the second time. Both document the
    // current re-apply-every-time behavior.
    block_on(async {
        let mut conn = fresh_target().await;
        let up = initial_migration_up_sql();
        for _ in 0..2 {
            let mut run =
                MigrationRun::new(DatabaseType::Sqlite, vec!["up.sql".to_string()]).unwrap();
            drive(&mut run, &[("up.sql", up.as_str())], &mut conn).await;
            assert_eq!(run.state, RunnerState::Done);
        }

        let unguarded: &[(&str, &str)] = &[("0001_t2.sql", "CREATE TABLE t2 (x INT);")];
        let mut first = MigrationRun::new(DatabaseType::Sqlite, vec!["0001_t2.sql".to_string()])
            .unwrap();
        drive(&mut first, unguarded, &mut conn).await;
        assert_eq!(first.state, RunnerState::Done);
        let mut second = MigrationRun::new(DatabaseType::Sqlite, vec!["0001_t2.sql".to_string()])
            .unwrap();
        drive(&mut second, unguarded, &mut conn).await;
        assert_eq!(second.state, RunnerState::Failed);
        let message = second.error.unwrap().message();
        assert!(
            message.starts_with("Failed to execute migration 0001_t2.sql:"),
            "unexpected failure message: {:?}",
            message
        );
    });
}

#[test]
fn down_script_drops_the_users_table() {
    block_on(async {
        let mut conn = fresh_target().await;
        sqlx::query(initial_migration_up_sql().as_str())
            .execute(&mut conn)
            .await
            .unwrap();
        assert!(table_names(&mut conn).await.contains(&"users".to_string()));
        sqlx::query(initial_migration_down_sql().as_str())
            .execute(&mut conn)
            .await
            .unwrap();
        assert!(!table_names(&mut conn).await.contains(&"users".to_string()));
    });
}
