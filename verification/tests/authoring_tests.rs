use rustyroad::authoring::initial_migration_down_sql;
use rustyroad::authoring::initial_migration_up_sql;
use rustyroad::authoring::parse_logical_type;
use rustyroad::authoring::parse_nullable;
use rustyroad::authoring::AuthoringAction;
use rustyroad::authoring::AuthoringEvent;
use rustyroad::authoring::AuthoringState;
use rustyroad::authoring::LogicalType;
use rustyroad::authoring::MigrationAuthoring;
use rustyroad::timestamp::Timestamp;

fn machine(name: &str) -> MigrationAuthoring {
    let t = Timestamp::new(2023, 5, 7, 9, 30, 5).unwrap();
    MigrationAuthoring::new(&t, name.to_string())
}

fn line(m: &mut MigrationAuthoring, text: &str) {
    m.step(AuthoringEvent::Line {
        text: text.to_string(),
    });
}

fn prompt_of(m: &MigrationAuthoring) -> String {
    match m.next_action() {
        AuthoringAction::Prompt { message } => message,
        other => panic!("expected a prompt, got {:?}", other),
    }
}

#[test]
fn authoring_renders_one_string_column() {
    // One column: email, string, length 255, not nullable.
    let mut m = machine("create_users_table");
    assert!(matches!(m.next_action(), AuthoringAction::CheckMarker));
    m.step(AuthoringEvent::MarkerChecked { present: true });
    match m.next_action() {
        AuthoringAction::CreateDir { path } => {
            assert_eq!(
                path,
                "config/database/migrations/20230507093005-create_users_table"
            );
        }
        other => panic!("expected directory creation, got {:?}", other),
    }
    m.step(AuthoringEvent::DirCreated { created: true });
    assert_eq!(prompt_of(&m), "Enter the name of the table: ");
    line(&mut m, "users");
    assert_eq!(prompt_of(&m), "Enter the number of columns: ");
    line(&mut m, "1");
    assert_eq!(prompt_of(&m), "Enter the name of the column: ");
    line(&mut m, "email");
    assert_eq!(prompt_of(&m), "Enter the type of the column: ");
    line(&mut m, "string");
    assert_eq!(prompt_of(&m), "Enter the constraints of the column: ");
    line(&mut m, "UNIQUE");
    assert_eq!(prompt_of(&m), "Is the column nullable? (y/n): ");
    line(&mut m, "n");
    assert_eq!(prompt_of(&m), "Enter the length of the string: ");
    line(&mut m, "255");

    match m.next_action() {
        AuthoringAction::PersistScripts {
            up_path,
            down_path,
            up_contents,
            down_contents,
        } => {
            assert_eq!(
                up_path,
                "config/database/migrations/20230507093005-create_users_table/up.sql"
            );
            assert_eq!(
                down_path,
                "config/database/migrations/20230507093005-create_users_table/down.sql"
            );
            assert_eq!(
                up_contents,
                "ALTER TABLE users ADD COLUMN email VARCHAR(255) NOT NULL UNIQUE;\n"
            );
            assert_eq!(
                down_contents,
                "ALTER TABLE users ADD COLUMN email VARCHAR(255) NOT NULL UNIQUE;\n\
                 ALTER TABLE users DROP COLUMN email;\n"
            );
        }
        other => panic!("expected persisting, got {:?}", other),
    }
    m.step(AuthoringEvent::Persisted);
    match m.next_action() {
        AuthoringAction::Finish { result } => assert_eq!(result, "create_users_table"),
        other => panic!("expected finish, got {:?}", other),
    }
}

#[test]
fn authoring_renders_each_plain_type() {
    let mut m = machine("add_flags");
    m.step(AuthoringEvent::MarkerChecked { present: true });
    m.step(AuthoringEvent::DirCreated { created: true });
    line(&mut m, "things");
    line(&mut m, "4");
    for (name, ty, sql) in [
        ("count", "integer", "INT"),
        ("ratio", "float", "FLOAT"),
        ("active", "boolean", "BOOLEAN"),
        ("born_on", "date", "DATE"),
    ] {
        line(&mut m, name);
        line(&mut m, ty);
        line(&mut m, "");
        line(&mut m, "y");
        match m.next_action() {
            AuthoringAction::PersistScripts { up_contents, .. } => {
                assert!(
                    up_contents.ends_with(&format!(
                        "ALTER TABLE things ADD COLUMN {} {} ;\n",
                        name, sql
                    )),
                    "unexpected up buffer: {:?}",
                    up_contents
                );
            }
            other => panic!("expected persisting, got {:?}", other),
        }
        m.step(AuthoringEvent::Persisted);
    }
    match m.next_action() {
        AuthoringAction::Finish { result } => assert_eq!(result, "add_flags"),
        other => panic!("expected finish, got {:?}", other),
    }
}

#[test]
fn missing_marker_aborts_with_explanation() {
    let mut m = machine("anything");
    m.step(AuthoringEvent::MarkerChecked { present: false });
    match m.next_action() {
        AuthoringAction::Finish { result } => {
            assert_eq!(result, "This is why you can't have nice things");
        }
        other => panic!("expected finish, got {:?}", other),
    }
}

#[test]
fn directory_collision_aborts_without_writes() {
    // Same name in the same second: the directory already exists, so the
    // second attempt aborts, and its buffers never held anything to write.
    let mut m = machine("create_users_table");
    m.step(AuthoringEvent::MarkerChecked { present: true });
    m.step(AuthoringEvent::DirCreated { created: false });
    match m.next_action() {
        AuthoringAction::Finish { result } => assert_eq!(result, "Migration already exists"),
        other => panic!("expected finish, got {:?}", other),
    }
    assert_eq!(m.up_sql, "");
    assert_eq!(m.down_sql, "");
}

#[test]
fn invalid_nullability_reprompts_without_consuming_a_column() {
    let mut m = machine("one_column");
    m.step(AuthoringEvent::MarkerChecked { present: true });
    m.step(AuthoringEvent::DirCreated { created: true });
    line(&mut m, "users");
    line(&mut m, "1");
    line(&mut m, "age");
    line(&mut m, "integer");
    line(&mut m, "");
    line(&mut m, "maybe");
    assert_eq!(prompt_of(&m), "Is the column nullable? (y/n): ");
    line(&mut m, " Y ");
    assert!(matches!(
        m.next_action(),
        AuthoringAction::PersistScripts { .. }
    ));
}

#[test]
fn unknown_column_type_reprompts_instead_of_failing() {
    let mut m = machine("one_column");
    m.step(AuthoringEvent::MarkerChecked { present: true });
    m.step(AuthoringEvent::DirCreated { created: true });
    line(&mut m, "users");
    line(&mut m, "1");
    line(&mut m, "age");
    line(&mut m, "varchar");
    assert_eq!(prompt_of(&m), "Enter the type of the column: ");
    line(&mut m, "INTEGER");
    assert_eq!(prompt_of(&m), "Enter the constraints of the column: ");
}

#[test]
fn unparsable_column_count_reprompts() {
    let mut m = machine("nothing");
    m.step(AuthoringEvent::MarkerChecked { present: true });
    m.step(AuthoringEvent::DirCreated { created: true });
    line(&mut m, "users");
    line(&mut m, "two");
    assert_eq!(prompt_of(&m), "Enter the number of columns: ");
    line(&mut m, "0");
    match m.next_action() {
        AuthoringAction::Finish { result } => assert_eq!(result, "nothing"),
        other => panic!("expected finish, got {:?}", other),
    }
}

#[test]
fn logical_types_parse_case_insensitively() {
    assert_eq!(parse_logical_type("string"), Some(LogicalType::Str));
    assert_eq!(parse_logical_type("STRING"), Some(LogicalType::Str));
    assert_eq!(parse_logical_type("Integer"), Some(LogicalType::Integer));
    assert_eq!(parse_logical_type("float"), Some(LogicalType::Float));
    assert_eq!(parse_logical_type("BOOLEAN"), Some(LogicalType::Boolean));
    assert_eq!(parse_logical_type("date"), Some(LogicalType::Date));
    assert_eq!(parse_logical_type("varchar"), None);
    assert_eq!(parse_logical_type(""), None);
}

#[test]
fn nullability_parses_trimmed_and_case_insensitively() {
    assert_eq!(parse_nullable("y"), Some(true));
    assert_eq!(parse_nullable(" Y "), Some(true));
    assert_eq!(parse_nullable("n"), Some(false));
    assert_eq!(parse_nullable("\tN\n"), Some(false));
    assert_eq!(parse_nullable("yes"), None);
    assert_eq!(parse_nullable(""), None);
}

#[test]
fn seeded_initial_migration_scripts() {
    let up = initial_migration_up_sql();
    assert!(up.contains("CREATE TABLE IF NOT EXISTS users"));
    assert!(up.contains("email VARCHAR(255) NOT NULL"));
    let down = initial_migration_down_sql();
    assert!(down.contains("DROP TABLE IF EXISTS users;"));
}

#[test]
fn authoring_state_is_visible() {
    let m = machine("x");
    assert_eq!(m.state, AuthoringState::AwaitMarker);
    assert_eq!(m.columns_done, 0);
}
