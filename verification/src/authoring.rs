//! Migration script authoring: a sequence of interactive answers becomes an
//! `up.sql` / `down.sql` script pair in a uniquely named, chronologically
//! sortable directory.
//!
//! The protocol itself is the state machine [`MigrationAuthoring`]: the
//! caller performs each requested action (check the project marker, create
//! the directory, show a prompt and read a line, persist the script buffers)
//! and reports what happened; every decision in between is made — and
//! verified — here.

use vstd::prelude::*;

verus! {

use vstd::string::StringExecFns;
use crate::text::all_digits;
use crate::text::dec_str;
use crate::text::dec_value;
use crate::text::lower_of;
use crate::text::lowercase;
use crate::text::parse_u32;
use crate::text::str_eq;
use crate::text::trim_of;
use crate::text::trimmed;

/// The logical column types a user may enter.
#[derive(Debug, Clone, Copy, PartialEq, Eq, Structural)]
pub enum LogicalType {
    Str,
    Integer,
    Float,
    Boolean,
    Date,
}

/// One column of a schema change, as captured during authoring; `length` is
/// meaningful only for `Str` columns.
#[derive(Debug, Clone, PartialEq, Eq)]
pub struct ColumnSpec {
    pub name: String,
    pub ty: LogicalType,
    pub length: u32,
    pub constraints: String,
    pub nullable: bool,
}

/// The logical type named by a lowercased answer.
pub open spec fn spec_parse_logical_type(s: Seq<char>) -> Option<LogicalType> {
    if s == "string"@ {
        Some(LogicalType::Str)
    } else if s == "integer"@ {
        Some(LogicalType::Integer)
    } else if s == "float"@ {
        Some(LogicalType::Float)
    } else if s == "boolean"@ {
        Some(LogicalType::Boolean)
    } else if s == "date"@ {
        Some(LogicalType::Date)
    } else {
        None
    }
}

/// Parses a logical type answer, ignoring letter case; anything outside the
/// five known names is rejected.
pub fn parse_logical_type(s: &str) -> (r: Option<LogicalType>)
    ensures
        r == spec_parse_logical_type(lower_of(s@)),
{
    let low = lowercase(s);
    if str_eq(low.as_str(), "string") {
        Some(LogicalType::Str)
    } else if str_eq(low.as_str(), "integer") {
        Some(LogicalType::Integer)
    } else if str_eq(low.as_str(), "float") {
        Some(LogicalType::Float)
    } else if str_eq(low.as_str(), "boolean") {
        Some(LogicalType::Boolean)
    } else if str_eq(low.as_str(), "date") {
        Some(LogicalType::Date)
    } else {
        None
    }
}

/// The nullability named by a trimmed, lowercased answer: `y` or `n`.
pub open spec fn spec_parse_nullable(s: Seq<char>) -> Option<bool> {
    if s == "y"@ {
        Some(true)
    } else if s == "n"@ {
        Some(false)
    } else {
        None
    }
}

/// Parses a nullability answer, ignoring surrounding whitespace and letter
/// case; anything but `y` or `n` is rejected.
pub fn parse_nullable(s: &str) -> (r: Option<bool>)
    ensures
        r == spec_parse_nullable(lower_of(trim_of(s@))),
{
    let t = trimmed(s);
    let low = lowercase(t.as_str());
    if str_eq(low.as_str(), "y") {
        Some(true)
    } else if str_eq(low.as_str(), "n") {
        Some(false)
    } else {
        None
    }
}

/// A column count answer: a non-empty digit string whose value fits a `u32`.
pub open spec fn spec_u32_of(s: Seq<char>) -> Option<u32> {
    if s.len() > 0 && all_digits(s) && 0 <= dec_value(s) <= u32::MAX {
        Some(dec_value(s) as u32)
    } else {
        None
    }
}

/// The dialect-neutral SQL rendering of a logical type.
pub open spec fn spec_sql_type(ty: LogicalType, length: int) -> Seq<char> {
    match ty {
        LogicalType::Str => "VARCHAR("@ + dec_str(length) + ")"@,
        LogicalType::Integer => "INT"@,
        LogicalType::Float => "FLOAT"@,
        LogicalType::Boolean => "BOOLEAN"@,
        LogicalType::Date => "DATE"@,
    }
}

impl ColumnSpec {
    /// The statement that adds this column to `table`.
    pub open spec fn add_statement(self, table: Seq<char>) -> Seq<char> {
        "ALTER TABLE "@ + table + " ADD COLUMN "@ + self.name@ + " "@ + spec_sql_type(
            self.ty,
            self.length as int,
        ) + (if self.nullable {
            Seq::<char>::empty()
        } else {
            " NOT NULL"@
        }) + " "@ + self.constraints@ + ";"@
    }

    /// The compensating statement that removes this column from `table`.
    pub open spec fn drop_statement(self, table: Seq<char>) -> Seq<char> {
        "ALTER TABLE "@ + table + " DROP COLUMN "@ + self.name@ + ";"@
    }

    /// The statements this column appends to the up script.
    pub open spec fn up_statements(self, table: Seq<char>) -> Seq<Seq<char>> {
        seq![self.add_statement(table)]
    }

    /// The statements this column appends to the down script: the mirrored
    /// addition, then the compensating drop.
    pub open spec fn down_statements(self, table: Seq<char>) -> Seq<Seq<char>> {
        seq![self.add_statement(table), self.drop_statement(table)]
    }

    /// The text this column appends to the up buffer.
    pub open spec fn up_text(self, table: Seq<char>) -> Seq<char> {
        self.add_statement(table) + seq!['\n']
    }

    /// The text this column appends to the down buffer.
    pub open spec fn down_text(self, table: Seq<char>) -> Seq<char> {
        self.add_statement(table) + seq!['\n'] + self.drop_statement(table) + seq!['\n']
    }
}

/// Round trip of a column's scripts: every statement appended to the up
/// buffer has its counterpart at the same position among the statements
/// appended to the down buffer, and the down buffer closes with exactly one
/// extra statement, the compensating drop — one-to-one, for every column and
/// table.
pub proof fn lemma_column_round_trip(table: Seq<char>, c: ColumnSpec)
    ensures
        c.down_statements(table).len() == c.up_statements(table).len() + 1,
        forall|i: int|
            0 <= i < c.up_statements(table).len() ==> c.down_statements(table)[i]
                == c.up_statements(table)[i],
        c.down_statements(table).last() == c.drop_statement(table),
        c.down_text(table) == c.up_text(table) + c.drop_statement(table) + seq!['\n'],
{
}

/// Appends the SQL rendering of a logical type.
fn append_sql_type(out: &mut String, ty: LogicalType, length: u32)
    ensures
        final(out)@ == old(out)@ + spec_sql_type(ty, length as int),
{
    match ty {
        LogicalType::Str => {
            out.append("VARCHAR(");
            crate::text::append_u32(out, length);
            out.append(")");
        },
        LogicalType::Integer => {
            out.append("INT");
        },
        LogicalType::Float => {
            out.append("FLOAT");
        },
        LogicalType::Boolean => {
            out.append("BOOLEAN");
        },
        LogicalType::Date => {
            out.append("DATE");
        },
    }
    proof {
        assert(final(out)@ =~= old(out)@ + spec_sql_type(ty, length as int));
    }
}

/// Appends the statement that adds `col` to `table`, and a newline.
fn append_column_up(out: &mut String, table: &str, col: &ColumnSpec)
    ensures
        final(out)@ == old(out)@ + col.up_text(table@),
{
    out.append("ALTER TABLE ");
    out.append(table);
    out.append(" ADD COLUMN ");
    out.append(col.name.as_str());
    out.append(" ");
    append_sql_type(out, col.ty, col.length);
    if !col.nullable {
        out.append(" NOT NULL");
    }
    out.append(" ");
    out.append(col.constraints.as_str());
    out.append(";");
    out.append("\n");
    proof {
        reveal_strlit("\n");
        assert(("\n")@ =~= seq!['\n']);
        assert(final(out)@ =~= old(out)@ + col.up_text(table@));
    }
}

/// Appends the mirrored addition of `col`, then its compensating drop, each
/// with a newline.
fn append_column_down(out: &mut String, table: &str, col: &ColumnSpec)
    ensures
        final(out)@ == old(out)@ + col.down_text(table@),
{
    append_column_up(out, table, col);
    out.append("ALTER TABLE ");
    out.append(table);
    out.append(" DROP COLUMN ");
    out.append(col.name.as_str());
    out.append(";");
    out.append("\n");
    proof {
        reveal_strlit("\n");
        assert(("\n")@ =~= seq!['\n']);
        assert(final(out)@ =~= old(out)@ + col.down_text(table@));
    }
}

/// Where the authoring protocol stands: which answer or action result it
/// waits for next.
#[derive(Debug, Clone, Copy, PartialEq, Eq, Structural)]
pub enum AuthoringState {
    AwaitMarker,
    AwaitDirCreate,
    AwaitTableName,
    AwaitColumnCount,
    AwaitColumnName,
    AwaitColumnType,
    AwaitColumnConstraints,
    AwaitColumnNullable,
    AwaitColumnLength,
    AwaitPersist,
    Done,
}

/// What the caller reports back to the protocol.
#[derive(Debug, Clone, PartialEq, Eq)]
pub enum AuthoringEvent {
    /// Whether the project marker file is present in the working directory.
    MarkerChecked { present: bool },
    /// Whether the migration directory was newly created; `false` means it
    /// already existed.
    DirCreated { created: bool },
    /// One line of interactive input.
    Line { text: String },
    /// The script buffers were written out.
    Persisted,
}

/// What the caller must do next.
#[derive(Debug, Clone, PartialEq, Eq)]
pub enum AuthoringAction {
    /// Check whether the project marker file exists in the working
    /// directory.
    CheckMarker,
    /// Ensure the migration root directories exist, then create `path` and
    /// empty `up.sql` / `down.sql` files in it; report `created: false` if
    /// `path` already existed, leaving it untouched.
    CreateDir { path: String },
    /// Show `message` and read one line.
    Prompt { message: String },
    /// Write the full accumulated buffers to the two script files, replacing
    /// their contents.
    PersistScripts { up_path: String, down_path: String, up_contents: String, down_contents: String },
    /// Authoring ended; `result` names the migration or says why nothing was
    /// authored.
    Finish { result: String },
}

/// The interactive authoring protocol for one migration: prompts are
/// answered one at a time, each completed column is rendered into both
/// buffers and persisted at once, and a missing project marker or a
/// directory collision ends the protocol with a descriptive result and no
/// further writes.
#[derive(Debug, Clone, PartialEq, Eq)]
pub struct MigrationAuthoring {
    pub state: AuthoringState,
    pub name: String,
    pub dir_name: String,
    pub outcome: String,
    pub table: String,
    pub columns_total: u32,
    pub columns_done: u32,
    pub cur_col: ColumnSpec,
    pub up_sql: String,
    pub down_sql: String,
}

impl MigrationAuthoring {
    /// Counted columns never outrun the requested total, and none is counted
    /// before the count is asked.
    pub open spec fn wf(self) -> bool {
        match self.state {
            AuthoringState::AwaitMarker | AuthoringState::AwaitDirCreate
                | AuthoringState::AwaitTableName | AuthoringState::AwaitColumnCount => self
                .columns_done == 0,
            AuthoringState::AwaitColumnName | AuthoringState::AwaitColumnType
                | AuthoringState::AwaitColumnConstraints | AuthoringState::AwaitColumnNullable
                | AuthoringState::AwaitColumnLength => self.columns_done < self.columns_total,
            AuthoringState::AwaitPersist => self.columns_done <= self.columns_total,
            AuthoringState::Done => true,
        }
    }

    /// Starts the protocol for a migration authored at `t` under `name`; the
    /// directory is placed under the migration root and named so that its
    /// lexicographic order equals chronological order.
    pub fn new(t: &crate::timestamp::Timestamp, name: String) -> (r: MigrationAuthoring)
        requires
            t.wf(),
        ensures
            r.wf(),
            r.state is AwaitMarker,
            r.name == name,
            r.dir_name@ == "config/database/migrations/"@ + crate::timestamp::spec_dir_name(
                *t,
                name@,
            ),
            r.up_sql@ == Seq::<char>::empty(),
            r.down_sql@ == Seq::<char>::empty(),
            r.outcome@ == Seq::<char>::empty(),
            r.table@ == Seq::<char>::empty(),
            r.columns_total == 0,
            r.columns_done == 0,
    {
        let mut dir_name: String = "config/database/migrations/".to_owned();
        let suffix = crate::timestamp::migration_dir_name(t, name.as_str());
        dir_name.append(suffix.as_str());
        MigrationAuthoring {
            state: AuthoringState::AwaitMarker,
            name,
            dir_name,
            outcome: String::new(),
            table: String::new(),
            columns_total: 0,
            columns_done: 0,
            cur_col: ColumnSpec {
                name: String::new(),
                ty: LogicalType::Integer,
                length: 0,
                constraints: String::new(),
                nullable: true,
            },
            up_sql: String::new(),
            down_sql: String::new(),
        }
    }

    /// The action the caller must perform in the current state.
    pub fn next_action(&self) -> (r: AuthoringAction)
        ensures
            match self.state {
                AuthoringState::AwaitMarker => r is CheckMarker,
                AuthoringState::AwaitDirCreate => (r matches AuthoringAction::CreateDir { path }
                    && path@ == self.dir_name@),
                AuthoringState::AwaitTableName => (r matches AuthoringAction::Prompt { message }
                    && message@ == "Enter the name of the table: "@),
                AuthoringState::AwaitColumnCount => (r matches AuthoringAction::Prompt { message }
                    && message@ == "Enter the number of columns: "@),
                AuthoringState::AwaitColumnName => (r matches AuthoringAction::Prompt { message }
                    && message@ == "Enter the name of the column: "@),
                AuthoringState::AwaitColumnType => (r matches AuthoringAction::Prompt { message }
                    && message@ == "Enter the type of the column: "@),
                AuthoringState::AwaitColumnConstraints => (r matches AuthoringAction::Prompt {
                    message,
                } && message@ == "Enter the constraints of the column: "@),
                AuthoringState::AwaitColumnNullable => (r matches AuthoringAction::Prompt {
                    message,
                } && message@ == "Is the column nullable? (y/n): "@),
                AuthoringState::AwaitColumnLength => (r matches AuthoringAction::Prompt { message }
                    && message@ == "Enter the length of the string: "@),
                AuthoringState::AwaitPersist => (r matches AuthoringAction::PersistScripts {
                    up_path,
                    down_path,
                    up_contents,
                    down_contents,
                } && up_path@ == self.dir_name@ + "/up.sql"@ && down_path@ == self.dir_name@
                    + "/down.sql"@ && up_contents@ == self.up_sql@ && down_contents@
                    == self.down_sql@),
                AuthoringState::Done => (r matches AuthoringAction::Finish { result } && result@
                    == self.outcome@),
            },
    {
        match self.state {
            AuthoringState::AwaitMarker => AuthoringAction::CheckMarker,
            AuthoringState::AwaitDirCreate => AuthoringAction::CreateDir {
                path: self.dir_name.clone(),
            },
            AuthoringState::AwaitTableName => AuthoringAction::Prompt {
                message: "Enter the name of the table: ".to_owned(),
            },
            AuthoringState::AwaitColumnCount => AuthoringAction::Prompt {
                message: "Enter the number of columns: ".to_owned(),
            },
            AuthoringState::AwaitColumnName => AuthoringAction::Prompt {
                message: "Enter the name of the column: ".to_owned(),
            },
            AuthoringState::AwaitColumnType => AuthoringAction::Prompt {
                message: "Enter the type of the column: ".to_owned(),
            },
            AuthoringState::AwaitColumnConstraints => AuthoringAction::Prompt {
                message: "Enter the constraints of the column: ".to_owned(),
            },
            AuthoringState::AwaitColumnNullable => AuthoringAction::Prompt {
                message: "Is the column nullable? (y/n): ".to_owned(),
            },
            AuthoringState::AwaitColumnLength => AuthoringAction::Prompt {
                message: "Enter the length of the string: ".to_owned(),
            },
            AuthoringState::AwaitPersist => {
                let mut up_path = self.dir_name.clone();
                up_path.append("/up.sql");
                let mut down_path = self.dir_name.clone();
                down_path.append("/down.sql");
                AuthoringAction::PersistScripts {
                    up_path,
                    down_path,
                    up_contents: self.up_sql.clone(),
                    down_contents: self.down_sql.clone(),
                }
            },
            AuthoringState::Done => AuthoringAction::Finish { result: self.outcome.clone() },
        }
    }

    /// Advances the protocol by one reported event.
    ///
    /// A missing marker or a directory collision moves straight to `Done`
    /// with the explanatory result, leaving both buffers exactly as they
    /// were, so nothing written earlier is altered. An unparsable count,
    /// type, nullability or length answer leaves the state unchanged, so the
    /// same prompt is asked again without consuming a column. A completed
    /// column appends to both buffers — the mirrored addition to each, the
    /// compensating drop to the down buffer — and asks for the buffers to be
    /// persisted before the next column begins.
    pub fn step(&mut self, event: AuthoringEvent)
        requires
            old(self).wf(),
        ensures
            final(self).wf(),
            match old(self).state {
                AuthoringState::AwaitMarker => match event {
                    AuthoringEvent::MarkerChecked { present } => if present {
                        *final(self) == (MigrationAuthoring {
                            state: AuthoringState::AwaitDirCreate,
                            ..*old(self)
                        })
                    } else {
                        *final(self) == (MigrationAuthoring {
                            state: AuthoringState::Done,
                            outcome: final(self).outcome,
                            ..*old(self)
                        }) && final(self).outcome@
                            == "This is why you can't have nice things"@
                    },
                    _ => *final(self) == *old(self),
                },
                AuthoringState::AwaitDirCreate => match event {
                    AuthoringEvent::DirCreated { created } => if created {
                        *final(self) == (MigrationAuthoring {
                            state: AuthoringState::AwaitTableName,
                            ..*old(self)
                        })
                    } else {
                        *final(self) == (MigrationAuthoring {
                            state: AuthoringState::Done,
                            outcome: final(self).outcome,
                            ..*old(self)
                        }) && final(self).outcome@ == "Migration already exists"@
                    },
                    _ => *final(self) == *old(self),
                },
                AuthoringState::AwaitTableName => match event {
                    AuthoringEvent::Line { text } => *final(self) == (MigrationAuthoring {
                        state: AuthoringState::AwaitColumnCount,
                        table: text,
                        ..*old(self)
                    }),
                    _ => *final(self) == *old(self),
                },
                AuthoringState::AwaitColumnCount => match event {
                    AuthoringEvent::Line { text } => match spec_u32_of(text@) {
                        Some(n) => if n == 0 {
                            *final(self) == (MigrationAuthoring {
                                state: AuthoringState::Done,
                                columns_total: 0u32,
                                outcome: final(self).outcome,
                                ..*old(self)
                            }) && final(self).outcome@ == old(self).name@
                        } else {
                            *final(self) == (MigrationAuthoring {
                                state: AuthoringState::AwaitColumnName,
                                columns_total: n,
                                ..*old(self)
                            })
                        },
                        None => *final(self) == *old(self),
                    },
                    _ => *final(self) == *old(self),
                },
                AuthoringState::AwaitColumnName => match event {
                    AuthoringEvent::Line { text } => *final(self) == (MigrationAuthoring {
                        state: AuthoringState::AwaitColumnType,
                        cur_col: (ColumnSpec { name: text, ..old(self).cur_col }),
                        ..*old(self)
                    }),
                    _ => *final(self) == *old(self),
                },
                AuthoringState::AwaitColumnType => match event {
                    AuthoringEvent::Line { text } => match spec_parse_logical_type(
                        lower_of(text@),
                    ) {
                        Some(ty) => *final(self) == (MigrationAuthoring {
                            state: AuthoringState::AwaitColumnConstraints,
                            cur_col: (ColumnSpec { ty: ty, ..old(self).cur_col }),
                            ..*old(self)
                        }),
                        None => *final(self) == *old(self),
                    },
                    _ => *final(self) == *old(self),
                },
                AuthoringState::AwaitColumnConstraints => match event {
                    AuthoringEvent::Line { text } => *final(self) == (MigrationAuthoring {
                        state: AuthoringState::AwaitColumnNullable,
                        cur_col: (ColumnSpec { constraints: text, ..old(self).cur_col }),
                        ..*old(self)
                    }),
                    _ => *final(self) == *old(self),
                },
                AuthoringState::AwaitColumnNullable => match event {
                    AuthoringEvent::Line { text } => match spec_parse_nullable(
                        lower_of(trim_of(text@)),
                    ) {
                        Some(b) => if old(self).cur_col.ty is Str {
                            *final(self) == (MigrationAuthoring {
                                state: AuthoringState::AwaitColumnLength,
                                cur_col: (ColumnSpec { nullable: b, ..old(self).cur_col }),
                                ..*old(self)
                            })
                        } else {
                            ({
                                let c = (ColumnSpec { nullable: b, ..old(self).cur_col });
                                *final(self) == (MigrationAuthoring {
                                    state: AuthoringState::AwaitPersist,
                                    cur_col: c,
                                    columns_done: (old(self).columns_done + 1) as u32,
                                    up_sql: final(self).up_sql,
                                    down_sql: final(self).down_sql,
                                    ..*old(self)
                                }) && final(self).up_sql@ == old(self).up_sql@ + c.up_text(
                                    old(self).table@,
                                ) && final(self).down_sql@ == old(self).down_sql@ + c.down_text(
                                    old(self).table@,
                                )
                            })
                        },
                        None => *final(self) == *old(self),
                    },
                    _ => *final(self) == *old(self),
                },
                AuthoringState::AwaitColumnLength => match event {
                    AuthoringEvent::Line { text } => match spec_u32_of(text@) {
                        Some(len) => ({
                            let c = (ColumnSpec { length: len, ..old(self).cur_col });
                            *final(self) == (MigrationAuthoring {
                                state: AuthoringState::AwaitPersist,
                                cur_col: c,
                                columns_done: (old(self).columns_done + 1) as u32,
                                up_sql: final(self).up_sql,
                                down_sql: final(self).down_sql,
                                ..*old(self)
                            }) && final(self).up_sql@ == old(self).up_sql@ + c.up_text(
                                old(self).table@,
                            ) && final(self).down_sql@ == old(self).down_sql@ + c.down_text(
                                old(self).table@,
                            )
                        }),
                        None => *final(self) == *old(self),
                    },
                    _ => *final(self) == *old(self),
                },
                AuthoringState::AwaitPersist => match event {
                    AuthoringEvent::Persisted => if old(self).columns_done
                        == old(self).columns_total {
                        *final(self) == (MigrationAuthoring {
                            state: AuthoringState::Done,
                            outcome: final(self).outcome,
                            ..*old(self)
                        }) && final(self).outcome@ == old(self).name@
                    } else {
                        *final(self) == (MigrationAuthoring {
                            state: AuthoringState::AwaitColumnName,
                            ..*old(self)
                        })
                    },
                    _ => *final(self) == *old(self),
                },
                AuthoringState::Done => *final(self) == *old(self),
            },
    {
        match self.state {
            AuthoringState::AwaitMarker => {
                match event {
                    AuthoringEvent::MarkerChecked { present } => {
                        if present {
                            self.state = AuthoringState::AwaitDirCreate;
                        } else {
                            self.state = AuthoringState::Done;
                            self.outcome = "This is why you can't have nice things".to_owned();
                        }
                    },
                    _ => {},
                }
            },
            AuthoringState::AwaitDirCreate => {
                match event {
                    AuthoringEvent::DirCreated { created } => {
                        if created {
                            self.state = AuthoringState::AwaitTableName;
                        } else {
                            self.state = AuthoringState::Done;
                            self.outcome = "Migration already exists".to_owned();
                        }
                    },
                    _ => {},
                }
            },
            AuthoringState::AwaitTableName => {
                match event {
                    AuthoringEvent::Line { text } => {
                        self.table = text;
                        self.state = AuthoringState::AwaitColumnCount;
                    },
                    _ => {},
                }
            },
            AuthoringState::AwaitColumnCount => {
                match event {
                    AuthoringEvent::Line { text } => {
                        match parse_u32(text.as_str()) {
                            Some(n) => {
                                if n == 0 {
                                    self.columns_total = 0;
                                    self.state = AuthoringState::Done;
                                    self.outcome = self.name.clone();
                                } else {
                                    self.columns_total = n;
                                    self.state = AuthoringState::AwaitColumnName;
                                }
                            },
                            None => {},
                        }
                    },
                    _ => {},
                }
            },
            AuthoringState::AwaitColumnName => {
                match event {
                    AuthoringEvent::Line { text } => {
                        self.cur_col.name = text;
                        self.state = AuthoringState::AwaitColumnType;
                    },
                    _ => {},
                }
            },
            AuthoringState::AwaitColumnType => {
                match event {
                    AuthoringEvent::Line { text } => {
                        match parse_logical_type(text.as_str()) {
                            Some(ty) => {
                                self.cur_col.ty = ty;
                                self.state = AuthoringState::AwaitColumnConstraints;
                            },
                            None => {},
                        }
                    },
                    _ => {},
                }
            },
            AuthoringState::AwaitColumnConstraints => {
                match event {
                    AuthoringEvent::Line { text } => {
                        self.cur_col.constraints = text;
                        self.state = AuthoringState::AwaitColumnNullable;
                    },
                    _ => {},
                }
            },
            AuthoringState::AwaitColumnNullable => {
                match event {
                    AuthoringEvent::Line { text } => {
                        match parse_nullable(text.as_str()) {
                            Some(b) => {
                                self.cur_col.nullable = b;
                                match self.cur_col.ty {
                                    LogicalType::Str => {
                                        self.state = AuthoringState::AwaitColumnLength;
                                    },
                                    _ => {
                                        self.render_current_column();
                                    },
                                }
                            },
                            None => {},
                        }
                    },
                    _ => {},
                }
            },
            AuthoringState::AwaitColumnLength => {
                match event {
                    AuthoringEvent::Line { text } => {
                        match parse_u32(text.as_str()) {
                            Some(len) => {
                                self.cur_col.length = len;
                                self.render_current_column();
                            },
                            None => {},
                        }
                    },
                    _ => {},
                }
            },
            AuthoringState::AwaitPersist => {
                match event {
                    AuthoringEvent::Persisted => {
                        if self.columns_done == self.columns_total {
                            self.state = AuthoringState::Done;
                            self.outcome = self.name.clone();
                        } else {
                            self.state = AuthoringState::AwaitColumnName;
                        }
                    },
                    _ => {},
                }
            },
            AuthoringState::Done => {},
        }
    }

    /// Renders the current column into both buffers and moves to persisting.
    fn render_current_column(&mut self)
        requires
            old(self).wf(),
            old(self).state is AwaitColumnNullable || old(self).state is AwaitColumnLength,
        ensures
            *final(self) == (MigrationAuthoring {
                state: AuthoringState::AwaitPersist,
                columns_done: (old(self).columns_done + 1) as u32,
                up_sql: final(self).up_sql,
                down_sql: final(self).down_sql,
                ..*old(self)
            }),
            final(self).up_sql@ == old(self).up_sql@ + old(self).cur_col.up_text(
                old(self).table@,
            ),
            final(self).down_sql@ == old(self).down_sql@ + old(self).cur_col.down_text(
                old(self).table@,
            ),
            final(self).wf(),
    {
        append_column_up(&mut self.up_sql, self.table.as_str(), &self.cur_col);
        append_column_down(&mut self.down_sql, self.table.as_str(), &self.cur_col);
        self.columns_done = self.columns_done + 1;
        self.state = AuthoringState::AwaitPersist;
    }
}

/// The seeded initial migration's up script: it creates the `users` table.
pub fn initial_migration_up_sql() -> (r: String)
    ensures
        r@ == spec_initial_migration_up_sql(),
{
    "
       CREATE TABLE IF NOT EXISTS users (
    id SERIAL PRIMARY KEY,
    name VARCHAR(255) NOT NULL,
    email VARCHAR(255) NOT NULL,
    password VARCHAR(255) NOT NULL,
    created_at TIMESTAMP NOT NULL,
    updated_at TIMESTAMP NOT NULL
  );".to_owned()
}

/// The text of the seeded initial migration's up script.
pub open spec fn spec_initial_migration_up_sql() -> Seq<char> {
    "
       CREATE TABLE IF NOT EXISTS users (
    id SERIAL PRIMARY KEY,
    name VARCHAR(255) NOT NULL,
    email VARCHAR(255) NOT NULL,
    password VARCHAR(255) NOT NULL,
    created_at TIMESTAMP NOT NULL,
    updated_at TIMESTAMP NOT NULL
  );"@
}

/// The seeded initial migration's down script: it drops the `users` table.
pub fn initial_migration_down_sql() -> (r: String)
    ensures
        r@ == spec_initial_migration_down_sql(),
{
    "
    DROP TABLE IF EXISTS users;
    ".to_owned()
}

/// The text of the seeded initial migration's down script.
pub open spec fn spec_initial_migration_down_sql() -> Seq<char> {
    "
    DROP TABLE IF EXISTS users;
    "@
}

} // verus!
