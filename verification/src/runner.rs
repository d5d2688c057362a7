//! The migration runner's decisions: which files of a migration batch are
//! applied, in which order, for which dialects, and how each failure is
//! reported.
//!
//! The caller owns the connection and executes each script; the
//! [`MigrationRun`] state machine hands it the files strictly in ascending
//! name order and records the outcome, so a failure names the file that
//! caused it and everything applied before it stays applied.

use vstd::prelude::*;

verus! {

use vstd::seq_lib::group_to_multiset_ensures;
use vstd::multiset::Multiset;
use vstd::string::StringExecFns;
use crate::database::DatabaseType;
use crate::text::chars_of;
use crate::text::lex_le;
use crate::text::lex_lt;
use crate::text::lemma_lex_connex;
use crate::text::lemma_lex_lt_asym;
use crate::text::lemma_lex_lt_trans;
use crate::text::str_lex_lt;

/// What stopped, or could stop, a migration run.
#[derive(Debug, Clone, PartialEq, Eq)]
pub enum CustomMigrationError {
    /// The dialect has no execution strategy.
    UnsupportedDialect { dialect: DatabaseType },
    /// Opening the connection failed.
    ConnectionError { cause: String },
    /// Reading one migration file failed.
    ReadError { file: String, cause: String },
    /// Executing one migration file failed.
    RunError { file: String, cause: String },
}

/// The lowercase name of a dialect.
pub open spec fn spec_dialect_name(d: DatabaseType) -> Seq<char> {
    match d {
        DatabaseType::Postgres => "postgres"@,
        DatabaseType::Mysql => "mysql"@,
        DatabaseType::Sqlite => "sqlite"@,
        DatabaseType::Mongo => "mongo"@,
    }
}

/// The lowercase name of a dialect.
pub fn dialect_name(d: DatabaseType) -> (r: String)
    ensures
        r@ == spec_dialect_name(d),
{
    match d {
        DatabaseType::Postgres => "postgres".to_owned(),
        DatabaseType::Mysql => "mysql".to_owned(),
        DatabaseType::Sqlite => "sqlite".to_owned(),
        DatabaseType::Mongo => "mongo".to_owned(),
    }
}

impl CustomMigrationError {
    /// The message of this error: the operation attempted, the file
    /// implicated, and the underlying cause.
    pub open spec fn spec_message(self) -> Seq<char> {
        match self {
            CustomMigrationError::UnsupportedDialect { dialect } =>
                "Migrations are not supported for this database type: "@ + spec_dialect_name(
                dialect,
            ),
            CustomMigrationError::ConnectionError { cause } => "Failed to connect to database: "@
                + cause@,
            CustomMigrationError::ReadError { file, cause } => "Failed to read migration file "@
                + file@ + ": "@ + cause@,
            CustomMigrationError::RunError { file, cause } => "Failed to execute migration "@
                + file@ + ": "@ + cause@,
        }
    }

    /// Renders the message of this error.
    pub fn message(&self) -> (r: String)
        ensures
            r@ == self.spec_message(),
    {
        match self {
            CustomMigrationError::UnsupportedDialect { dialect } => {
                let mut r: String = "Migrations are not supported for this database type: "
                    .to_owned();
                let name = dialect_name(*dialect);
                r.append(name.as_str());
                proof {
                    assert(r@ =~= self.spec_message());
                }
                r
            },
            CustomMigrationError::ConnectionError { cause } => {
                let mut r: String = "Failed to connect to database: ".to_owned();
                r.append(cause.as_str());
                proof {
                    assert(r@ =~= self.spec_message());
                }
                r
            },
            CustomMigrationError::ReadError { file, cause } => {
                let mut r: String = "Failed to read migration file ".to_owned();
                r.append(file.as_str());
                r.append(": ");
                r.append(cause.as_str());
                proof {
                    assert(r@ =~= self.spec_message());
                }
                r
            },
            CustomMigrationError::RunError { file, cause } => {
                let mut r: String = "Failed to execute migration ".to_owned();
                r.append(file.as_str());
                r.append(": ");
                r.append(cause.as_str());
                proof {
                    assert(r@ =~= self.spec_message());
                }
                r
            },
        }
    }
}

/// Whether a file name carries the `.sql` extension.
pub open spec fn spec_is_sql_file(s: Seq<char>) -> bool {
    s.len() >= 4 && s.subrange(s.len() - 4, s.len() as int) == seq!['.', 's', 'q', 'l']
}

/// Decides whether a file name carries the `.sql` extension.
pub fn is_sql_file(s: &str) -> (r: bool)
    ensures
        r == spec_is_sql_file(s@),
{
    let cs = chars_of(s);
    let n = cs.len();
    if n < 4 {
        return false;
    }
    let r = cs[n - 4] == '.' && cs[n - 3] == 's' && cs[n - 2] == 'q' && cs[n - 1] == 'l';
    proof {
        if r {
            assert(s@.subrange(s@.len() - 4, s@.len() as int) =~= seq!['.', 's', 'q', 'l']);
        } else {
            assert(s@.subrange(s@.len() - 4, s@.len() as int)[0] == s@[s@.len() - 4]);
            assert(s@.subrange(s@.len() - 4, s@.len() as int)[1] == s@[s@.len() - 3]);
            assert(s@.subrange(s@.len() - 4, s@.len() as int)[2] == s@[s@.len() - 2]);
            assert(s@.subrange(s@.len() - 4, s@.len() as int)[3] == s@[s@.len() - 1]);
        }
    }
    r
}

/// Names in non-decreasing lexicographic order.
pub open spec fn lex_sorted(s: Seq<String>) -> bool {
    forall|i: int, j: int| 0 <= i < j < s.len() ==> lex_le(#[trigger] s[i]@, #[trigger] s[j]@)
}

/// Sorts file names into non-decreasing lexicographic order, keeping exactly
/// the same names.
pub fn sort_file_names(input: Vec<String>) -> (r: Vec<String>)
    ensures
        lex_sorted(r@),
        r@.to_multiset() == input@.to_multiset(),
{
    let ghost orig = input@;
    let mut src = input;
    let mut out: Vec<String> = Vec::new();
    proof {
        broadcast use group_to_multiset_ensures;

        assert(src@.to_multiset().add(out@.to_multiset()) =~= orig.to_multiset());
    }
    while src.len() > 0
        invariant
            lex_sorted(out@),
            src@.to_multiset().add(out@.to_multiset()) == orig.to_multiset(),
        decreases src@.len(),
    {
        proof {
            broadcast use group_to_multiset_ensures;

            assert(src@ =~= src@.subrange(0, src@.len() - 1).push(src@.last()));
        }
        let x = src.pop().unwrap();
        let mut i: usize = 0;
        while i < out.len() && !str_lex_lt(x.as_str(), out[i].as_str())
            invariant
                i <= out@.len(),
                forall|k: int| 0 <= k < i ==> lex_le(#[trigger] out@[k]@, x@),
            decreases out@.len() - i,
        {
            i = i + 1;
        }
        proof {
            broadcast use group_to_multiset_ensures;

            if (i as int) < out@.len() {
                assert(lex_lt(x@, out@[i as int]@));
                lemma_lex_lt_asym(x@, out@[i as int]@);
            }
            let new = out@.insert(i as int, x);
            assert forall|m: int, n: int| 0 <= m < n < new.len() implies lex_le(
                #[trigger] new[m]@,
                #[trigger] new[n]@,
            ) by {
                if n < i {
                } else if m < i && n == i {
                } else if m == i {
                    assert(new[n]@ == out@[n - 1]@);
                    if i < n - 1 {
                        lemma_lex_le_trans(x@, out@[i as int]@, out@[n - 1]@);
                    }
                } else if m < i {
                    assert(new[m]@ == out@[m]@);
                    assert(new[n]@ == out@[n - 1]@);
                } else {
                    assert(new[m]@ == out@[m - 1]@);
                    assert(new[n]@ == out@[n - 1]@);
                }
            }
            assert(src@.to_multiset().add(new.to_multiset()) =~= orig.to_multiset());
        }
        out.insert(i, x);
    }
    proof {
        broadcast use group_to_multiset_ensures;

        assert(src@.to_multiset() =~= Multiset::<String>::empty());
        assert(out@.to_multiset() =~= orig.to_multiset());
    }
    out
}

/// Order at or above is transitive.
pub proof fn lemma_lex_le_trans(a: Seq<char>, b: Seq<char>, c: Seq<char>)
    requires
        lex_le(a, b),
        lex_le(b, c),
    ensures
        lex_le(a, c),
{
    if lex_lt(c, a) {
        lemma_lex_connex(a, b);
        if lex_lt(a, b) {
            lemma_lex_lt_trans(c, a, b);
        }
    }
}

/// Keeps exactly the `.sql` entries of `input`.
fn filter_sql_files(input: Vec<String>) -> (r: Vec<String>)
    ensures
        r@.to_multiset() == input@.filter(|s: String| spec_is_sql_file(s@)).to_multiset(),
{
    let ghost orig = input@;
    let ghost p = |s: String| spec_is_sql_file(s@);
    let mut src = input;
    let mut kept: Vec<String> = Vec::new();
    proof {
        broadcast use group_to_multiset_ensures;

        assert(src@.filter(p).to_multiset().add(kept@.to_multiset()) =~= orig.filter(
            p,
        ).to_multiset());
    }
    while src.len() > 0
        invariant
            src@.filter(p).to_multiset().add(kept@.to_multiset()) == orig.filter(p).to_multiset(),
            p == (|s: String| spec_is_sql_file(s@)),
        decreases src@.len(),
    {
        proof {
            broadcast use group_to_multiset_ensures;
            reveal(Seq::filter);

            assert(src@.drop_last() =~= src@.subrange(0, src@.len() - 1));
        }
        let x = src.pop().unwrap();
        let ghost before = src@.push(x);
        proof {
            assert(before.drop_last() =~= src@);
            assert(before.last() == x);
        }
        if is_sql_file(x.as_str()) {
            proof {
                broadcast use group_to_multiset_ensures;
                reveal(Seq::filter);

                assert(before.filter(p) == src@.filter(p).push(x));
                assert(src@.filter(p).to_multiset().add(kept@.to_multiset().insert(x)) =~= before
                    .filter(p)
                    .to_multiset()
                    .add(kept@.to_multiset()));
            }
            kept.push(x);
        } else {
            proof {
                reveal(Seq::filter);

                assert(before.filter(p) == src@.filter(p));
            }
        }
    }
    proof {
        broadcast use group_to_multiset_ensures;
        reveal(Seq::filter);

        assert(src@.filter(p) =~= Seq::<String>::empty());
        assert(kept@.to_multiset() =~= orig.filter(p).to_multiset());
    }
    kept
}

/// How far one migration run has come.
#[derive(Debug, Clone, Copy, PartialEq, Eq, Structural)]
pub enum RunnerState {
    Connecting,
    Applying,
    Done,
    Failed,
}

/// One run of a migration batch against one target: the `.sql` files of the
/// batch, in strictly ascending name order, applied one at a time.
///
/// An unsupported dialect is rejected before anything else happens — in
/// particular, before any file is read. A failure while connecting, reading
/// or executing moves the run to `Failed` and records which file failed and
/// why; files applied earlier stay applied. Nothing records an applied batch
/// anywhere, so a second run re-executes every file.
#[derive(Debug, Clone, PartialEq, Eq)]
pub struct MigrationRun {
    pub files: Vec<String>,
    pub next: usize,
    pub state: RunnerState,
    pub error: Option<CustomMigrationError>,
}

impl MigrationRun {
    /// Applied files never outrun the batch, and exactly the failed runs
    /// carry an error.
    pub open spec fn wf(self) -> bool {
        &&& self.next <= self.files@.len()
        &&& (self.state is Failed <==> self.error is Some)
    }

    /// Plans a run: for SQLite and Postgres, the `.sql` files of the batch in
    /// non-decreasing name order; for MySQL and Mongo, the distinguishable
    /// unsupported error, with no file read or touched.
    pub fn new(database_type: DatabaseType, file_names: Vec<String>) -> (r: Result<
        MigrationRun,
        CustomMigrationError,
    >)
        ensures
            match database_type {
                DatabaseType::Sqlite | DatabaseType::Postgres => (r matches Ok(run) && run.wf()
                    && run.state is Connecting && run.next == 0 && run.error is None && lex_sorted(
                    run.files@,
                ) && run.files@.to_multiset() == file_names@.filter(
                    |s: String| spec_is_sql_file(s@),
                ).to_multiset()),
                DatabaseType::Mysql | DatabaseType::Mongo => r == Err::<
                    MigrationRun,
                    CustomMigrationError,
                >(CustomMigrationError::UnsupportedDialect { dialect: database_type }),
            },
    {
        match database_type {
            DatabaseType::Sqlite | DatabaseType::Postgres => {
                let files = sort_file_names(filter_sql_files(file_names));
                Ok(
                    MigrationRun {
                        files,
                        next: 0,
                        state: RunnerState::Connecting,
                        error: None,
                    },
                )
            },
            DatabaseType::Mysql | DatabaseType::Mongo => Err(
                CustomMigrationError::UnsupportedDialect { dialect: database_type },
            ),
        }
    }

    /// The connection is open: applying may begin.
    pub fn connected(&mut self)
        requires
            old(self).wf(),
            old(self).state is Connecting,
        ensures
            final(self).wf(),
            *final(self) == (MigrationRun { state: RunnerState::Applying, ..*old(self) }),
    {
        self.state = RunnerState::Applying;
    }

    /// Opening the connection failed: the run fails with the cause, before
    /// any file was applied.
    pub fn connection_failed(&mut self, cause: String)
        requires
            old(self).wf(),
            old(self).state is Connecting,
        ensures
            final(self).wf(),
            *final(self) == (MigrationRun {
                state: RunnerState::Failed,
                error: Some(CustomMigrationError::ConnectionError { cause: cause }),
                ..*old(self)
            }),
    {
        self.state = RunnerState::Failed;
        self.error = Some(CustomMigrationError::ConnectionError { cause });
    }

    /// The file to apply next, in order; `None` once every file of the batch
    /// has been applied.
    pub fn current_file(&self) -> (r: Option<&String>)
        requires
            self.wf(),
            self.state is Applying,
        ensures
            match r {
                Some(f) => self.next < self.files@.len() && f == self.files@[self.next as int],
                None => self.next == self.files@.len(),
            },
    {
        if self.next < self.files.len() {
            Some(&self.files[self.next])
        } else {
            None
        }
    }

    /// The current file was executed: move to the next one.
    pub fn file_applied(&mut self)
        requires
            old(self).wf(),
            old(self).state is Applying,
            old(self).next < old(self).files@.len(),
        ensures
            final(self).wf(),
            *final(self) == (MigrationRun { next: (old(self).next + 1) as usize, ..*old(self) }),
    {
        proof {
            vstd::std_specs::vec::axiom_spec_len(&self.files);
        }
        self.next = self.next + 1;
    }

    /// Reading or executing the current file failed: the run fails, naming
    /// the file and the cause; files applied earlier stay applied.
    pub fn file_failed(&mut self, cause: String)
        requires
            old(self).wf(),
            old(self).state is Applying,
            old(self).next < old(self).files@.len(),
        ensures
            final(self).wf(),
            *final(self) == (MigrationRun {
                state: RunnerState::Failed,
                error: Some(
                    CustomMigrationError::RunError {
                        file: old(self).files@[old(self).next as int],
                        cause: cause,
                    },
                ),
                ..*old(self)
            }),
    {
        let file = self.files[self.next].clone();
        self.state = RunnerState::Failed;
        self.error = Some(CustomMigrationError::RunError { file, cause });
    }

    /// Reading the current file failed: the run fails, naming the file and
    /// the cause; files applied earlier stay applied.
    pub fn file_read_failed(&mut self, cause: String)
        requires
            old(self).wf(),
            old(self).state is Applying,
            old(self).next < old(self).files@.len(),
        ensures
            final(self).wf(),
            *final(self) == (MigrationRun {
                state: RunnerState::Failed,
                error: Some(
                    CustomMigrationError::ReadError {
                        file: old(self).files@[old(self).next as int],
                        cause: cause,
                    },
                ),
                ..*old(self)
            }),
    {
        let file = self.files[self.next].clone();
        self.state = RunnerState::Failed;
        self.error = Some(CustomMigrationError::ReadError { file, cause });
    }

    /// Every file of the batch was applied: the run is done.
    pub fn finish(&mut self)
        requires
            old(self).wf(),
            old(self).state is Applying,
            old(self).next == old(self).files@.len(),
        ensures
            final(self).wf(),
            *final(self) == (MigrationRun { state: RunnerState::Done, ..*old(self) }),
    {
        self.state = RunnerState::Done;
    }
}

/// The runner applies files in strictly ascending name order: once the
/// planned batch is sorted and its names are distinct — as directory entries
/// are — every file comes strictly after each file applied before it.
pub proof fn lemma_run_order_strictly_ascending(files: Seq<String>)
    requires
        lex_sorted(files),
        forall|i: int, j: int| 0 <= i < j < files.len() ==> (#[trigger] files[i]@) != (
        #[trigger] files[j]@),
    ensures
        forall|i: int, j: int|
            0 <= i < j < files.len() ==> lex_lt(#[trigger] files[i]@, #[trigger] files[j]@),
{
    assert forall|i: int, j: int| 0 <= i < j < files.len() implies lex_lt(
        #[trigger] files[i]@,
        #[trigger] files[j]@,
    ) by {
        lemma_lex_connex(files[i]@, files[j]@);
    }
}

} // verus!
