//! The schema bootstrap: which step follows which, given how the last one
//! went, and the statement that each step hands to the store.
//!
//! The caller carries out one step at a time, starting with
//! [`SetupStep::CheckFile`], and asks [`Database::setup`] for the next one
//! until it is told to finish or to abort.

use vstd::prelude::*;
use crate::statement::{Fetch, Statement, StatementView};

verus! {

/// Name of the storage file inside the application's data directory.
pub const DB_NAME: &'static str = "onyx.db";

pub const JOURNAL_MODE_SQL: &'static str = "PRAGMA journal_mode=WAL;";

pub const CREATE_TABLE_SQL: &'static str =
    "CREATE TABLE IF NOT EXISTS notes (id INTEGER PRIMARY KEY AUTOINCREMENT, title TEXT NOT NULL, content TEXT, created_at DATETIME DEFAULT CURRENT_TIMESTAMP, updated_at DATETIME DEFAULT CURRENT_TIMESTAMP, pb_id TEXT)";

pub const COUNT_PB_ID_SQL: &'static str =
    "SELECT count(*) FROM pragma_table_info('notes') WHERE name='pb_id'";

pub const ADD_PB_ID_SQL: &'static str = "ALTER TABLE notes ADD COLUMN pb_id TEXT";

pub const CREATE_TRIGGER_SQL: &'static str =
    "CREATE TRIGGER IF NOT EXISTS update_note_timestamp AFTER UPDATE ON notes BEGIN UPDATE notes SET updated_at = CURRENT_TIMESTAMP WHERE id = old.id; END;";

/// One step of the bootstrap.
#[derive(Clone, Copy, Debug, PartialEq, Eq, Structural)]
pub enum SetupStep {
    /// Ask whether the storage file exists.
    CheckFile,
    /// Create the storage file.
    CreateFile,
    /// Open the connection pool.
    Connect,
    /// Switch the store to write-ahead logging.
    SetJournalMode,
    /// Create the table of notes unless it is there.
    CreateTable,
    /// Count the columns of the table that are named `pb_id`.
    CountColumn,
    /// Add the column `pb_id` to the table.
    AddColumn,
    /// Install the trigger that refreshes `updated_at` on every update.
    CreateTrigger,
    /// The store is ready: hand out the pool.
    Finish,
    /// The store cannot be used: stop the process.
    Abort,
}

/// How a step went.
#[derive(Clone, Copy, Debug, PartialEq, Eq, Structural)]
pub enum Outcome {
    /// It succeeded, with nothing to report.
    Done,
    /// The answer to `CheckFile`.
    Exists(bool),
    /// The answer to `CountColumn`.
    Count(i64),
    /// It failed.
    Failed,
}

impl SetupStep {
    /// After a final step nothing more is done.
    pub open spec fn is_final(self) -> bool {
        self == SetupStep::Finish || self == SetupStep::Abort
    }

    /// A failure of a fatal step aborts the bootstrap. The two questions
    /// and the added column are not fatal: an unanswered question counts as
    /// "no", and a column that cannot be added may be there already.
    pub open spec fn is_fatal(self) -> bool {
        self == SetupStep::CreateFile || self == SetupStep::Connect || self
            == SetupStep::SetJournalMode || self == SetupStep::CreateTable || self
            == SetupStep::CreateTrigger
    }

    /// The place of a step in the order in which steps are taken.
    pub open spec fn position(self) -> nat {
        match self {
            SetupStep::CheckFile => 0,
            SetupStep::CreateFile => 1,
            SetupStep::Connect => 2,
            SetupStep::SetJournalMode => 3,
            SetupStep::CreateTable => 4,
            SetupStep::CountColumn => 5,
            SetupStep::AddColumn => 6,
            SetupStep::CreateTrigger => 7,
            SetupStep::Finish => 8,
            SetupStep::Abort => 9,
        }
    }
}

/// The table has the column `pb_id`: the count came back, and is positive.
pub open spec fn column_present(outcome: Outcome) -> bool {
    outcome matches Outcome::Count(n) && n > 0
}

/// The step that follows `step` when `step` went as `outcome` says.
pub open spec fn next_step(step: SetupStep, outcome: Outcome) -> SetupStep {
    if step.is_final() {
        step
    } else if step.is_fatal() && outcome == Outcome::Failed {
        SetupStep::Abort
    } else {
        match step {
            SetupStep::CheckFile => if outcome == Outcome::Exists(true) {
                SetupStep::Connect
            } else {
                SetupStep::CreateFile
            },
            SetupStep::CreateFile => SetupStep::Connect,
            SetupStep::Connect => SetupStep::SetJournalMode,
            SetupStep::SetJournalMode => SetupStep::CreateTable,
            SetupStep::CreateTable => SetupStep::CountColumn,
            SetupStep::CountColumn => if column_present(outcome) {
                SetupStep::CreateTrigger
            } else {
                SetupStep::AddColumn
            },
            SetupStep::AddColumn => SetupStep::CreateTrigger,
            SetupStep::CreateTrigger => SetupStep::Finish,
            SetupStep::Finish => SetupStep::Finish,
            SetupStep::Abort => SetupStep::Abort,
        }
    }
}

/// The step at which a bootstrap stands after `k` steps that went as the
/// first `k` of `outcomes` say.
pub open spec fn step_at(outcomes: Seq<Outcome>, k: nat) -> SetupStep
    recommends
        k <= outcomes.len(),
    decreases k,
{
    if k == 0 {
        SetupStep::CheckFile
    } else {
        next_step(step_at(outcomes, (k - 1) as nat), outcomes[k - 1])
    }
}

/// The statement that `step` hands to the store, for the steps that have one.
pub open spec fn statement_of(step: SetupStep) -> Option<StatementView> {
    match step {
        SetupStep::SetJournalMode => Some(
            StatementView { sql: JOURNAL_MODE_SQL@, fetch: Fetch::Execute, binds: Seq::empty() },
        ),
        SetupStep::CreateTable => Some(
            StatementView { sql: CREATE_TABLE_SQL@, fetch: Fetch::Execute, binds: Seq::empty() },
        ),
        SetupStep::CountColumn => Some(
            StatementView { sql: COUNT_PB_ID_SQL@, fetch: Fetch::Scalar, binds: Seq::empty() },
        ),
        SetupStep::AddColumn => Some(
            StatementView { sql: ADD_PB_ID_SQL@, fetch: Fetch::Execute, binds: Seq::empty() },
        ),
        SetupStep::CreateTrigger => Some(
            StatementView { sql: CREATE_TRIGGER_SQL@, fetch: Fetch::Execute, binds: Seq::empty() },
        ),
        _ => None,
    }
}

/// The text of [`Database::failure_message`].
pub open spec fn failure_text(step: SetupStep, error: Seq<char>) -> Seq<char> {
    if step == SetupStep::CreateTable {
        "Database setup failed: "@ + error
    } else {
        error
    }
}

/// The schema manager.
pub struct Database;

impl Database {
    /// The address under which the store opens the file at `path`.
    pub fn db_url(path: &str) -> (url: String)
        ensures
            url@ == "sqlite:"@ + path@,
    {
        let mut url = String::from_str("sqlite:");
        url.append(path);
        url
    }

    /// The message with which the process stops when `step` has failed, given
    /// the store's own message: that message, behind the words
    /// "Database setup failed: " where the table of notes could not be created.
    pub fn failure_message(step: SetupStep, error: &str) -> (message: String)
        ensures
            message@ == failure_text(step, error@),
    {
        match step {
            SetupStep::CreateTable => {
                let mut message = String::from_str("Database setup failed: ");
                message.append(error);
                message
            },
            _ => String::from_str(error),
        }
    }

    /// The step to take after `step`, which went as `outcome` says.
    pub fn setup(step: SetupStep, outcome: Outcome) -> (next: SetupStep)
        ensures
            next == next_step(step, outcome),
    {
        let failed = match outcome {
            Outcome::Failed => true,
            _ => false,
        };
        match step {
            SetupStep::CheckFile => match outcome {
                Outcome::Exists(true) => SetupStep::Connect,
                _ => SetupStep::CreateFile,
            },
            SetupStep::CreateFile => if failed {
                SetupStep::Abort
            } else {
                SetupStep::Connect
            },
            SetupStep::Connect => if failed {
                SetupStep::Abort
            } else {
                SetupStep::SetJournalMode
            },
            SetupStep::SetJournalMode => if failed {
                SetupStep::Abort
            } else {
                SetupStep::CreateTable
            },
            SetupStep::CreateTable => if failed {
                SetupStep::Abort
            } else {
                SetupStep::CountColumn
            },
            SetupStep::CountColumn => match outcome {
                Outcome::Count(n) => if n > 0 {
                    SetupStep::CreateTrigger
                } else {
                    SetupStep::AddColumn
                },
                _ => SetupStep::AddColumn,
            },
            SetupStep::AddColumn => SetupStep::CreateTrigger,
            SetupStep::CreateTrigger => if failed {
                SetupStep::Abort
            } else {
                SetupStep::Finish
            },
            SetupStep::Finish => SetupStep::Finish,
            SetupStep::Abort => SetupStep::Abort,
        }
    }

    /// The statement that `step` hands to the store, if it has one.
    pub fn statement(step: SetupStep) -> (st: Option<Statement>)
        ensures
            match st {
                Some(s) => statement_of(step) == Some(s@),
                None => statement_of(step) is None,
            },
    {
        match step {
            SetupStep::SetJournalMode => Some(Statement::plain(JOURNAL_MODE_SQL, Fetch::Execute)),
            SetupStep::CreateTable => Some(Statement::plain(CREATE_TABLE_SQL, Fetch::Execute)),
            SetupStep::CountColumn => Some(Statement::plain(COUNT_PB_ID_SQL, Fetch::Scalar)),
            SetupStep::AddColumn => Some(Statement::plain(ADD_PB_ID_SQL, Fetch::Execute)),
            SetupStep::CreateTrigger => Some(Statement::plain(CREATE_TRIGGER_SQL, Fetch::Execute)),
            _ => None,
        }
    }
}

/// Every step that is not final is followed by a later one, and a final step
/// by itself.
pub proof fn lemma_setup_advances(step: SetupStep, outcome: Outcome)
    ensures
        step.is_final() ==> next_step(step, outcome) == step,
        !step.is_final() ==> next_step(step, outcome).position() > step.position(),
{
}

/// A bootstrap never goes back: of two moments the later one stands at the
/// later step, or both stand at the same final step.
pub proof fn lemma_setup_ordered(outcomes: Seq<Outcome>, i: nat, j: nat)
    requires
        i < j,
    ensures
        step_at(outcomes, i).position() <= step_at(outcomes, j).position(),
        step_at(outcomes, i).position() == step_at(outcomes, j).position() ==> step_at(
            outcomes,
            i,
        ).is_final(),
    decreases j,
{
    let before = step_at(outcomes, (j - 1) as nat);
    lemma_setup_advances(before, outcomes[j - 1]);
    if i < j - 1 {
        lemma_setup_ordered(outcomes, i, (j - 1) as nat);
    }
}

/// No step but a final one is taken twice. In particular the column is added
/// at most once.
pub proof fn lemma_setup_repeats_nothing(outcomes: Seq<Outcome>, i: nat, j: nat)
    requires
        i != j,
        step_at(outcomes, i) == step_at(outcomes, j),
    ensures
        step_at(outcomes, i).is_final(),
{
    if i < j {
        lemma_setup_ordered(outcomes, i, j);
    } else {
        lemma_setup_ordered(outcomes, j, i);
    }
}

/// After eight steps at the latest the bootstrap is over.
pub proof fn lemma_setup_ends(outcomes: Seq<Outcome>, k: nat)
    requires
        k >= 8,
    ensures
        step_at(outcomes, k).is_final(),
{
    lemma_setup_reaches(outcomes, 8);
    if k > 8 {
        lemma_setup_ordered(outcomes, 8, k);
    }
}

/// After `k` steps the bootstrap stands at position `k` or later.
proof fn lemma_setup_reaches(outcomes: Seq<Outcome>, k: nat)
    requires
        k <= 8,
    ensures
        step_at(outcomes, k).position() >= k,
    decreases k,
{
    if k > 0 {
        lemma_setup_reaches(outcomes, (k - 1) as nat);
        lemma_setup_advances(step_at(outcomes, (k - 1) as nat), outcomes[k - 1]);
    }
}

/// Where the table has the column already, the column is not added: a
/// bootstrap whose count of the column comes back positive never reaches
/// `AddColumn`. No step drops a column.
pub proof fn lemma_present_column_is_kept(outcomes: Seq<Outcome>, k: nat)
    requires
        forall|i: nat|
            #[trigger] step_at(outcomes, i) == SetupStep::CountColumn ==> column_present(
                outcomes[i as int],
            ),
    ensures
        step_at(outcomes, k) != SetupStep::AddColumn,
{
    if k > 0 {
        let before = step_at(outcomes, (k - 1) as nat);
        assert(before == SetupStep::CountColumn ==> column_present(outcomes[k - 1]));
    }
}

/// A bootstrap aborts only when a fatal step fails: the step before the
/// first `Abort` was fatal and failed. A failure to add the column, or to
/// answer a question, never aborts it.
pub proof fn lemma_abort_follows_fatal_failure(outcomes: Seq<Outcome>, k: nat)
    requires
        step_at(outcomes, k) != SetupStep::Abort,
        step_at(outcomes, k + 1) == SetupStep::Abort,
    ensures
        step_at(outcomes, k).is_fatal(),
        outcomes[k as int] == Outcome::Failed,
{
}

/// A bootstrap in which no fatal step fails ends with `Finish`: once it is
/// over, the store is ready.
pub proof fn lemma_setup_finishes(outcomes: Seq<Outcome>, k: nat)
    requires
        forall|i: nat|
            (#[trigger] step_at(outcomes, i)).is_fatal() ==> outcomes[i as int] != Outcome::Failed,
        step_at(outcomes, k).is_final(),
    ensures
        step_at(outcomes, k) == SetupStep::Finish,
    decreases k,
{
    if k > 0 {
        let before = step_at(outcomes, (k - 1) as nat);
        assert(before.is_fatal() ==> outcomes[k - 1] != Outcome::Failed);
        if before.is_final() {
            lemma_setup_finishes(outcomes, (k - 1) as nat);
        }
    }
}

} // verus!
