use std::cell::Cell;
use std::time::{Duration, Instant};

use atx::application::cancel::{
    GroupCancellation, ProcessCancellationError, ProcessGroupCanceller,
};
use atx::application::clock::{ClockError, WallClock};
use atx::application::history::{LogFiles, RunOutputStore};
use atx::application::list::{ManagementError, ManagementStore};
use atx::application::reconcile::{
    reconcile_startup, CommandFate, IdentityInspectionError, IdentityInspector, IdentityStatus,
    RecoveryAction, RecoveryStore,
};
use atx::application::submit::{SupervisorAckError, SupervisorAcknowledger};
use atx::cli::args::ManagementCommand;
use atx::cli::exit;
use atx::cli::cancel::{
    ask_to_stop, cancel_job, finish_job_cancellation, management_store_error, stop_step, RunStopper,
    StopStep,
};
use atx::cli::manage::{manage, ManageOutcome, ManageTools};
use atx::domain::duration::DurationSeconds;
use atx::domain::environment::Environment;
use atx::domain::execution::{
    ExecutionMode, ExecutionSpec, OutputPolicy, StdinPolicy, StoredExecution,
};
use atx::domain::id::{JobId, RunId};
use atx::domain::job::Job;
use atx::domain::primitives::{Revision, UtcTimestamp};
use atx::domain::recurrence::ElapsedInstant;
use atx::domain::run::{ClaimToken, ProcessIdentitySnapshot, Run, RunOutcome};
use atx::domain::schedule::{DstResolution, MissedPolicy, RuntimeTier, Schedule};
use atx::domain::state::{JobState, RunState};
use atx::domain::transition::TransitionActor;
use atx::infrastructure::paths::EntryFacts;
use atx::infrastructure::process::{NativeProcessInspector, ProcessError, ProcessTable};
use atx::infrastructure::sqlite::database::{
    apply_migrations, check_busy_timeout, check_database_file, map_read_error, missing_schema,
    read_pragmas, schema_wait, verify_pragmas, DatabaseFailure, SchemaWait, StoreError,
    CURRENT_SCHEMA_VERSION, INIT_SCHEMA_ATTEMPTS,
};
use atx::infrastructure::sqlite::job_row::JobRow;
use atx::infrastructure::sqlite::job_store::JobStore;
use atx::infrastructure::sqlite::tables::{Database, TransitionRow};
use atx::infrastructure::sqlite::reconcile::StartupStore;
use atx::infrastructure::sqlite::retention::{
    discover_orphan_artifacts, RetentionError, RetentionPolicy,
};
use atx::infrastructure::sqlite::run_row::{FinishColumns, RunRow, StartColumns};
use rusqlite::{Connection, OpenFlags, OptionalExtension, Params, Row};
use serde_json::Value;

// A database in memory --------------------------------------------------------------------------

const SCHEMA: &str = "
CREATE TABLE IF NOT EXISTS jobs(
    id TEXT PRIMARY KEY, revision INTEGER NOT NULL, name TEXT, description TEXT,
    created_at_utc TEXT NOT NULL, updated_at_utc TEXT NOT NULL,
    state TEXT NOT NULL CHECK (state IN ('scheduled', 'waiting', 'starting', 'running',
        'cancel_requested', 'succeeded', 'failed', 'cancelled', 'interrupted', 'missed')),
    runtime_tier TEXT NOT NULL, schedule_json TEXT NOT NULL, missed_policy TEXT NOT NULL,
    execution_json TEXT NOT NULL, next_due_utc TEXT NOT NULL,
    timezone_database_version TEXT NOT NULL, owner_uid INTEGER NOT NULL,
    hidden INTEGER NOT NULL DEFAULT 0);
CREATE TABLE IF NOT EXISTS runs(
    id TEXT PRIMARY KEY, job_id TEXT NOT NULL REFERENCES jobs(id) ON DELETE CASCADE,
    sequence INTEGER NOT NULL, scheduled_for_utc TEXT NOT NULL, created_at_utc TEXT NOT NULL,
    started_at_utc TEXT, finished_at_utc TEXT,
    state TEXT NOT NULL CHECK (state IN ('starting', 'running', 'cancel_requested', 'succeeded',
        'failed', 'cancelled', 'interrupted')),
    claim_token BLOB NOT NULL CHECK (length(claim_token) = 32),
    monitor_identity_json TEXT, command_identity_json TEXT, process_group_id INTEGER,
    exit_code INTEGER, terminating_signal INTEGER, failure TEXT, outcome_json TEXT,
    stdout_path TEXT, stderr_path TEXT,
    stdout_truncated INTEGER NOT NULL DEFAULT 0, stderr_truncated INTEGER NOT NULL DEFAULT 0,
    UNIQUE (job_id, scheduled_for_utc), UNIQUE (job_id, sequence));
CREATE TABLE IF NOT EXISTS transitions(
    id INTEGER PRIMARY KEY, job_id TEXT NOT NULL REFERENCES jobs(id) ON DELETE CASCADE,
    run_id TEXT, from_state TEXT NOT NULL, to_state TEXT NOT NULL, occurred_at_utc TEXT NOT NULL,
    actor TEXT NOT NULL, reason TEXT NOT NULL, revision INTEGER NOT NULL);
PRAGMA foreign_keys = ON;
";

const JOB_COLUMNS: &str = "id, revision, name, description, created_at_utc, updated_at_utc, state,
    runtime_tier, schedule_json, missed_policy, execution_json, next_due_utc,
    timezone_database_version, owner_uid";

const RUN_COLUMNS: &str = "id, job_id, sequence, scheduled_for_utc, created_at_utc,
    started_at_utc, finished_at_utc, state, claim_token, monitor_identity_json,
    command_identity_json, process_group_id, exit_code, terminating_signal, failure,
    outcome_json, stdout_path, stderr_path";

const ACTIVE: &str = "('starting', 'running', 'cancel_requested')";

const DONE: &str = "('succeeded', 'failed', 'cancelled', 'interrupted', 'missed')";

fn failure(error: rusqlite::Error) -> DatabaseFailure {
    let detail = error.to_string();
    match error {
        rusqlite::Error::SqliteFailure(inner, _) => match inner.code {
            rusqlite::ErrorCode::DatabaseBusy | rusqlite::ErrorCode::DatabaseLocked => {
                DatabaseFailure::Busy(detail)
            }
            rusqlite::ErrorCode::ConstraintViolation => DatabaseFailure::Constraint(detail),
            _ => DatabaseFailure::Other(detail),
        },
        _ => DatabaseFailure::Other(detail),
    }
}

fn object(fields: Vec<(&str, Value)>) -> Value {
    Value::Object(fields.into_iter().map(|(key, value)| (key.to_owned(), value)).collect())
}

fn text(value: &Value, key: &str) -> Result<String, String> {
    value[key].as_str().map(str::to_owned).ok_or_else(|| format!("missing field `{key}`"))
}

fn instant(value: &Value, key: &str) -> Result<UtcTimestamp, String> {
    text(value, key)?.parse().map_err(|_| format!("invalid `{key}`"))
}

fn span(value: &Value, key: &str) -> Result<DurationSeconds, String> {
    text(value, key)?.parse().map_err(|_| format!("invalid `{key}`"))
}

fn parse(source: &str) -> Result<Value, String> {
    serde_json::from_str(source).map_err(|error| error.to_string())
}

fn schedule_text(schedule: &Schedule) -> String {
    match schedule {
        Schedule::OneShotRelative { duration, persisted_due_utc } => object(vec![
            ("kind", Value::from("one_shot_relative")),
            ("duration", Value::from(duration.to_string())),
            ("persisted_due_utc", Value::from(persisted_due_utc.to_string())),
        ]),
        Schedule::OneShotAbsolute {
            original_input,
            timezone,
            timezone_database_version,
            resolved_due_utc,
            dst_resolution,
        } => object(vec![
            ("kind", Value::from("one_shot_absolute")),
            ("original_input", Value::from(original_input.as_str())),
            ("timezone", Value::from(timezone.as_str())),
            ("timezone_database_version", Value::from(timezone_database_version.as_str())),
            ("resolved_due_utc", Value::from(resolved_due_utc.to_string())),
            (
                "dst_resolution",
                Value::from(match dst_resolution {
                    DstResolution::Reject => "reject",
                    DstResolution::Earlier => "earlier",
                    DstResolution::Later => "later",
                }),
            ),
        ]),
        Schedule::RecurringInterval { interval, persisted_anchor_utc } => object(vec![
            ("kind", Value::from("recurring_interval")),
            ("interval", Value::from(interval.to_string())),
            ("persisted_anchor_utc", Value::from(persisted_anchor_utc.to_string())),
        ]),
    }
    .to_string()
}

fn schedule_of(source: &str) -> Result<Schedule, String> {
    let value = parse(source)?;
    match text(&value, "kind")?.as_str() {
        "one_shot_relative" => Ok(Schedule::one_shot_relative(
            span(&value, "duration")?,
            instant(&value, "persisted_due_utc")?,
        )),
        "one_shot_absolute" => Ok(Schedule::one_shot_absolute(
            text(&value, "original_input")?,
            text(&value, "timezone")?,
            text(&value, "timezone_database_version")?,
            instant(&value, "resolved_due_utc")?,
            match text(&value, "dst_resolution")?.as_str() {
                "reject" => DstResolution::Reject,
                "earlier" => DstResolution::Earlier,
                "later" => DstResolution::Later,
                _ => return Err("unknown resolution".to_owned()),
            },
        )),
        "recurring_interval" => Ok(Schedule::RecurringInterval {
            interval: span(&value, "interval")?,
            persisted_anchor_utc: instant(&value, "persisted_anchor_utc")?,
        }),
        _ => Err("unknown schedule".to_owned()),
    }
}

fn execution_text(stored: &StoredExecution) -> String {
    let optional = |path: &Option<String>| path.as_deref().map_or(Value::Null, Value::from);
    let variables =
        stored.environment.iter().map(|(key, value)| (key.as_str(), Value::from(value.as_str())));
    object(vec![
        (
            "mode",
            Value::from(match stored.mode {
                ExecutionMode::Direct => "direct",
                ExecutionMode::Shell => "shell",
            }),
        ),
        ("argv", Value::from(stored.argv.clone())),
        ("working_directory", Value::from(stored.working_directory.as_str())),
        ("environment", object(variables.collect())),
        ("stdin", Value::from("null")),
        ("stdout", Value::from("bounded_file")),
        ("stderr", Value::from("bounded_file")),
        ("shell_path", optional(&stored.shell_path)),
        ("notify_tty", optional(&stored.notify_tty)),
    ])
    .to_string()
}

fn execution_of(source: &str) -> Result<StoredExecution, String> {
    let value = parse(source)?;
    let argv = value["argv"].as_array().ok_or("missing argv")?;
    let environment = value["environment"].as_object().ok_or("missing environment")?;
    Ok(StoredExecution {
        mode: match text(&value, "mode")?.as_str() {
            "direct" => ExecutionMode::Direct,
            "shell" => ExecutionMode::Shell,
            _ => return Err("unknown mode".to_owned()),
        },
        argv: argv
            .iter()
            .map(|argument| argument.as_str().map(str::to_owned).ok_or("invalid argument"))
            .collect::<Result<Vec<String>, &str>>()?,
        working_directory: text(&value, "working_directory")?,
        environment: environment
            .iter()
            .map(|(key, value)| match value.as_str() {
                Some(value) => Ok((key.clone(), value.to_owned())),
                None => Err("invalid variable"),
            })
            .collect::<Result<Vec<(String, String)>, &str>>()?,
        stdin: StdinPolicy::Null,
        stdout: OutputPolicy::BoundedFile,
        stderr: OutputPolicy::BoundedFile,
        shell_path: value["shell_path"].as_str().map(str::to_owned),
        notify_tty: value["notify_tty"].as_str().map(str::to_owned),
    })
}

fn identity_text(identity: &ProcessIdentitySnapshot) -> String {
    object(vec![
        ("boot_identity", Value::from(identity.boot_identity.as_str())),
        ("pid", Value::from(identity.pid)),
        ("start_token", Value::from(identity.start_token)),
        ("process_group_id", Value::from(identity.process_group_id)),
    ])
    .to_string()
}

fn identity_of(source: &str) -> Result<ProcessIdentitySnapshot, String> {
    let value = parse(source)?;
    let number = |key: &str| value[key].as_i64().ok_or_else(|| format!("missing field `{key}`"));
    Ok(ProcessIdentitySnapshot {
        boot_identity: text(&value, "boot_identity")?,
        pid: u32::try_from(number("pid")?).map_err(|error| error.to_string())?,
        start_token: value["start_token"].as_u64().ok_or("missing start token")?,
        process_group_id: i32::try_from(number("process_group_id")?)
            .map_err(|error| error.to_string())?,
    })
}

fn outcome_text(outcome: &RunOutcome) -> String {
    let (kind, value) = match outcome {
        RunOutcome::Exit(code) => ("exit", Value::from(*code)),
        RunOutcome::Signal(signal) => ("signal", Value::from(*signal)),
        RunOutcome::Failure(reason) => ("failure", Value::from(reason.as_str())),
        RunOutcome::Interrupted(reason) => ("interrupted", Value::from(reason.as_str())),
        RunOutcome::Cancelled(reason) => ("cancelled", Value::from(reason.as_str())),
    };
    object(vec![("kind", Value::from(kind)), ("value", value)]).to_string()
}

fn outcome_of(source: &str) -> Result<RunOutcome, String> {
    let value = parse(source)?;
    let number = || {
        value["value"]
            .as_i64()
            .and_then(|number| i32::try_from(number).ok())
            .ok_or_else(|| "invalid number".to_owned())
    };
    match text(&value, "kind")?.as_str() {
        "exit" => Ok(RunOutcome::Exit(number()?)),
        "signal" => Ok(RunOutcome::Signal(number()?)),
        "failure" => Ok(RunOutcome::Failure(text(&value, "value")?)),
        "interrupted" => Ok(RunOutcome::Interrupted(text(&value, "value")?)),
        "cancelled" => Ok(RunOutcome::Cancelled(text(&value, "value")?)),
        _ => Err("unknown outcome".to_owned()),
    }
}

fn optional<T>(
    source: Option<String>,
    read: fn(&str) -> Result<T, String>,
) -> Result<Option<T>, String> {
    match source {
        Some(source) => read(&source).map(Some),
        None => Ok(None),
    }
}

fn job_row(row: &Row<'_>) -> rusqlite::Result<JobRow> {
    Ok(JobRow {
        id: row.get(0)?,
        revision: row.get(1)?,
        name: row.get(2)?,
        description: row.get(3)?,
        created_at_utc: row.get(4)?,
        updated_at_utc: row.get(5)?,
        state: row.get(6)?,
        runtime_tier: row.get(7)?,
        schedule: schedule_of(&row.get::<_, String>(8)?),
        missed_policy: row.get(9)?,
        execution: execution_of(&row.get::<_, String>(10)?),
        next_due_utc: row.get(11)?,
        timezone_database_version: row.get(12)?,
        owner_uid: row.get(13)?,
    })
}

fn run_row(row: &Row<'_>) -> rusqlite::Result<RunRow> {
    Ok(RunRow {
        id: row.get(0)?,
        job_id: row.get(1)?,
        sequence: row.get(2)?,
        scheduled_for_utc: row.get(3)?,
        created_at_utc: row.get(4)?,
        started_at_utc: row.get(5)?,
        finished_at_utc: row.get(6)?,
        state: row.get(7)?,
        claim_token: row.get(8)?,
        monitor_identity: optional(row.get(9)?, identity_of),
        command_identity: optional(row.get(10)?, identity_of),
        process_group_id: row.get(11)?,
        exit_code: row.get(12)?,
        terminating_signal: row.get(13)?,
        failure: row.get(14)?,
        outcome: optional(row.get(15)?, outcome_of),
        stdout_path: row.get(16)?,
        stderr_path: row.get(17)?,
    })
}

struct Sqlite(Connection);

impl Sqlite {
    fn in_memory() -> Sqlite {
        let connection = Connection::open_in_memory().expect("memory database");
        connection.execute_batch(SCHEMA).expect("schema");
        Sqlite(connection)
    }

    /// A connection to a database that all connections with the name share.
    fn shared(name: &str) -> Sqlite {
        let flags = OpenFlags::SQLITE_OPEN_READ_WRITE
            | OpenFlags::SQLITE_OPEN_CREATE
            | OpenFlags::SQLITE_OPEN_URI;
        let connection = Connection::open_with_flags(
            format!("file:{name}?mode=memory&cache=shared"),
            flags,
        )
        .expect("shared database");
        connection.busy_timeout(Duration::from_millis(25)).expect("timeout");
        connection.execute_batch(SCHEMA).expect("schema");
        Sqlite(connection)
    }

    fn write(&self, sql: &str, params: impl Params) -> Result<usize, DatabaseFailure> {
        self.0.execute(sql, params).map_err(failure)
    }

    fn jobs(&self, tail: &str, params: impl Params) -> Result<Vec<JobRow>, DatabaseFailure> {
        let mut statement = self
            .0
            .prepare(&format!("SELECT {JOB_COLUMNS} FROM jobs {tail}"))
            .map_err(failure)?;
        let rows = statement.query_map(params, job_row).map_err(failure)?;
        rows.collect::<rusqlite::Result<Vec<JobRow>>>().map_err(failure)
    }

    fn runs(&self, tail: &str, params: impl Params) -> Result<Vec<RunRow>, DatabaseFailure> {
        let mut statement = self
            .0
            .prepare(&format!("SELECT {RUN_COLUMNS} FROM runs {tail}"))
            .map_err(failure)?;
        let rows = statement.query_map(params, run_row).map_err(failure)?;
        rows.collect::<rusqlite::Result<Vec<RunRow>>>().map_err(failure)
    }
}

impl Database for Sqlite {
    fn begin(&mut self) -> Result<(), DatabaseFailure> {
        self.0.execute_batch("BEGIN IMMEDIATE").map_err(failure)
    }

    fn commit(&mut self) -> Result<(), DatabaseFailure> {
        self.0.execute_batch("COMMIT").map_err(failure)
    }

    fn rollback(&mut self) {
        let _ = self.0.execute_batch("ROLLBACK");
    }

    fn insert_job(&mut self, row: &JobRow) -> Result<usize, DatabaseFailure> {
        let schedule = match &row.schedule {
            Ok(schedule) => schedule_text(schedule),
            Err(source) => source.clone(),
        };
        let execution = match &row.execution {
            Ok(execution) => execution_text(execution),
            Err(source) => source.clone(),
        };
        self.write(
            &format!(
                "INSERT INTO jobs({JOB_COLUMNS}) VALUES
                 (?1, ?2, ?3, ?4, ?5, ?6, ?7, ?8, ?9, ?10, ?11, ?12, ?13, ?14)"
            ),
            (
                &row.id,
                row.revision,
                &row.name,
                &row.description,
                &row.created_at_utc,
                &row.updated_at_utc,
                &row.state,
                &row.runtime_tier,
                schedule,
                &row.missed_policy,
                execution,
                &row.next_due_utc,
                &row.timezone_database_version,
                row.owner_uid,
            ),
        )
    }

    fn find_job(&self, id: &str) -> Result<Option<JobRow>, DatabaseFailure> {
        Ok(self.jobs("WHERE id = ?1", [id])?.pop())
    }

    fn page_jobs(&self, after: Option<&str>, limit: i64) -> Result<Vec<JobRow>, DatabaseFailure> {
        self.jobs("WHERE (?1 IS NULL OR id > ?1) ORDER BY id LIMIT ?2", (after, limit))
    }

    fn delete_job(&mut self, id: &str, revision: i64) -> Result<usize, DatabaseFailure> {
        self.write("DELETE FROM jobs WHERE id = ?1 AND revision = ?2", (id, revision))
    }

    fn update_job_state(
        &mut self,
        id: &str,
        expected_revision: i64,
        expected_state: Option<&str>,
        revision: i64,
        state: &str,
        updated_at_utc: &str,
    ) -> Result<usize, DatabaseFailure> {
        self.write(
            "UPDATE jobs SET revision = ?1, state = ?2, updated_at_utc = ?3
             WHERE id = ?4 AND revision = ?5 AND (?6 IS NULL OR state = ?6)",
            (revision, state, updated_at_utc, id, expected_revision, expected_state),
        )
    }

    fn postpone_job(
        &mut self,
        id: &str,
        expected_revision: i64,
        revision: i64,
        updated_at_utc: &str,
        next_due_utc: &str,
    ) -> Result<usize, DatabaseFailure> {
        self.write(
            "UPDATE jobs SET revision = ?1, updated_at_utc = ?2, next_due_utc = ?3
             WHERE id = ?4 AND revision = ?5 AND state IN ('scheduled', 'waiting')",
            (revision, updated_at_utc, next_due_utc, id, expected_revision),
        )
    }

    fn requeue_job(
        &mut self,
        id: &str,
        expected_revision: i64,
        expected_state: &str,
        revision: i64,
        now: &str,
    ) -> Result<usize, DatabaseFailure> {
        self.write(
            "UPDATE jobs SET revision = ?1, state = 'waiting', updated_at_utc = ?2,
             next_due_utc = ?2 WHERE id = ?3 AND revision = ?4 AND state = ?5",
            (revision, now, id, expected_revision, expected_state),
        )
    }

    fn job_state_at(
        &self,
        id: &str,
        revision: i64,
        visible_only: bool,
    ) -> Result<Option<String>, DatabaseFailure> {
        self.0
            .query_row(
                "SELECT state FROM jobs
                 WHERE id = ?1 AND revision = ?2 AND (NOT ?3 OR hidden = 0)",
                (id, revision, visible_only),
                |row| row.get(0),
            )
            .optional()
            .map_err(failure)
    }

    fn hide_finished_job(&mut self, id: &str, revision: i64) -> Result<usize, DatabaseFailure> {
        self.write(
            &format!(
                "UPDATE jobs SET hidden = 1
                 WHERE id = ?1 AND revision = ?2 AND hidden = 0 AND state IN {DONE}"
            ),
            (id, revision),
        )
    }

    fn visible_jobs(
        &self,
        state: Option<&str>,
        after: &str,
        limit: i64,
    ) -> Result<Vec<JobRow>, DatabaseFailure> {
        self.jobs(
            "WHERE hidden = 0 AND (?1 = '' OR id > ?1) AND (?2 IS NULL OR state = ?2)
             ORDER BY id LIMIT ?3",
            (after, state, limit),
        )
    }

    fn visible_jobs_by_prefix(
        &self,
        prefix: &str,
        length: i64,
        limit: i64,
    ) -> Result<Vec<JobRow>, DatabaseFailure> {
        self.jobs(
            "WHERE hidden = 0 AND substr(id, 1, ?1) = ?2 ORDER BY id LIMIT ?3",
            (length, prefix, limit),
        )
    }

    fn unfinished_jobs(&self, limit: i64) -> Result<Vec<JobRow>, DatabaseFailure> {
        self.jobs(&format!("WHERE state NOT IN {DONE} ORDER BY id LIMIT ?1"), [limit])
    }

    fn insert_transition(&mut self, row: &TransitionRow) -> Result<usize, DatabaseFailure> {
        self.write(
            "INSERT INTO transitions(job_id, run_id, from_state, to_state, occurred_at_utc,
             actor, reason, revision) VALUES (?1, NULL, ?2, ?3, ?4, ?5, ?6, ?7)",
            (
                &row.job_id,
                &row.from_state,
                &row.to_state,
                &row.occurred_at_utc,
                &row.actor,
                &row.reason,
                row.revision,
            ),
        )
    }

    fn has_run(&self, job_id: &str, scheduled_for_utc: &str) -> Result<bool, DatabaseFailure> {
        self.0
            .query_row(
                "SELECT EXISTS(SELECT 1 FROM runs WHERE job_id = ?1 AND scheduled_for_utc = ?2)",
                (job_id, scheduled_for_utc),
                |row| row.get(0),
            )
            .map_err(failure)
    }

    fn last_sequence(&self, job_id: &str) -> Result<i64, DatabaseFailure> {
        self.0
            .query_row(
                "SELECT COALESCE(MAX(sequence), 0) FROM runs WHERE job_id = ?1",
                [job_id],
                |row| row.get(0),
            )
            .map_err(failure)
    }

    fn insert_run(&mut self, row: &RunRow) -> Result<usize, DatabaseFailure> {
        self.write(
            "INSERT INTO runs(id, job_id, sequence, scheduled_for_utc, created_at_utc, state,
             claim_token) VALUES (?1, ?2, ?3, ?4, ?5, ?6, ?7)",
            (
                &row.id,
                &row.job_id,
                row.sequence,
                &row.scheduled_for_utc,
                &row.created_at_utc,
                &row.state,
                &row.claim_token,
            ),
        )
    }

    fn find_run(&self, id: &str) -> Result<Option<RunRow>, DatabaseFailure> {
        Ok(self.runs("WHERE id = ?1", [id])?.pop())
    }

    fn start_run(
        &mut self,
        id: &str,
        token: &ClaimToken,
        columns: &StartColumns,
    ) -> Result<usize, DatabaseFailure> {
        self.write(
            "UPDATE runs SET started_at_utc = ?1, state = 'running', monitor_identity_json = ?2,
             command_identity_json = ?3, process_group_id = ?4, stdout_path = ?5,
             stderr_path = ?6 WHERE id = ?7 AND state = 'starting' AND claim_token = ?8",
            (
                &columns.started_at_utc,
                identity_text(&columns.monitor_identity),
                identity_text(&columns.command_identity),
                columns.process_group_id,
                &columns.stdout_path,
                &columns.stderr_path,
                id,
                token.as_bytes().as_slice(),
            ),
        )
    }

    fn finish_run(
        &mut self,
        id: &str,
        token: &ClaimToken,
        columns: &FinishColumns,
    ) -> Result<usize, DatabaseFailure> {
        self.write(
            &format!(
                "UPDATE runs SET finished_at_utc = ?1, state = ?2, exit_code = ?3,
                 terminating_signal = ?4, failure = ?5, outcome_json = ?6
                 WHERE id = ?7 AND state IN {ACTIVE} AND claim_token = ?8"
            ),
            (
                &columns.finished_at_utc,
                columns.state,
                columns.exit_code,
                columns.terminating_signal,
                &columns.failure,
                outcome_text(&columns.outcome),
                id,
                token.as_bytes().as_slice(),
            ),
        )
    }

    fn request_cancel(
        &mut self,
        id: &str,
        token: &ClaimToken,
        state: &str,
    ) -> Result<usize, DatabaseFailure> {
        self.write(
            "UPDATE runs SET state = 'cancel_requested'
             WHERE id = ?1 AND state = ?2 AND claim_token = ?3",
            (id, state, token.as_bytes().as_slice()),
        )
    }

    fn delete_runs_of(&mut self, job_id: &str) -> Result<usize, DatabaseFailure> {
        self.write("DELETE FROM runs WHERE job_id = ?1", [job_id])
    }

    fn completed_runs(
        &self,
        job_id: Option<&str>,
        limit: i64,
    ) -> Result<Vec<RunRow>, DatabaseFailure> {
        self.runs(
            &format!(
                "WHERE (?1 IS NULL OR job_id = ?1) AND state NOT IN {ACTIVE}
                 ORDER BY created_at_utc DESC, id DESC LIMIT ?2"
            ),
            (job_id, limit),
        )
    }

    fn active_runs(&self, limit: i64) -> Result<Vec<RunRow>, DatabaseFailure> {
        self.runs(
            &format!("WHERE state IN {ACTIVE} ORDER BY created_at_utc, id LIMIT ?1"),
            [limit],
        )
    }

    fn latest_active_run(&self, job_id: &str) -> Result<Option<RunRow>, DatabaseFailure> {
        Ok(self
            .runs(
                &format!("WHERE job_id = ?1 AND state IN {ACTIVE} ORDER BY sequence DESC LIMIT 1"),
                [job_id],
            )?
            .pop())
    }

    fn latest_run(&self, job_id: &str) -> Result<Option<RunRow>, DatabaseFailure> {
        Ok(self.runs("WHERE job_id = ?1 ORDER BY sequence DESC LIMIT 1", [job_id])?.pop())
    }

    fn runs_by_prefix(
        &self,
        prefix: &str,
        length: i64,
        limit: i64,
    ) -> Result<Vec<RunRow>, DatabaseFailure> {
        self.runs(
            "WHERE substr(id, 1, ?1) = ?2 ORDER BY id LIMIT ?3",
            (length, prefix, limit),
        )
    }

    fn truncation(&self, run_id: &str) -> Result<Option<(bool, bool)>, DatabaseFailure> {
        self.0
            .query_row(
                "SELECT stdout_truncated, stderr_truncated FROM runs WHERE id = ?1",
                [run_id],
                |row| Ok((row.get(0)?, row.get(1)?)),
            )
            .optional()
            .map_err(failure)
    }

    fn set_truncation(
        &mut self,
        run_id: &str,
        token: &ClaimToken,
        stdout_truncated: bool,
        stderr_truncated: bool,
    ) -> Result<usize, DatabaseFailure> {
        self.write(
            "UPDATE runs SET stdout_truncated = ?1, stderr_truncated = ?2
             WHERE id = ?3 AND claim_token = ?4",
            (stdout_truncated, stderr_truncated, run_id, token.as_bytes().as_slice()),
        )
    }

    fn delete_old_runs(&mut self, before: &str) -> Result<usize, DatabaseFailure> {
        self.write(
            &format!("DELETE FROM runs WHERE state IN {DONE} AND finished_at_utc < ?1"),
            [before],
        )
    }

    fn delete_old_transitions(&mut self, before: &str) -> Result<usize, DatabaseFailure> {
        self.write("DELETE FROM transitions WHERE occurred_at_utc < ?1", [before])
    }

    fn delete_old_jobs(&mut self, before: &str) -> Result<usize, DatabaseFailure> {
        self.write(
            &format!("DELETE FROM jobs WHERE state IN {DONE} AND updated_at_utc < ?1"),
            [before],
        )
    }
}

// Fixtures --------------------------------------------------------------------------------------

fn timestamp(second: i64) -> UtcTimestamp {
    UtcTimestamp::from_second(second).expect("valid timestamp")
}

fn new_store() -> JobStore<Sqlite> {
    JobStore::new(Sqlite::in_memory())
}

fn sql(store: &JobStore<Sqlite>, batch: &str) {
    store.database().0.execute_batch(batch).expect("batch");
}

fn sample_job(now: i64, due: i64) -> Job {
    let schedule =
        Schedule::one_shot_relative(DurationSeconds::new(30).expect("duration"), timestamp(due));
    let execution = ExecutionSpec::new(
        ExecutionMode::Direct,
        vec!["printf".to_owned(), "%s".to_owned(), "hello".to_owned()],
        "/tmp".to_owned(),
        Environment::from_pairs(vec![("TOKEN".to_owned(), "stored-secret".to_owned())])
            .ok()
            .expect("environment"),
    )
    .ok()
    .expect("execution");
    Job::new(timestamp(now), schedule, MissedPolicy::Hold, RuntimeTier::Session, execution, 501)
        .ok()
        .expect("job")
}

fn identity(pid: u32, start_token: u64, process_group_id: i32) -> ProcessIdentitySnapshot {
    ProcessIdentitySnapshot {
        boot_identity: "boot-a".to_owned(),
        pid,
        start_token,
        process_group_id,
    }
}

fn run_id(value: u128) -> RunId {
    RunId::from_u128(value)
}

/// A store with one job.
fn store_with_job() -> (JobStore<Sqlite>, Job) {
    let mut store = new_store();
    let job = sample_job(1_000, 1_030);
    store.create(&job).ok().expect("job");
    (store, job)
}

/// A store with one job and a claimed run of it.
fn store_with_claim() -> (JobStore<Sqlite>, Run) {
    let (mut store, job) = store_with_job();
    let run =
        store.claim_run(job.id(), timestamp(1_030), timestamp(1_001)).ok().expect("claim");
    (store, run)
}

fn start(store: &mut JobStore<Sqlite>, run: &Run, second: i64) -> Run {
    store
        .mark_run_running(
            run.id(),
            run.claim_token(),
            timestamp(second),
            identity(10, 100, 20),
            identity(11, 101, 20),
            "runs/out.log",
            "runs/err.log",
        )
        .ok()
        .expect("running")
}

/// A store with one job and a finished run of it.
fn store_with_finished_run() -> (JobStore<Sqlite>, Run) {
    let (mut store, run) = store_with_claim();
    let running = start(&mut store, &run, 1_002);
    store
        .record_run_terminal(
            running.id(),
            running.claim_token(),
            timestamp(1_003),
            RunOutcome::Exit(0),
        )
        .ok()
        .expect("complete");
    (store, running)
}

// Jobs ------------------------------------------------------------------------------------------

#[test]
fn crud_and_cursor_pagination_round_trip_validated_jobs() {
    let mut store = new_store();
    let jobs = [sample_job(1_000, 1_030), sample_job(2_000, 2_030), sample_job(3_000, 3_030)];
    for job in &jobs {
        store.create(job).ok().expect("create");
    }

    let first = store.list(None, 2).ok().expect("first page");
    assert_eq!(first.len(), 2);
    let second = store.list(Some(first[1].id()), 2).ok().expect("second page");
    assert_eq!(second.len(), 1);
    for job in &jobs {
        let loaded = store.load(job.id()).ok().expect("load").expect("present");
        assert!(&loaded == job);
    }

    store.delete(jobs[0].id(), jobs[0].revision()).ok().expect("delete");
    assert!(store.load(jobs[0].id()).ok().expect("load").is_none());
    assert!(store.list(None, 0).is_err());
    assert!(store.list(None, 101).is_err());
}

#[test]
fn transition_and_history_commit_with_revision_cas() {
    let (mut store, job) = store_with_job();
    let changed = store
        .transition_job(
            job.id(),
            job.revision(),
            JobState::Waiting,
            false,
            TransitionActor::Supervisor,
            "supervisor accepted job",
            timestamp(1_001),
        )
        .ok()
        .expect("transition");
    assert_eq!(changed.revision().get(), 2);
    assert_eq!(changed.state(), JobState::Waiting);
    assert!(matches!(
        store.transition_job(
            job.id(),
            job.revision(),
            JobState::CancelRequested,
            false,
            TransitionActor::Cli,
            "stale request",
            timestamp(1_002),
        ),
        Err(StoreError::Conflict)
    ));

    let history: u32 = store
        .database()
        .0
        .query_row("SELECT count(*) FROM transitions", [], |row| row.get(0))
        .expect("history count");
    assert_eq!(history, 1);
}

#[test]
fn corrupt_records_return_typed_errors() {
    let (store, job) = store_with_job();
    sql(&store, "PRAGMA ignore_check_constraints = ON; UPDATE jobs SET state = 'teleported'");
    assert!(matches!(store.load(job.id()), Err(StoreError::Corrupt(_))));
}

#[test]
fn history_failure_rolls_back_job_update() {
    let (mut store, job) = store_with_job();
    sql(
        &store,
        "CREATE TRIGGER reject_history BEFORE INSERT ON transitions
         BEGIN SELECT RAISE(ABORT, 'no history'); END;",
    );
    assert!(store
        .transition_job(
            job.id(),
            job.revision(),
            JobState::Waiting,
            false,
            TransitionActor::Supervisor,
            "must roll back",
            timestamp(1_001),
        )
        .is_err());
    assert!(
        store.load(job.id()).ok().expect("load").expect("job").revision() == job.revision()
    );
}

#[test]
fn busy_wait_is_bounded_by_connection_timeout() {
    let blocker = Sqlite::shared("busy_wait");
    let mut contender = JobStore::new(Sqlite::shared("busy_wait"));
    blocker.0.execute_batch("BEGIN IMMEDIATE").expect("write lock");
    let start = Instant::now();
    let result = contender.create(&sample_job(1_000, 1_030));
    assert!(matches!(result, Err(StoreError::Busy)));
    assert!(start.elapsed() < Duration::from_secs(1));
    blocker.0.execute_batch("ROLLBACK").expect("release lock");
}

#[test]
fn jobs_with_every_schedule_round_trip() {
    let mut store = new_store();
    let schedules = [
        Schedule::one_shot_absolute(
            "2030-01-01 09:00".to_owned(),
            "Europe/Paris".to_owned(),
            "2025a".to_owned(),
            timestamp(1_893_484_800),
            DstResolution::Later,
        ),
        Schedule::RecurringInterval {
            interval: DurationSeconds::new(90).expect("interval"),
            persisted_anchor_utc: timestamp(1_090),
        },
    ];
    for (number, schedule) in schedules.into_iter().enumerate() {
        let mut execution = ExecutionSpec::new(
            ExecutionMode::Shell,
            vec!["echo $HOME".to_owned()],
            "/".to_owned(),
            Environment::empty(),
        )
        .ok()
        .expect("execution");
        execution.set_shell_path("/bin/bash".to_owned()).ok().expect("shell");
        let second = 1_000 + i64::try_from(number).expect("small");
        let job = Job::new(
            timestamp(second),
            schedule,
            MissedPolicy::Skip,
            RuntimeTier::Durable,
            execution,
            7,
        )
        .ok()
        .expect("job");
        store.create(&job).ok().expect("create");
        assert!(store.load(job.id()).ok().expect("load").expect("job") == job);
        assert!(matches!(store.create(&job), Err(StoreError::AlreadyExists)));
    }
}

#[test]
fn deleting_needs_the_current_revision() {
    let (mut store, job) = store_with_job();
    let later = job.revision().next().expect("revision");
    assert!(matches!(store.delete(job.id(), later), Err(StoreError::Conflict)));
    assert!(store.load(job.id()).ok().expect("load").is_some());
}

// Runs ------------------------------------------------------------------------------------------

#[test]
fn unreadable_run_rows_surface_as_corrupt() {
    let (store, job) = store_with_job();
    let id = RunId::new();
    store
        .database()
        .0
        .execute(
            "INSERT INTO runs(id, job_id, sequence, scheduled_for_utc, created_at_utc, state, claim_token)
             VALUES (?1, ?2, 1, '2026-01-01T00:00:00Z', 'not-a-timestamp', 'starting', zeroblob(32))",
            (id.to_string(), job.id().to_string()),
        )
        .expect("seed corrupt row");
    assert!(matches!(store.load_run(id), Err(StoreError::Corrupt(_))));
}

#[test]
fn constraint_violation_at_claim_insert_maps_to_duplicate_claim() {
    let (mut store, job) = store_with_job();
    // Simulate a peer claiming the occurrence between the EXISTS pre-check
    // and the INSERT: the unique constraint fires on the insert itself.
    sql(
        &store,
        "CREATE TRIGGER reject_run_insert BEFORE INSERT ON runs
         BEGIN SELECT RAISE(ABORT, 'duplicate run'); END;",
    );
    assert!(matches!(
        store.claim_run(job.id(), timestamp(1_030), timestamp(1_001)),
        Err(StoreError::DuplicateClaim)
    ));
}

#[test]
fn claim_is_unique_per_occurrence_and_uses_random_token() {
    let (mut store, job) = store_with_job();
    let first =
        store.claim_run(job.id(), timestamp(1_030), timestamp(1_001)).ok().expect("claim");
    assert_eq!(first.sequence().get(), 1);
    assert_ne!(first.claim_token().as_bytes(), &[0; 32]);
    assert!(matches!(
        store.claim_run(job.id(), timestamp(1_030), timestamp(1_002)),
        Err(StoreError::DuplicateClaim)
    ));
}

#[test]
fn running_and_terminal_updates_are_checked_and_idempotent() {
    let (mut store, run) = store_with_claim();
    let run = start(&mut store, &run, 1_002);
    assert_eq!(run.state(), RunState::Running);
    let finished = timestamp(1_003);
    let completed = store
        .record_run_terminal(run.id(), run.claim_token(), finished, RunOutcome::Exit(0))
        .ok()
        .expect("complete");
    assert_eq!(completed.state(), RunState::Succeeded);
    let repeated = store
        .record_run_terminal(run.id(), run.claim_token(), finished, RunOutcome::Exit(0))
        .ok()
        .expect("idempotent");
    assert!(repeated == completed);
    assert!(matches!(
        store.record_run_terminal(run.id(), run.claim_token(), finished, RunOutcome::Signal(9)),
        Err(StoreError::Conflict)
    ));
}

#[test]
fn claimed_run_decodes_after_reopen() {
    let mut store = JobStore::new(Sqlite::shared("reopen"));
    let job = sample_job(1_000, 1_030);
    store.create(&job).ok().expect("job");
    let id = store
        .claim_run(job.id(), timestamp(1_030), timestamp(1_001))
        .ok()
        .expect("claim")
        .id();
    let reopened = JobStore::new(Sqlite::shared("reopen"));
    assert_eq!(reopened.load_run(id).ok().expect("load").expect("run").id(), id);
}

#[test]
fn cancellation_request_is_idempotent_and_natural_exit_wins() {
    let (mut store, run) = store_with_claim();
    let running = start(&mut store, &run, 1_002);
    let requested = store
        .request_run_cancellation(running.id(), running.claim_token())
        .ok()
        .expect("request");
    assert_eq!(requested.state(), RunState::CancelRequested);
    let repeated = store
        .request_run_cancellation(running.id(), running.claim_token())
        .ok()
        .expect("repeat");
    assert!(repeated == requested);
    let completed = store
        .record_run_terminal(
            running.id(),
            running.claim_token(),
            timestamp(1_003),
            RunOutcome::Exit(0),
        )
        .ok()
        .expect("natural completion");
    assert_eq!(completed.state(), RunState::Succeeded);
}

#[test]
fn load_run_returns_none_for_missing_id() {
    assert!(new_store().load_run(run_id(99)).ok().expect("load").is_none());
}

#[test]
fn wrong_claim_token_rejected_on_running_mark() {
    let (mut store, run) = store_with_claim();
    assert!(matches!(
        store.mark_run_running(
            run.id(),
            ClaimToken::from_bytes([9; 32]),
            timestamp(1_002),
            identity(10, 100, 20),
            identity(11, 101, 20),
            "runs/out.log",
            "runs/err.log",
        ),
        Err(StoreError::InvalidClaim)
    ));
}

#[test]
fn wrong_claim_token_rejected_on_terminal_record() {
    let (mut store, run) = store_with_claim();
    assert!(matches!(
        store.record_run_terminal(
            run.id(),
            ClaimToken::from_bytes([9; 32]),
            timestamp(1_002),
            RunOutcome::Exit(0),
        ),
        Err(StoreError::InvalidClaim)
    ));
}

#[test]
fn wrong_claim_token_rejected_on_cancellation_request() {
    let (mut store, run) = store_with_claim();
    assert!(matches!(
        store.request_run_cancellation(run.id(), ClaimToken::from_bytes([9; 32])),
        Err(StoreError::InvalidClaim)
    ));
}

#[test]
fn missing_run_is_not_found_on_every_path() {
    let mut store = new_store();
    let missing = run_id(7);
    // load_run reports absence as Ok(None), not an error.
    assert!(store.load_run(missing).ok().expect("load").is_none());
    assert!(matches!(
        store.mark_run_running(
            missing,
            ClaimToken::from_bytes([1; 32]),
            timestamp(1_002),
            identity(10, 100, 20),
            identity(11, 101, 20),
            "runs/out.log",
            "runs/err.log",
        ),
        Err(StoreError::NotFound)
    ));
    assert!(matches!(
        store.record_run_terminal(
            missing,
            ClaimToken::from_bytes([1; 32]),
            timestamp(1_002),
            RunOutcome::Exit(0),
        ),
        Err(StoreError::NotFound)
    ));
    assert!(matches!(
        store.request_run_cancellation(missing, ClaimToken::from_bytes([1; 32])),
        Err(StoreError::NotFound)
    ));
}

#[test]
fn marking_running_fails_when_run_is_not_starting() {
    let (mut store, run) = store_with_finished_run();
    // Run is terminal: the domain guard rejects before any DB write, surfaced as Domain.
    assert!(matches!(
        store.mark_run_running(
            run.id(),
            run.claim_token(),
            timestamp(1_004),
            identity(10, 100, 20),
            identity(11, 101, 20),
            "runs/out.log",
            "runs/err.log",
        ),
        Err(StoreError::Domain(_))
    ));
}

#[test]
fn terminal_record_conflicts_when_outcome_differs_after_terminal() {
    let (mut store, run) = store_with_finished_run();
    // Same finished time but a different outcome: terminal run, so it conflicts rather than idempotently returning.
    assert!(matches!(
        store.record_run_terminal(
            run.id(),
            run.claim_token(),
            timestamp(1_003),
            RunOutcome::Signal(9),
        ),
        Err(StoreError::Conflict)
    ));
}

#[test]
fn cancellation_conflicts_after_terminal_transition() {
    let (mut store, run) = store_with_finished_run();
    // Terminal run: request_cancellation leaves a terminal run untouched
    // (idempotent no-op branch), returning the same run id.
    let again = store
        .request_run_cancellation(run.id(), run.claim_token())
        .ok()
        .expect("already terminal");
    assert_eq!(again.id(), run.id());
    assert!(again.state().is_terminal());
}

#[test]
fn cancellation_requested_state_allows_natural_exit_then_conflicts_again() {
    let (mut store, run) = store_with_claim();
    let running = start(&mut store, &run, 1_002);
    store
        .request_run_cancellation(running.id(), running.claim_token())
        .ok()
        .expect("request");
    // cancel_requested is a valid pre-terminal state for record_run_terminal.
    let completed = store
        .record_run_terminal(
            running.id(),
            running.claim_token(),
            timestamp(1_003),
            RunOutcome::Cancelled("user".to_owned()),
        )
        .ok()
        .expect("cancelled completion");
    assert_eq!(completed.state(), RunState::Cancelled);
    // Now terminal: request_cancellation leaves a terminal run untouched
    // (idempotent no-op branch), returning the same run.
    let again = store
        .request_run_cancellation(running.id(), running.claim_token())
        .ok()
        .expect("already terminal");
    assert_eq!(again.id(), completed.id());
    assert!(again.state().is_terminal());
}

#[test]
fn claim_reuses_existing_run_row_without_touching_job_state() {
    let (mut store, job) = store_with_job();
    let first =
        store.claim_run(job.id(), timestamp(1_030), timestamp(1_001)).ok().expect("claim");
    let second =
        store.claim_run(job.id(), timestamp(1_031), timestamp(1_002)).ok().expect("claim");
    assert_ne!(first.id(), second.id());
    assert_eq!(second.sequence().get(), 2);
    assert_ne!(first.claim_token().as_bytes(), second.claim_token().as_bytes());
    // Job itself remains untouched (never started/running).
    assert_eq!(
        store.load_run(first.id()).ok().expect("load").expect("run").job_id(),
        job.id()
    );
    assert!(store.load(job.id()).ok().expect("load").expect("job") == job);
}

/// Seeds a row that the store would never write, and applies the updates to it.
fn seed_row(store: &JobStore<Sqlite>, job: &Job, id: RunId, updates: &str) {
    let connection = &store.database().0;
    connection.execute_batch("PRAGMA ignore_check_constraints = ON;").expect("disable checks");
    connection
        .execute(
            "INSERT INTO runs(
                id, job_id, sequence, scheduled_for_utc, created_at_utc, state,
                claim_token, stdout_path, stderr_path
             ) VALUES (?1, ?2, 1, '1970-01-01T00:00:01Z',
                '1970-01-01T00:00:01Z', 'starting', ?3, '', '')",
            (id.to_string(), job.id().to_string(), vec![0_u8; 32]),
        )
        .expect("seed");
    connection
        .execute(&format!("UPDATE runs SET {updates} WHERE id = ?1"), [id.to_string()])
        .expect("apply updates");
}

fn assert_corrupt(number: u128, updates: &str) {
    let (store, job) = store_with_job();
    seed_row(&store, &job, run_id(number), updates);
    assert!(
        matches!(store.load_run(run_id(number)), Err(StoreError::Corrupt(_))),
        "expected Corrupt decoding {updates}"
    );
}

#[test]
fn corrupt_row_unknown_state() {
    assert_corrupt(1, "state = 'bogus'");
}

#[test]
fn corrupt_row_bad_created_timestamp() {
    assert_corrupt(2, "created_at_utc = 'garbage'");
}

#[test]
fn corrupt_row_bad_scheduled_timestamp() {
    assert_corrupt(3, "scheduled_for_utc = 'nope'");
}

#[test]
fn corrupt_row_short_claim_token() {
    assert_corrupt(4, "claim_token = x'010203'");
}

#[test]
fn corrupt_row_process_group_mismatch() {
    assert_corrupt(
        5,
        "state = 'running', process_group_id = 99, command_identity_json =
         '{\"boot_identity\":\"b\",\"pid\":1,\"start_token\":1,\"process_group_id\":2}'",
    );
}

#[test]
fn corrupt_row_signal_columns_disagree() {
    assert_corrupt(
        7,
        "state = 'failed', outcome_json = '{\"kind\":\"signal\",\"value\":9}',
         terminating_signal = 9, exit_code = 0",
    );
}

#[test]
fn corrupt_row_failure_columns_disagree() {
    assert_corrupt(
        8,
        "state = 'failed', outcome_json = '{\"Failure\":\"boom\"}', failure = 'different',
         terminating_signal = 5",
    );
}

#[test]
fn corrupt_row_success_without_outcome_json() {
    // Terminal state carrying outcome columns but no outcome JSON.
    assert_corrupt(9, "state = 'succeeded', exit_code = 0");
}

#[test]
fn corrupt_row_outcome_columns_disagree() {
    assert_corrupt(
        6,
        "state = 'succeeded', outcome_json = '{\"kind\":\"exit\",\"value\":0}', exit_code = 7",
    );
}

#[test]
fn signal_and_failure_outcome_rows_decode() {
    let mut store = new_store();
    for (seed, outcome) in
        [(1_000, RunOutcome::Signal(9)), (2_000, RunOutcome::Failure("boom".to_owned()))]
    {
        let job = sample_job(seed, seed + 30);
        store.create(&job).ok().expect("job");
        let run = store
            .claim_run(job.id(), timestamp(seed + 30), timestamp(seed + 1))
            .ok()
            .expect("claim");
        let run = start(&mut store, &run, seed + 2);
        store
            .record_run_terminal(run.id(), run.claim_token(), timestamp(4_003), outcome.clone())
            .ok()
            .expect("complete");
        assert_eq!(
            store.load_run(run.id()).ok().expect("decode").expect("run").outcome(),
            Some(&outcome)
        );
    }
}

#[test]
fn non_constraint_claim_failures_pass_through_as_sqlite_errors() {
    let (mut store, job) = store_with_job();
    // A failing trigger that is not a constraint violation must not be
    // misreported as DuplicateClaim.
    sql(
        &store,
        "CREATE TRIGGER broken_run_insert BEFORE INSERT ON runs
         BEGIN INSERT INTO no_such_table VALUES (1); END;",
    );
    assert!(matches!(
        store.claim_run(job.id(), timestamp(1_030), timestamp(1_001)),
        Err(StoreError::Sqlite(_))
    ));
}

#[test]
fn lost_update_races_surface_as_conflict_on_every_transition() {
    let mut store = new_store();
    let job = sample_job(1_000, 1_100);
    store.create(&job).ok().expect("job");
    let claimed: Vec<Run> = (0..3)
        .map(|offset| {
            store
                .claim_run(job.id(), timestamp(1_030 + offset), timestamp(1_001))
                .ok()
                .expect("claim")
        })
        .collect();
    // Simulate a peer winning the row between our load and our UPDATE:
    // RAISE(IGNORE) silently skips the statement, so changed == 0.
    sql(
        &store,
        "CREATE TRIGGER ignore_run_updates BEFORE UPDATE ON runs
         BEGIN SELECT RAISE(IGNORE); END;",
    );
    assert!(matches!(
        store.mark_run_running(
            claimed[0].id(),
            claimed[0].claim_token(),
            timestamp(1_002),
            identity(10, 100, 20),
            identity(11, 101, 20),
            "runs/out.log",
            "runs/err.log",
        ),
        Err(StoreError::Conflict)
    ));
    assert!(matches!(
        store.record_run_terminal(
            claimed[1].id(),
            claimed[1].claim_token(),
            timestamp(1_003),
            RunOutcome::Exit(0),
        ),
        Err(StoreError::Conflict)
    ));
    assert!(matches!(
        store.request_run_cancellation(claimed[2].id(), claimed[2].claim_token()),
        Err(StoreError::Conflict)
    ));
}

#[test]
fn terminal_record_conflicts_when_finish_time_differs() {
    let (mut store, run) = store_with_finished_run();
    // Same outcome but a different finish time on an already-terminal run.
    assert!(matches!(
        store.record_run_terminal(
            run.id(),
            run.claim_token(),
            timestamp(1_004),
            RunOutcome::Exit(0),
        ),
        Err(StoreError::Conflict)
    ));
}

#[test]
fn non_decode_read_errors_stay_sqlite_errors() {
    let (store, _job) = store_with_job();
    sql(&store, "DROP TABLE runs;");
    assert!(matches!(store.load_run(run_id(50)), Err(StoreError::Sqlite(_))));
}

#[test]
fn outcome_column_combinations_validate_against_json() {
    let mut store = new_store();
    let cases: [(i64, &str, Option<RunOutcome>); 13] = [
        (21, "state='failed', outcome_json=NULL, terminating_signal=9", None),
        (22, "state='failed', outcome_json=NULL, failure='boom'", None),
        (
            23,
            "state='succeeded', outcome_json='{\"kind\":\"exit\",\"value\":0}', exit_code=5",
            None,
        ),
        (
            24,
            "state='succeeded', outcome_json='{\"kind\":\"exit\",\"value\":0}', exit_code=0, terminating_signal=9",
            None,
        ),
        (
            25,
            "state='succeeded', outcome_json='{\"kind\":\"exit\",\"value\":0}', exit_code=0, failure='boom'",
            None,
        ),
        (
            26,
            "state='failed', outcome_json='{\"kind\":\"signal\",\"value\":9}', terminating_signal=5",
            None,
        ),
        (
            27,
            "state='failed', outcome_json='{\"kind\":\"signal\",\"value\":9}', terminating_signal=9, exit_code=0",
            None,
        ),
        (
            28,
            "state='failed', outcome_json='{\"kind\":\"signal\",\"value\":9}', terminating_signal=9, failure='boom'",
            None,
        ),
        (
            29,
            "state='failed', outcome_json='{\"kind\":\"failure\",\"value\":\"a\"}', failure='b'",
            None,
        ),
        (
            30,
            "state='failed', outcome_json='{\"kind\":\"failure\",\"value\":\"a\"}', failure='a', exit_code=0",
            None,
        ),
        (
            31,
            "state='failed', outcome_json='{\"kind\":\"failure\",\"value\":\"a\"}', failure='a', terminating_signal=1",
            None,
        ),
        (
            32,
            "state='interrupted', outcome_json='{\"kind\":\"interrupted\",\"value\":\"a\"}', failure='a'",
            Some(RunOutcome::Interrupted("a".to_owned())),
        ),
        (
            33,
            "state='cancelled', outcome_json='{\"kind\":\"cancelled\",\"value\":\"a\"}', failure='a'",
            Some(RunOutcome::Cancelled("a".to_owned())),
        ),
    ];
    for (n, updates, want) in cases {
        let id = run_id(u128::try_from(n).expect("positive"));
        let job = sample_job(n * 1_000, n * 1_000 + 30);
        store.create(&job).ok().expect("job");
        seed_row(
            &store,
            &job,
            id,
            &format!("{updates}, finished_at_utc = '1970-01-01T00:00:02Z'"),
        );
        match want {
            Some(outcome) => assert_eq!(
                store.load_run(id).ok().expect("decode").expect("run").outcome(),
                Some(&outcome),
                "{updates}"
            ),
            None => assert!(
                matches!(store.load_run(id), Err(StoreError::Corrupt(_))),
                "{updates}"
            ),
        }
    }
}

// Management ------------------------------------------------------------------------------------

fn run_row_count(store: &JobStore<Sqlite>, job_id: String) -> i64 {
    store
        .database()
        .0
        .query_row("SELECT count(*) FROM runs WHERE job_id = ?1", [job_id], |row| row.get(0))
        .expect("run count")
}

/// A job with one claimed run, forced into a terminal state so that it can be hidden.
fn terminal_job_with_run(store: &mut JobStore<Sqlite>, seed: i64) -> Job {
    let job = sample_job(seed, seed + 30);
    store.create(&job).ok().expect("create job");
    store
        .claim_run(job.id(), timestamp(seed + 30), timestamp(seed + 1))
        .ok()
        .expect("claim run");
    store
        .database()
        .0
        .execute("UPDATE jobs SET state = 'succeeded' WHERE id = ?1", [job.id().to_string()])
        .expect("force terminal");
    job
}

#[test]
fn removal_drops_history_unless_kept() {
    let mut store = new_store();

    // Default removal hides the job and deletes its completed-run rows.
    let job = terminal_job_with_run(&mut store, 1_000);
    let hidden = store.hide_job(job.id(), job.revision(), false).ok().expect("hide");
    assert_eq!(run_row_count(&store, hidden.id().to_string()), 0);

    // --keep-history hides the job but keeps the run rows.
    let job = terminal_job_with_run(&mut store, 2_000);
    let hidden = store.hide_job(job.id(), job.revision(), true).ok().expect("hide");
    assert_eq!(run_row_count(&store, hidden.id().to_string()), 1);
}

#[test]
fn refused_removal_keeps_history() {
    let (mut store, run) = store_with_claim();
    let job = store.load(run.job_id()).ok().expect("load").expect("job");
    assert!(store.hide_job(job.id(), job.revision(), false).is_err());
    assert_eq!(run_row_count(&store, job.id().to_string()), 1);
    assert_eq!(store.list_jobs(None, None, 10).ok().expect("jobs").len(), 1);
}

#[test]
fn hidden_jobs_are_neither_listed_nor_rerun() {
    let mut store = new_store();
    let job = terminal_job_with_run(&mut store, 1_000);
    let prefix = job.id().to_string();
    assert_eq!(
        ManagementStore::find_jobs_by_prefix(&store, &prefix, 2).ok().expect("found").len(),
        1
    );
    store.hide_job(job.id(), job.revision(), true).ok().expect("hide");
    assert!(store.list_jobs(None, None, 10).ok().expect("jobs").is_empty());
    assert!(ManagementStore::find_jobs_by_prefix(&store, &prefix, 2)
        .ok()
        .expect("found")
        .is_empty());
    assert!(store.prepare_rerun(job.id(), job.revision(), timestamp(2_000)).is_err());
}

#[test]
fn reruns_wait_from_now_with_the_next_revision() {
    let mut store = new_store();
    let job = terminal_job_with_run(&mut store, 1_000);
    let rerun = store.prepare_rerun(job.id(), job.revision(), timestamp(2_000)).ok().expect("rerun");
    assert_eq!(rerun.state(), JobState::Waiting);
    assert_eq!(rerun.revision().get(), 2);
    assert!(rerun.next_due_utc() == timestamp(2_000));
    assert!(store.prepare_rerun(job.id(), job.revision(), timestamp(2_001)).is_err());
}

#[test]
fn runs_are_listed_latest_first_and_found_by_prefix() {
    let (mut store, first) = store_with_claim();
    let second = store
        .claim_run(first.job_id(), timestamp(1_031), timestamp(1_002))
        .ok()
        .expect("second claim");
    assert!(store.list_runs(None, 10).ok().expect("runs").is_empty());
    assert_eq!(store.active_runs().ok().expect("active").len(), 2);
    assert_eq!(
        store.latest_active_run(first.job_id()).ok().expect("latest").expect("run").id(),
        second.id()
    );
    assert_eq!(
        RunOutputStore::latest_run(&store, first.job_id()).ok().expect("latest").expect("run").id(),
        second.id()
    );
    let found =
        store.find_runs_by_prefix(&first.id().to_string(), 2).ok().expect("found by prefix");
    assert_eq!(found.len(), 1);
    assert_eq!(found[0].id(), first.id());

    for run in [&first, &second] {
        store
            .record_run_terminal(
                run.id(),
                run.claim_token(),
                timestamp(1_040),
                RunOutcome::Failure("spawn failed".to_owned()),
            )
            .ok()
            .expect("terminal");
    }
    let listed = store.list_runs(None, 10).ok().expect("runs");
    assert_eq!(listed.len(), 2);
    assert_eq!(listed[0].id(), second.id());
}

#[test]
fn history_lists_completed_runs_only() {
    let (mut store, first) = store_with_claim();
    let job = first.job_id();
    let second = store.claim_run(job, timestamp(1_031), timestamp(1_002)).ok().expect("second");
    let third = store.claim_run(job, timestamp(1_032), timestamp(1_003)).ok().expect("third");
    for run in [&first, &second] {
        store
            .record_run_terminal(
                run.id(),
                run.claim_token(),
                timestamp(1_040),
                RunOutcome::Failure("spawn failed".to_owned()),
            )
            .ok()
            .expect("terminal");
    }
    let history = |store: &mut JobStore<Sqlite>, job: Option<String>, limit: usize| {
        match run_command(store, ManagementCommand::History { job, limit }) {
            Ok(ManageOutcome::Runs(runs)) => {
                runs.iter().map(|run| (run.id(), run.state())).collect::<Vec<_>>()
            }
            _ => panic!("no history"),
        }
    };
    let all = vec![(second.id(), RunState::Failed), (first.id(), RunState::Failed)];
    assert_eq!(history(&mut store, None, 10), all);
    assert_eq!(history(&mut store, Some(job.to_string()), 10), all);
    // The limit counts completed runs: the latest run is still active.
    assert_eq!(history(&mut store, None, 1), all[..1].to_vec());
    assert_eq!(
        store.load_run(third.id()).ok().expect("load").expect("run").state(),
        RunState::Starting
    );
}

// Recovery --------------------------------------------------------------------------------------

struct UnusedInspector(Cell<usize>);

impl IdentityInspector for UnusedInspector {
    fn classify(
        &self,
        _identity: &ProcessIdentitySnapshot,
    ) -> Result<IdentityStatus, IdentityInspectionError> {
        self.0.set(self.0.get() + 1);
        Ok(IdentityStatus::Dead)
    }
}

#[test]
fn missed_job_recovery_is_atomic_and_idempotent() {
    let mut store = new_store();
    let job = sample_job(1, 100);
    store.create(&job).ok().expect("create");
    let waiting = store
        .transition_job(
            job.id(),
            job.revision(),
            JobState::Waiting,
            false,
            TransitionActor::Supervisor,
            "loaded",
            timestamp(2),
        )
        .ok()
        .expect("waiting");

    let mut startup =
        StartupStore::new(store, RetentionPolicy::new(30, 30).ok().expect("retention"));
    let plan = reconcile_startup(
        &mut startup,
        &UnusedInspector(Cell::new(0)),
        timestamp(200),
        ElapsedInstant::from_nanos(500),
        "boot",
    )
    .ok()
    .expect("reconcile");
    assert_eq!(plan.actions.len(), 1);
    assert_eq!(
        startup.store.load(waiting.id()).ok().expect("load").expect("job").state(),
        JobState::Missed
    );
    assert!(RecoveryStore::load_nonterminal(&startup).ok().expect("nonterminal").is_empty());
}

#[test]
fn interrupted_runs_are_closed_with_their_jobs() {
    let (mut store, run) = store_with_claim();
    let mut revision = store.load(run.job_id()).ok().expect("load").expect("job").revision();
    for state in [JobState::Waiting, JobState::Starting] {
        revision = store
            .transition_job(
                run.job_id(),
                revision,
                state,
                false,
                TransitionActor::Supervisor,
                "claimed",
                timestamp(1_010),
            )
            .ok()
            .expect("transition")
            .revision();
    }
    let mut startup =
        StartupStore::new(store, RetentionPolicy::new(30, 30).ok().expect("retention"));
    let plan = reconcile_startup(
        &mut startup,
        &UnusedInspector(Cell::new(0)),
        timestamp(1_100),
        ElapsedInstant::from_nanos(500),
        "boot",
    )
    .ok()
    .expect("reconcile");
    assert_eq!(plan.actions.len(), 1);
    let job = startup.store.load(run.job_id()).ok().expect("load").expect("job");
    assert_eq!(job.state(), JobState::Interrupted);
    let closed = startup.store.load_run(run.id()).ok().expect("load").expect("run");
    assert_eq!(closed.state(), RunState::Interrupted);
    assert!(matches!(closed.outcome(), Some(RunOutcome::Interrupted(_))));
}

#[test]
fn recovery_ends_the_run_before_it_changes_the_job() {
    let (mut store, run) = store_with_claim();
    let beyond_storage = Revision::new(u64::MAX).ok().expect("revision");
    let interruption = |token: ClaimToken| {
        vec![RecoveryAction::Interrupt {
            job_id: run.job_id(),
            expected_revision: beyond_storage,
            run: Some((run.id(), token)),
            command_fate: CommandFate::Unknown,
        }]
    };

    let refused = store.apply_recovery(&interruption(ClaimToken::from_bytes([7; 32])), timestamp(9));
    assert!(matches!(refused, Err(StoreError::Conflict)));
    let refused = store.apply_recovery(&interruption(run.claim_token()), timestamp(9));
    assert!(matches!(refused, Err(StoreError::Corrupt(_))));

    let kept = store.load_run(run.id()).ok().expect("load").expect("run");
    assert_eq!(kept.state(), run.state());
    assert!(kept.outcome().is_none());
}

// Retention -------------------------------------------------------------------------------------

fn state_name(state: JobState) -> &'static str {
    match state {
        JobState::Succeeded => "succeeded",
        JobState::Failed => "failed",
        JobState::Cancelled => "cancelled",
        JobState::Interrupted => "interrupted",
        JobState::Missed => "missed",
        _ => "invalid",
    }
}

#[test]
fn cleanup_covers_every_terminal_job_state_and_is_idempotent() {
    let mut store = new_store();
    for (offset, state) in [
        (0_i64, JobState::Succeeded),
        (1, JobState::Failed),
        (2, JobState::Cancelled),
        (3, JobState::Interrupted),
        (4, JobState::Missed),
    ] {
        let job = sample_job(1_000 + offset, 2_000 + offset);
        store.create(&job).ok().expect("job");
        store
            .database()
            .0
            .execute(
                "UPDATE jobs SET state = ?1, updated_at_utc = '1970-01-01T00:00:01Z'
                 WHERE id = ?2",
                (state_name(state), job.id().to_string()),
            )
            .expect("terminal fixture");
    }
    let now = timestamp(4_000_000);
    let policy = || RetentionPolicy::new(30, 30).ok().expect("policy");
    assert_eq!(store.cleanup_retention(now, policy()).ok().expect("cleanup").jobs, 5);
    assert_eq!(store.cleanup_retention(now, policy()).ok().expect("repeat").jobs, 0);
}

#[test]
fn orphan_discovery_ignores_known_runs_and_flags_unknown_entries() {
    let known = RunId::new();
    let orphan = RunId::new();
    let entries =
        vec![Some(known.to_string()), Some(orphan.to_string()), Some("unexpected".to_owned())];
    let found =
        discover_orphan_artifacts("/state/runs", entries, &vec![known]).ok().expect("discover");
    assert_eq!(found.len(), 2);
    assert!(found.iter().any(|path| path.ends_with(orphan.to_string().as_str())));
    assert!(found.iter().any(|path| path.ends_with("unexpected")));
    assert!(matches!(
        discover_orphan_artifacts("/state/runs", vec![None], &Vec::new()),
        Err(RetentionError::NonUtf8Artifact)
    ));
}

#[test]
fn truncation_flags_are_idempotent_and_bad_log_paths_are_corrupt() {
    let (mut store, run) = store_with_claim();
    for _ in 0..2 {
        store
            .record_log_truncation(run.id(), run.claim_token(), true, false)
            .ok()
            .expect("record flags");
    }
    let stdout_truncated: bool = store
        .database()
        .0
        .query_row(
            "SELECT stdout_truncated FROM runs WHERE id = ?1",
            [run.id().to_string()],
            |row| row.get(0),
        )
        .expect("flag");
    assert!(stdout_truncated);
    assert_eq!(store.stdout_truncated(run.id()).ok(), Some(true));
    assert_eq!(store.stderr_truncated(run.id()).ok(), Some(false));

    store
        .database()
        .0
        .execute(
            "UPDATE runs SET stdout_path = '../victim' WHERE id = ?1",
            [run.id().to_string()],
        )
        .expect("corrupt path");
    assert!(matches!(store.load_run(run.id()), Err(StoreError::Corrupt(_))));
}

#[test]
fn retention_policy_rejects_out_of_range_days() {
    for (history, terminal) in [(0, 30), (3_651, 30), (30, 0), (30, 3_651)] {
        assert!(RetentionPolicy::new(history, terminal).is_err());
    }
    assert!(RetentionPolicy::new(3_650, 3_650).is_ok());
}

#[test]
fn truncation_flags_require_the_live_claim() {
    let (mut store, run) = store_with_claim();
    store
        .database()
        .0
        .execute(
            "UPDATE runs SET claim_token = ?1 WHERE id = ?2",
            (vec![9_u8; 32], run.id().to_string()),
        )
        .expect("substitute token");
    assert!(matches!(
        store.record_log_truncation(run.id(), run.claim_token(), true, false),
        Err(StoreError::InvalidClaim)
    ));
}

// Opening a database ----------------------------------------------------------------------------

fn migrate(
    connection: &mut Connection,
    migrations: &[(u32, &str)],
    target: u32,
) -> Result<(), StoreError> {
    let current: u32 = connection
        .pragma_query_value(None, "user_version", |row| row.get(0))
        .expect("current version");
    let versions: Vec<u32> = migrations.iter().map(|migration| migration.0).collect();
    let pending = apply_migrations(current, &versions, target)?;
    if pending.is_empty() {
        return Ok(());
    }
    let run = |connection: &mut Connection| -> rusqlite::Result<()> {
        let transaction = connection.transaction()?;
        for index in pending {
            transaction.execute_batch(migrations[index].1)?;
        }
        transaction.pragma_update(None, "user_version", target)?;
        transaction.commit()
    };
    run(connection).map_err(|error| map_read_error(failure(error)))
}

fn version(connection: &Connection) -> u32 {
    connection.pragma_query_value(None, "user_version", |row| row.get(0)).expect("version")
}

fn tables_named(connection: &Connection, name: &str) -> u32 {
    connection
        .query_row(
            "SELECT count(*) FROM sqlite_schema WHERE type='table' AND name=?1",
            [name],
            |row| row.get(0),
        )
        .expect("table query")
}

#[test]
fn failed_migration_rolls_back_schema_and_version() {
    let mut connection = Connection::open_in_memory().expect("memory database");
    let result = migrate(
        &mut connection,
        &[(1, "CREATE TABLE first(value INTEGER);"), (2, "CREATE TABLE broken(")],
        2,
    );
    assert!(result.is_err());
    assert_eq!(version(&connection), 0);
    assert_eq!(tables_named(&connection, "first"), 0);
}

#[test]
fn migrations_above_target_version_are_skipped() {
    let mut connection = Connection::open_in_memory().expect("memory database");
    migrate(
        &mut connection,
        &[
            (1, "CREATE TABLE kept(value INTEGER);"),
            (2, "CREATE TABLE dropped(value INTEGER);"),
        ],
        1,
    )
    .ok()
    .expect("migrate to target");
    assert_eq!(version(&connection), 1);
    assert_eq!(tables_named(&connection, "kept"), 1);
    assert_eq!(tables_named(&connection, "dropped"), 0);
}

#[test]
fn migrations_resume_from_a_partially_applied_schema() {
    let mut connection = Connection::open_in_memory().expect("memory database");
    connection
        .execute_batch("CREATE TABLE first(value INTEGER); PRAGMA user_version=1;")
        .expect("seed schema");
    migrate(
        &mut connection,
        &[
            (1, "SELECT 1;"),
            (2, "CREATE TABLE second(value INTEGER);"),
            (3, "CREATE TABLE third(value INTEGER);"),
        ],
        3,
    )
    .ok()
    .expect("resume migrations");
    assert_eq!(version(&connection), 3);
    for table in ["first", "second", "third"] {
        assert_eq!(tables_named(&connection, table), 1, "{table}");
    }
}

#[test]
fn newer_schema_is_rejected_without_changes() {
    let mut connection = Connection::open_in_memory().expect("memory database");
    connection
        .pragma_update(None, "user_version", CURRENT_SCHEMA_VERSION + 1)
        .expect("newer version");
    assert!(matches!(
        migrate(&mut connection, &[(1, ""), (2, ""), (3, "")], CURRENT_SCHEMA_VERSION),
        Err(StoreError::NewerSchema { found, supported })
            if found == CURRENT_SCHEMA_VERSION + 1 && supported == CURRENT_SCHEMA_VERSION
    ));
    assert_eq!(version(&connection), CURRENT_SCHEMA_VERSION + 1);
}

#[test]
fn truncated_preexisting_database_is_rejected_not_rebuilt() {
    // A file that was there before and carries no schema is looked at a few times, then refused.
    let mut attempts_left = INIT_SCHEMA_ATTEMPTS;
    let mut retries = 0;
    loop {
        match schema_wait(false, 0, attempts_left) {
            SchemaWait::Retry(left) => {
                attempts_left = left;
                retries += 1;
            }
            SchemaWait::Missing => break,
            SchemaWait::Ready => panic!("an empty file is not ready"),
        }
    }
    assert_eq!(retries, INIT_SCHEMA_ATTEMPTS - 1);
    assert!(matches!(missing_schema(), StoreError::Corrupt(_)));

    // A database that was properly initialized stays openable.
    assert!(matches!(schema_wait(true, 0, INIT_SCHEMA_ATTEMPTS), SchemaWait::Ready));
    assert!(matches!(schema_wait(false, 3, INIT_SCHEMA_ATTEMPTS), SchemaWait::Ready));
}

#[test]
fn insecure_preexisting_database_files_are_rejected() {
    let private = EntryFacts {
        is_symlink: false,
        is_directory: false,
        is_file: true,
        is_socket: false,
        owner: 501,
        mode: 0o100600,
    };
    let link = EntryFacts { is_symlink: true, is_file: false, ..private };
    let loose = EntryFacts { mode: 0o100644, ..private };
    let directory = EntryFacts { is_directory: true, is_file: false, ..private };
    for entry in [link, loose, directory] {
        assert!(matches!(
            check_database_file(entry, 501),
            Err(StoreError::InsecureDatabaseFile)
        ));
    }
    assert!(check_database_file(private, 502).is_err());
    assert!(check_database_file(private, 501).is_ok());
}

#[test]
fn zero_busy_timeout_is_rejected() {
    assert!(matches!(
        check_busy_timeout(Duration::ZERO.as_nanos()),
        Err(StoreError::InvalidBusyTimeout)
    ));
}

#[test]
fn oversized_busy_timeout_is_rejected() {
    // One millisecond past SQLite's 32-bit busy-handler ceiling.
    assert!(matches!(
        check_busy_timeout(Duration::from_millis(2_147_483_648).as_nanos()),
        Err(StoreError::InvalidBusyTimeout)
    ));
    assert_eq!(
        check_busy_timeout(Duration::from_millis(2_147_483_647).as_nanos()).ok(),
        Some(2_147_483_647)
    );
}

#[test]
fn foreign_keys_and_connection_pragmas_are_verified() {
    let pragmas = read_pragmas(true, "wal".to_owned(), 2, 5_000).ok().expect("pragmas");
    assert!(pragmas.foreign_keys);
    assert_eq!(pragmas.journal_mode, "wal");
    assert_eq!(pragmas.synchronous, 2);
    assert_eq!(pragmas.busy_timeout_ms, 5_000);
    assert!(verify_pragmas(&pragmas, 5_000).is_ok());
    assert!(matches!(
        read_pragmas(true, "wal".to_owned(), 2, -1),
        Err(StoreError::PragmaMismatch)
    ));
}

#[test]
fn pragma_drift_is_detected_by_verification() {
    for (foreign_keys, journal_mode, synchronous, busy_timeout_ms) in
        [(false, "wal", 2, 5_000), (true, "delete", 2, 5_000), (true, "wal", 1, 5_000), (true, "wal", 2, 1_234)]
    {
        let pragmas =
            read_pragmas(foreign_keys, journal_mode.to_owned(), synchronous, busy_timeout_ms)
                .ok()
                .expect("pragmas");
        assert!(
            matches!(verify_pragmas(&pragmas, 5_000), Err(StoreError::PragmaMismatch)),
            "{journal_mode}"
        );
    }
}

#[test]
fn non_store_conversion_failures_stay_sqlite_errors() {
    let error = map_read_error(failure(rusqlite::Error::FromSqlConversionFailure(
        0,
        rusqlite::types::Type::Text,
        Box::new(std::io::Error::other("not a store error")),
    )));
    assert!(error.to_string().starts_with("database operation failed"));
}

// Cancelling from the command line --------------------------------------------------------------

struct FixedClock(i64);

impl WallClock for FixedClock {
    fn now_utc(&self) -> Result<UtcTimestamp, ClockError> {
        Ok(timestamp(self.0))
    }
}

/// Records each run as cancelled without touching a process.
struct InstantStopper;

impl RunStopper<Sqlite> for InstantStopper {
    fn cancel_active_run(
        &self,
        store: &mut JobStore<Sqlite>,
        run: &Run,
        _grace: DurationSeconds,
    ) -> Result<Run, ManagementError> {
        store
            .request_run_cancellation(run.id(), run.claim_token())
            .map_err(|error| management_store_error(error.to_string()))?;
        store
            .record_run_terminal(
                run.id(),
                run.claim_token(),
                timestamp(9_000),
                RunOutcome::Cancelled("stopped".to_owned()),
            )
            .map_err(|error| management_store_error(error.to_string()))
    }
}

fn seed_state(store: &mut JobStore<Sqlite>, now: i64, state: JobState) -> Job {
    let job = sample_job(now, now + 30);
    store.create(&job).ok().expect("create");
    store
        .transition_job(
            job.id(),
            job.revision(),
            state,
            false,
            TransitionActor::Cli,
            "seed",
            timestamp(now + 1),
        )
        .ok()
        .expect("seeded state")
}

fn cancel(store: &mut JobStore<Sqlite>, job: &Job) -> Result<Job, ManagementError> {
    let grace = DurationSeconds::new(5).expect("grace");
    cancel_job(store, &FixedClock(8_000), &InstantStopper, &job.id().to_string(), grace)
}

#[test]
fn cancel_paths_are_idempotent_or_conflicting() {
    let mut store = new_store();
    // Already cancel-requested: satisfied without touching storage.
    let pending = seed_state(&mut store, 1_000, JobState::CancelRequested);
    let satisfied = cancel(&mut store, &pending).ok().expect("satisfied");
    assert_eq!(satisfied.state(), JobState::CancelRequested);

    // Terminal job: cancellation is refused.
    let done = seed_state(&mut store, 2_000, JobState::Missed);
    assert!(matches!(cancel(&mut store, &done), Err(ManagementError::StateConflict(_))));
}

#[test]
fn cancelling_a_waiting_job_needs_no_process() {
    let mut store = new_store();
    let waiting = seed_state(&mut store, 1_000, JobState::Waiting);
    let cancelled = cancel(&mut store, &waiting).ok().expect("cancelled");
    assert_eq!(cancelled.state(), JobState::Cancelled);
}

#[test]
fn cancelling_a_running_job_stops_its_run() {
    let mut store = new_store();
    let waiting = seed_state(&mut store, 1_000, JobState::Waiting);
    let run =
        store.claim_run(waiting.id(), timestamp(1_030), timestamp(1_002)).ok().expect("claim");
    start(&mut store, &run, 1_003);
    let mut revision = waiting.revision();
    for state in [JobState::Starting, JobState::Running] {
        revision = store
            .transition_job(
                waiting.id(),
                revision,
                state,
                false,
                TransitionActor::Supervisor,
                "seed",
                timestamp(1_004),
            )
            .ok()
            .expect("seeded state")
            .revision();
    }
    let cancelled = cancel(&mut store, &waiting).ok().expect("cancelled");
    assert_eq!(cancelled.state(), JobState::Cancelled);
    assert_eq!(
        store.load_run(run.id()).ok().expect("load").expect("run").state(),
        RunState::Cancelled
    );
}

/// Says that each group it is asked to end was ended by force, and counts them.
struct CountingCanceller(Cell<usize>);

impl ProcessGroupCanceller for CountingCanceller {
    fn cancel_group(&mut self, _run: &Run) -> Result<GroupCancellation, ProcessCancellationError> {
        self.0.set(self.0.get() + 1);
        Ok(GroupCancellation::KilledAfterGrace)
    }
}

#[test]
fn runs_without_a_command_end_when_they_are_asked_to_stop() {
    let (mut store, run) = store_with_claim();
    let mut canceller = CountingCanceller(Cell::new(0));
    assert!(ask_to_stop(&mut store, &FixedClock(2_000), &mut canceller, &run).is_ok());
    assert_eq!(canceller.0.get(), 0);
    let stored = store.load_run(run.id()).ok().expect("load").expect("run");
    assert_eq!(
        stored.outcome(),
        Some(&RunOutcome::Cancelled("cancelled before command start".to_owned()))
    );

    let (mut store, run) = store_with_claim();
    let running = start(&mut store, &run, 1_002);
    assert!(ask_to_stop(&mut store, &FixedClock(2_000), &mut canceller, &running).is_ok());
    assert_eq!(canceller.0.get(), 1);
    let stored = store.load_run(run.id()).ok().expect("load").expect("run");
    assert_eq!(stored.state(), RunState::CancelRequested);
    assert!(matches!(stop_step(Some(stored), false), Ok(StopStep::Wait)));
    assert!(matches!(stop_step(None, false), Err(ManagementError::StateConflict(_))));
}

#[test]
fn finish_cancellation_maps_run_outcomes_to_terminal_jobs() {
    for (run_state, expected) in [
        (RunState::Succeeded, JobState::Succeeded),
        (RunState::Cancelled, JobState::Cancelled),
        (RunState::Failed, JobState::Failed),
        (RunState::Interrupted, JobState::Interrupted),
    ] {
        let mut store = new_store();
        let job = seed_state(&mut store, 3_000, JobState::CancelRequested);
        let finished =
            finish_job_cancellation(&mut store, job.id(), run_state, &FixedClock(8_000))
                .ok()
                .expect("finish");
        assert_eq!(finished.state(), expected);
        // Already-terminal jobs return as-is instead of re-transitioning.
        let again = finish_job_cancellation(&mut store, job.id(), run_state, &FixedClock(8_000))
            .ok()
            .expect("repeat");
        assert!(again.revision() == finished.revision());
    }
}

#[test]
fn finish_cancellation_refuses_nonterminal_runs() {
    let mut store = new_store();
    let job = seed_state(&mut store, 4_000, JobState::CancelRequested);
    assert!(matches!(
        finish_job_cancellation(&mut store, job.id(), RunState::Starting, &FixedClock(8_000)),
        Err(ManagementError::StateConflict(_))
    ));
}

struct NoLogs;

impl LogFiles for NoLogs {
    fn resolve(&self, _path: &str) -> Option<String> {
        None
    }

    fn is_file(&self, _path: &str) -> bool {
        false
    }

    fn read(&self, _path: &str, _directory: &str) -> Result<Vec<u8>, String> {
        Err("no logs".to_owned())
    }
}

struct NoProcesses;

impl ProcessTable for NoProcesses {
    fn look_up(
        &self,
        _pid: u32,
        _boot_identity: &str,
    ) -> Result<Option<ProcessIdentitySnapshot>, ProcessError> {
        Ok(None)
    }
}

struct NoSupervisor;

impl SupervisorAcknowledger for NoSupervisor {
    fn acknowledge(&mut self, _job_id: JobId, _revision: Revision) -> Result<(), SupervisorAckError> {
        Err(SupervisorAckError("no supervisor socket".to_owned()))
    }
}

fn run_command(
    store: &mut JobStore<Sqlite>,
    command: ManagementCommand,
) -> Result<ManageOutcome, u8> {
    let tools = ManageTools {
        clock: FixedClock(8_000),
        stopper: InstantStopper,
        logs: NoLogs,
        inspector: Ok(NativeProcessInspector::new("boot-a".to_owned(), NoProcesses)),
    };
    let grace = DurationSeconds::new(5).expect("grace");
    manage(store, &tools, &mut NoSupervisor, &command, "/state", grace, false)
        .map_err(|error| error.exit)
}

#[test]
fn manage_commands_render_without_a_supervisor() {
    let mut store = new_store();
    assert!(matches!(
        run_command(&mut store, ManagementCommand::History { job: None, limit: 10 }),
        Ok(ManageOutcome::Runs(runs)) if runs.is_empty()
    ));
    assert!(matches!(
        run_command(&mut store, ManagementCommand::Ps),
        Ok(ManageOutcome::Processes(processes)) if processes.is_empty()
    ));
    assert!(matches!(
        run_command(&mut store, ManagementCommand::List { state: None, limit: 10 }),
        Ok(ManageOutcome::Jobs(jobs)) if jobs.is_empty()
    ));
    assert_eq!(
        run_command(
            &mut store,
            ManagementCommand::Show { job: "zzzzzzzzzzzzzzzzzzzzzzzzzz".to_owned() },
        )
        .err(),
        Some(exit::not_found())
    );
    assert_eq!(
        run_command(
            &mut store,
            ManagementCommand::List { state: Some("bogus".to_owned()), limit: 10 },
        )
        .err(),
        Some(exit::usage())
    );
}

#[test]
fn commands_reach_the_jobs_they_name() {
    let mut store = new_store();
    let waiting = seed_state(&mut store, 1_000, JobState::Waiting);
    let id = waiting.id().to_string();
    assert!(matches!(
        run_command(&mut store, ManagementCommand::Show { job: id.clone() }),
        Ok(ManageOutcome::Job(job)) if job == waiting
    ));
    assert_eq!(
        run_command(
            &mut store,
            ManagementCommand::Remove { job: id.clone(), cancel: false, keep_history: false },
        )
        .err(),
        Some(exit::conflict())
    );
    assert!(matches!(
        run_command(
            &mut store,
            ManagementCommand::Remove { job: id.clone(), cancel: true, keep_history: false },
        ),
        Ok(ManageOutcome::Job(_))
    ));
    assert!(matches!(
        run_command(&mut store, ManagementCommand::List { state: None, limit: 10 }),
        Ok(ManageOutcome::Jobs(jobs)) if jobs.is_empty()
    ));
}
