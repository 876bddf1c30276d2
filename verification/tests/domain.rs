use std::str::FromStr;

use atx::cli::view::ExecutionView;
use atx::domain::duration::{DurationError, DurationSeconds, MAX_DURATION_SECONDS};
use atx::domain::environment::Environment;
use atx::domain::error::ErrorCode;
use atx::domain::execution::{
    ExecutionMode, ExecutionSpec, ExecutionStorageError, OutputPolicy, StdinPolicy,
    StoredExecution, MAX_SERIALIZED_BYTES,
};
use atx::domain::execution_error::ExecutionError;
use atx::domain::id::{JobId, RunId};
use atx::domain::job::{Job, JobError};
use atx::domain::primitives::{
    Description, Name, PrimitiveError, Revision, Sequence, UtcTimestamp,
};
use atx::domain::recurrence::{
    next_fixed_rate, next_fixed_rate_utc, relative_deadline, ElapsedInstant,
};
use atx::domain::run::{ClaimToken, ProcessIdentitySnapshot, Run, RunError, RunOutcome, RunSnapshot};
use atx::domain::schedule::{DstResolution, MissedPolicy, RuntimeTier, Schedule, ScheduleError};
use atx::domain::state::{JobState, RunState};
use atx::domain::transition::{
    complete_run, job_transition, run_transition, Completion, TransitionActor, TransitionError,
};
use atx::infrastructure::sqlite::names::decode_job_state;

fn second(value: i64) -> UtcTimestamp {
    UtcTimestamp::from_second(value).expect("valid timestamp")
}

fn duration(seconds: u64) -> DurationSeconds {
    DurationSeconds::new(seconds).expect("valid duration")
}

fn environment(pairs: &[(&str, &str)]) -> Result<Environment, ExecutionError> {
    Environment::from_pairs(
        pairs.iter().map(|(key, value)| ((*key).to_owned(), (*value).to_owned())).collect(),
    )
}

fn direct(arguments: &[&str]) -> ExecutionSpec {
    ExecutionSpec::new(
        ExecutionMode::Direct,
        arguments.iter().map(|argument| (*argument).to_owned()).collect(),
        "/tmp".to_owned(),
        Environment::empty(),
    )
    .expect("valid execution")
}

// Durations -------------------------------------------------------------------------------------

#[test]
fn accepted_forms_are_canonicalized() {
    let cases = [
        ("30s", "30s"),
        ("2m", "2m"),
        ("5h", "5h"),
        ("1m30s", "1m30s"),
        ("2h15m", "2h15m"),
        ("1h 30m 15s", "1h30m15s"),
        ("90s", "1m30s"),
        ("120m", "2h"),
    ];
    for (input, canonical) in cases {
        assert_eq!(
            DurationSeconds::from_str(input).expect("accepted duration").to_string(),
            canonical
        );
    }
}

#[test]
fn rejects_invalid_grammar_and_bounds() {
    for input in ["", "0s", "-5m", "1.5h", "30s1m", "1m1m", "1 h"] {
        assert!(DurationSeconds::from_str(input).is_err(), "{input}");
    }
    assert!(DurationSeconds::from_str("8761h").is_err());
    assert!(DurationSeconds::from_str("18446744073709551616s").is_err());
}

#[test]
fn canonical_durations_read_back() {
    for seconds in [1, 59, 60, 61, 3_599, 3_600, 3_661, 86_400, MAX_DURATION_SECONDS] {
        let value = duration(seconds);
        assert_eq!(value.to_string().parse::<DurationSeconds>(), Ok(value));
    }
    assert!(DurationSeconds::new(0).is_err());
    assert!(DurationSeconds::new(MAX_DURATION_SECONDS + 1).is_err());
    assert_eq!(
        DurationError::to_string(&DurationSeconds::from_str("").expect_err("empty")),
        DurationSeconds::from_str("").expect_err("empty").to_string()
    );
}

// Identifiers -----------------------------------------------------------------------------------

#[test]
fn zero_uuid_has_canonical_crockford_form() {
    let id = JobId::from_u128(0);
    assert_eq!(id.to_string(), "00000000000000000000000000");
    assert_eq!(id.to_string().parse::<JobId>(), Ok(id));
}

#[test]
fn maximum_uuid_uses_only_128_bits() {
    let id = RunId::from_u128(u128::MAX);
    assert_eq!(id.to_string(), "7zzzzzzzzzzzzzzzzzzzzzzzzz");
    assert_eq!(id.to_string().parse::<RunId>(), Ok(id));
    assert!("8zzzzzzzzzzzzzzzzzzzzzzzzz".parse::<RunId>().is_err());
}

#[test]
fn generated_ids_are_v7_and_unique_in_a_smoke_sample() {
    let first = JobId::new();
    let second = JobId::new();

    assert_eq!(first.version(), 7);
    assert_eq!(second.version(), 7);
    assert_ne!(first, second);
}

#[test]
fn encoded_order_matches_uuid_order() {
    let first = JobId::from_u128(1);
    let second = JobId::from_u128(2);
    assert!(first < second);
    assert!(first.to_string() < second.to_string());
}

#[test]
fn ids_round_trip_through_json_as_strings() {
    let id = JobId::new();
    let encoded = serde_json::to_string(&id.to_string()).expect("ID should serialize");
    let text: String = serde_json::from_str(&encoded).expect("ID should deserialize");
    let decoded: JobId = text.parse().expect("ID should deserialize");
    assert_eq!(decoded, id);
}

#[test]
fn identifiers_are_read_in_either_case() {
    let id = RunId::from_u128(0x0123_4567_89ab_cdef_0123_4567_89ab_cdef);
    assert_eq!(id.to_string().to_ascii_uppercase().parse::<RunId>(), Ok(id));
    for text in ["", "0", "0000000000000000000000000u", "000000000000000000000000000"] {
        assert!(text.parse::<RunId>().is_err(), "{text}");
    }
}

// Small values ----------------------------------------------------------------------------------

#[test]
fn names_check_scalar_limit_and_nul() {
    assert!(Name::new("x".repeat(256)).is_ok());
    assert!(Name::new("x".repeat(257)).is_err());
    assert!(Name::new("bad\0name".to_owned()).is_err());
}

#[test]
fn descriptions_check_scalar_limit_and_nul() {
    assert!(Description::new("x".repeat(4096)).is_ok());
    assert!(Description::new("x".repeat(4097)).is_err());
    assert!(Description::new("bad\0description".to_owned()).is_err());
}

#[test]
fn revisions_and_sequences_are_nonzero_and_checked() {
    assert!(Revision::new(0).is_err());
    assert!(Sequence::new(0).is_err());
    assert_eq!(Revision::new(1).and_then(Revision::next).map(Revision::get), Ok(2));
    assert!(Revision::new(u64::MAX).and_then(Revision::next).is_err());
}

#[test]
fn timestamp_round_trips_as_rfc3339() {
    let timestamp = second(1_784_204_100);
    let encoded =
        serde_json::to_string(&timestamp.to_string()).expect("timestamp should serialize");
    let text: String = serde_json::from_str(&encoded).expect("timestamp should deserialize");
    let decoded: UtcTimestamp = text.parse().expect("timestamp should deserialize");
    assert_eq!(decoded, timestamp);
}

#[test]
fn getters_return_validated_values() {
    let name = Name::new("tea".to_owned()).expect("valid name");
    let description = Description::new("brew timer".to_owned()).expect("valid description");
    let sequence = Sequence::new(7).expect("valid sequence");
    let timestamp = second(10);

    assert_eq!(name.as_str(), "tea");
    assert_eq!(description.as_str(), "brew timer");
    assert_eq!(sequence.get(), 7);
    assert_eq!(timestamp.as_nanosecond(), 10_000_000_000);
    assert!(Name::new("x".repeat(257)).is_err());
}

#[test]
fn refused_values_say_why() {
    assert_eq!(
        Name::new("x".repeat(257)).map_err(|error| error.to_string()).err(),
        Some("name is longer than 256 Unicode scalar values".to_owned())
    );
    assert_eq!(
        Description::new("\0".to_owned()).map_err(|error| error.to_string()).err(),
        Some("description cannot contain NUL".to_owned())
    );
    assert_eq!(Revision::new(0), Err(PrimitiveError::Zero { field: "revision" }));
    assert_eq!(
        Revision::new(u64::MAX).and_then(Revision::next),
        Err(PrimitiveError::Overflow { field: "revision" })
    );
    assert_eq!(UtcTimestamp::from_second(i64::MAX), Err(PrimitiveError::TimestampRange));
    assert!(UtcTimestamp::from_nanosecond(i128::MAX).is_err());
    assert!("yesterday".parse::<UtcTimestamp>().is_err());
    assert_eq!(
        "2026-07-30T15:00:00.000000001Z".parse::<UtcTimestamp>().map(|time| time.to_string()),
        Ok("2026-07-30T15:00:00.000000001Z".to_owned())
    );
}

#[test]
fn error_codes_have_stable_wire_names() {
    assert_eq!(
        serde_json::to_string(ErrorCode::InvalidIdentifier.wire_name())
            .expect("code should serialize"),
        "\"INVALID_IDENTIFIER\""
    );
}

#[test]
fn unknown_state_does_not_decode() {
    assert!(decode_job_state("teleported").is_none());
}

// Execution -------------------------------------------------------------------------------------

/// Reads a stored execution, whose unknown policies and missing fields are malformed.
fn stored(text: &str) -> Result<StoredExecution, ExecutionStorageError> {
    let malformed = || ExecutionStorageError::Json("malformed".to_owned());
    let value: serde_json::Value = serde_json::from_str(text).map_err(|_| malformed())?;
    let list = value["argv"].as_array().ok_or_else(malformed)?;
    let mut argv = Vec::new();
    for argument in list {
        argv.push(argument.as_str().ok_or_else(malformed)?.to_owned());
    }
    let mut environment = Vec::new();
    for (key, entry) in value["environment"].as_object().ok_or_else(malformed)? {
        environment.push((key.clone(), entry.as_str().ok_or_else(malformed)?.to_owned()));
    }
    let output = |field: &str| match value[field].as_str() {
        Some("bounded_file") => Ok(OutputPolicy::BoundedFile),
        _ => Err(malformed()),
    };
    let optional = |field: &str| value[field].as_str().map(str::to_owned);
    Ok(StoredExecution {
        mode: match value["mode"].as_str() {
            Some("direct") => ExecutionMode::Direct,
            Some("shell") => ExecutionMode::Shell,
            _ => return Err(malformed()),
        },
        argv,
        working_directory: value["working_directory"].as_str().ok_or_else(malformed)?.to_owned(),
        environment,
        stdin: match value["stdin"].as_str() {
            Some("null") => StdinPolicy::Null,
            _ => return Err(malformed()),
        },
        stdout: output("stdout")?,
        stderr: output("stderr")?,
        shell_path: optional("shell_path"),
        notify_tty: optional("notify_tty"),
    })
}

fn load(text: &str) -> Result<ExecutionSpec, ExecutionStorageError> {
    ExecutionSpec::from_stored(stored(text)?)
}

fn base_with(field: &str, value: serde_json::Value) -> String {
    let mut row: serde_json::Value = serde_json::from_str(
        r#"{
            "mode": "direct",
            "argv": ["true"],
            "working_directory": "/tmp",
            "environment": {},
            "stdin": "null",
            "stdout": "bounded_file",
            "stderr": "bounded_file",
            "shell_path": null
        }"#,
    )
    .expect("json");
    row[field] = value;
    serde_json::to_string(&row).expect("json")
}

fn text(value: &str) -> serde_json::Value {
    serde_json::Value::String(value.to_owned())
}

#[test]
fn direct_mode_preserves_arguments() {
    let spec = direct(&["printf", "%s\n", "a; rm -rf /"]);

    assert_eq!(*spec.argv(), ["printf", "%s\n", "a; rm -rf /"]);
}

#[test]
fn shell_mode_requires_one_string() {
    assert!(ExecutionSpec::new(
        ExecutionMode::Shell,
        vec!["echo".to_owned(), "hello".to_owned()],
        "/tmp".to_owned(),
        Environment::empty(),
    )
    .is_err());
}

#[test]
fn environment_values_are_redacted_everywhere() {
    let values = environment(&[("TOKEN", "swordfish")]).expect("valid environment value");
    assert_eq!(values.iter()[0].1.to_string(), "[REDACTED]");
    let spec = ExecutionSpec::new(
        ExecutionMode::Direct,
        vec!["true".to_owned()],
        "/tmp".to_owned(),
        values,
    )
    .expect("valid execution");
    let job = Job::new(
        second(100),
        Schedule::one_shot_relative(duration(30), second(130)),
        MissedPolicy::Hold,
        RuntimeTier::Session,
        spec,
        501,
    )
    .expect("valid job");

    let shown = format!("{:?}", ExecutionView::from_job(&job));
    assert!(shown.contains("TOKEN"));
    assert!(!shown.contains("swordfish"));
}

#[test]
fn notify_tty_roundtrips_and_rejects_bad_paths() {
    let mut spec = direct(&["true"]);
    assert!(spec.notify_tty().is_none());

    spec.set_notify_tty("/dev/ttys001".to_owned()).expect("valid tty path");
    let restored = ExecutionSpec::from_stored(spec.to_stored()).map_err(|error| error.to_string());
    let restored = restored.ok().expect("restore");
    assert_eq!(restored.notify_tty(), Some("/dev/ttys001"));

    assert!(spec.set_notify_tty(String::new()).is_err());
    assert!(load(&base_with("notify_tty", text(""))).is_err());
}

#[test]
fn persistence_json_rejects_wrong_policy_and_shell_shapes() {
    for (field, value) in [("stdin", "inherit"), ("stdout", "discard"), ("stderr", "null")] {
        assert!(load(&base_with(field, text(value))).is_err(), "{field} = {value} must be rejected");
    }

    assert!(load(&base_with("mode", text("shell"))).is_err());
    assert!(load(&base_with("shell_path", text("/bin/sh"))).is_err());
}

#[test]
fn set_shell_path_rejects_relative_paths_and_direct_mode() {
    let mut spec = direct(&["true"]);
    assert!(spec.set_shell_path("/bin/sh".to_owned()).is_err());

    let mut shell = ExecutionSpec::new(
        ExecutionMode::Shell,
        vec!["echo hi".to_owned()],
        "/tmp".to_owned(),
        Environment::empty(),
    )
    .expect("valid shell execution");
    assert!(shell.set_shell_path("relative/sh".to_owned()).is_err());
}

#[test]
fn environment_key_value_and_empty_argv_edges_are_rejected() {
    assert!(environment(&[("9x", "value")]).is_err());
    assert!(environment(&[("A-B", "value")]).is_err());
    assert!(matches!(
        environment(&[("TOKEN", "v\0")]),
        Err(ExecutionError::ContainsNul("environment value"))
    ));
    assert!(matches!(
        ExecutionSpec::new(
            ExecutionMode::Direct,
            Vec::new(),
            "/tmp".to_owned(),
            Environment::empty(),
        ),
        Err(ExecutionError::EmptyArguments)
    ));
}

#[test]
fn notify_tty_nul_and_oversize_paths_are_rejected() {
    let mut spec = direct(&["true"]);
    assert!(spec.set_notify_tty("/dev/tty\0bad".to_owned()).is_err());

    let oversize = format!("/dev/{}", "t".repeat(MAX_SERIALIZED_BYTES));
    assert!(matches!(
        spec.set_notify_tty(oversize),
        Err(ExecutionError::SerializedSizeExceeded)
    ));
}

#[test]
fn persisted_shell_rows_require_an_absolute_shell_path() {
    let row = |path: &str| {
        let mut value: serde_json::Value =
            serde_json::from_str(&base_with("mode", text("shell"))).expect("json");
        value["argv"] = serde_json::Value::Array(vec![text("echo hi")]);
        value["shell_path"] = text(path);
        serde_json::to_string(&value).expect("json")
    };
    let restored = load(&row("/bin/bash")).ok().expect("shell row with absolute path loads");
    assert_eq!(restored.shell_path(), Some("/bin/bash"));

    assert!(load(&row("sh")).is_err());
}

#[test]
fn legacy_persistence_json_without_notify_tty_loads() {
    let restored = load(&base_with("mode", text("direct"))).ok().expect("legacy row loads");
    assert!(restored.notify_tty().is_none());
}

#[test]
fn rejects_nul_and_oversize_arguments() {
    for argument in ["bad\0arg".to_owned(), "x".repeat(128 * 1024 + 1)] {
        assert!(ExecutionSpec::new(
            ExecutionMode::Direct,
            vec![argument],
            "/tmp".to_owned(),
            Environment::empty(),
        )
        .is_err());
    }
}

#[test]
fn validates_environment_cwd_and_total_size() {
    assert!(environment(&[("BAD-KEY", "value")]).is_err());
    assert!(environment(&[("", "value")]).is_err());
    assert!(ExecutionSpec::new(
        ExecutionMode::Direct,
        vec!["true".to_owned()],
        "relative".to_owned(),
        Environment::empty(),
    )
    .is_err());
    assert!(ExecutionSpec::new(
        ExecutionMode::Direct,
        vec!["x".repeat(128 * 1024); 8],
        "/tmp".to_owned(),
        Environment::empty(),
    )
    .is_err());
}

#[test]
fn total_size_policy_and_persisted_tty_edges_are_enforced() {
    assert!(matches!(
        ExecutionSpec::new(
            ExecutionMode::Direct,
            vec!["x".repeat(128 * 1024); 9],
            "/tmp".to_owned(),
            Environment::empty(),
        ),
        Err(ExecutionError::SerializedSizeExceeded)
    ));

    assert!(load(&base_with("stderr", text("null"))).is_err());

    let restored =
        load(&base_with("notify_tty", text("/dev/ttys001"))).ok().expect("tty row loads");
    assert_eq!(restored.notify_tty(), Some("/dev/ttys001"));
    assert_eq!(restored.working_directory(), "/tmp");

    assert!(load(&base_with("notify_tty", text(""))).is_err());
}

#[test]
fn getters_preserve_validated_values() {
    let spec = ExecutionSpec::new(
        ExecutionMode::Direct,
        vec!["true".to_owned()],
        "/tmp".to_owned(),
        environment(&[("PATH", "/bin")]).expect("valid environment"),
    )
    .expect("valid execution");

    assert_eq!(spec.mode(), ExecutionMode::Direct);
    assert_eq!(spec.working_directory(), "/tmp");
    let values = spec.environment().iter();
    assert_eq!(values.len(), 1);
    assert_eq!(values[0].0, "PATH");
    assert_eq!(values[0].1.expose(), "/bin");
}

#[test]
fn stored_executions_load_as_what_was_stored() {
    let mut spec = ExecutionSpec::new(
        ExecutionMode::Shell,
        vec!["echo \"$HOME\" | wc\n".to_owned()],
        "/var/tmp".to_owned(),
        environment(&[("B", "2"), ("A", "1"), ("B", "3")]).expect("valid environment"),
    )
    .expect("valid execution");
    spec.set_shell_path("/bin/zsh".to_owned()).expect("shell");
    let loaded = ExecutionSpec::from_stored(spec.to_stored()).ok().expect("loads");
    assert!(loaded == spec);
    let pairs = loaded.environment().to_pairs();
    assert_eq!(
        pairs,
        vec![("A".to_owned(), "1".to_owned()), ("B".to_owned(), "3".to_owned())]
    );
}

#[test]
fn refused_executions_say_why() {
    let cases = [
        (ExecutionMode::Direct, vec![], "/tmp", "command arguments cannot be empty"),
        (
            ExecutionMode::Shell,
            vec!["a".to_owned(), "b".to_owned()],
            "/tmp",
            "shell mode requires exactly one command string",
        ),
        (ExecutionMode::Direct, vec!["a\0".to_owned()], "/tmp", "argument cannot contain NUL"),
        (
            ExecutionMode::Direct,
            vec!["x".repeat(128 * 1024 + 1)],
            "/tmp",
            "one command argument exceeds 128 KiB",
        ),
        (
            ExecutionMode::Direct,
            vec!["a".to_owned()],
            "tmp",
            "working directory must be absolute",
        ),
    ];
    for (mode, argv, directory, message) in cases {
        let error = ExecutionSpec::new(mode, argv, directory.to_owned(), Environment::empty())
            .err()
            .expect("refused");
        assert_eq!(error.to_string(), message);
    }
}

// Jobs ------------------------------------------------------------------------------------------

#[test]
fn new_job_starts_scheduled_at_revision_one() {
    let now = second(1_784_204_100);
    let due = second(1_784_204_130);
    let schedule = Schedule::one_shot_relative(duration(30), due);

    let job = Job::new(
        now,
        schedule,
        MissedPolicy::Hold,
        RuntimeTier::Session,
        direct(&["true"]),
        501,
    )
    .expect("valid job");

    assert_eq!(job.revision().get(), 1);
    assert_eq!(job.next_due_utc(), due);
    assert_eq!(job.state(), JobState::Scheduled);
    assert_eq!(job.schedule().next_due_utc(), due);
    assert_eq!(*job.execution().argv(), ["true"]);
    assert_eq!(job.id().version(), 7);
}

#[test]
fn rejects_nonfuture_deadline() {
    let now = second(100);
    let schedule = Schedule::one_shot_relative(duration(30), now);
    assert!(Job::new(
        now,
        schedule,
        MissedPolicy::Hold,
        RuntimeTier::Session,
        direct(&["true"]),
        501,
    )
    .is_err());
}

#[test]
fn refused_changes_leave_a_job_as_it_was() {
    let now = second(100);
    let mut job = Job::new(
        now,
        Schedule::one_shot_relative(duration(30), second(130)),
        MissedPolicy::Hold,
        RuntimeTier::Session,
        direct(&["true"]),
        501,
    )
    .expect("valid job");
    let before = job.clone();
    let actor = TransitionActor::Cli;
    assert_eq!(
        job.transition(JobState::Waiting, false, actor, "early", second(99)).err(),
        Some(JobError::TimeMovedBackward)
    );
    assert_eq!(
        job.transition(JobState::Running, false, actor, "skip", now).err(),
        Some(JobError::Transition(TransitionError::Illegal))
    );
    assert_eq!(
        job.transition(JobState::Waiting, false, actor, "", now).err(),
        Some(JobError::Transition(TransitionError::InvalidReason))
    );
    assert!(job == before);
    let transition = job
        .transition(JobState::Waiting, false, actor, "accepted", second(101))
        .expect("legal transition");
    assert_eq!(transition.from(), JobState::Scheduled);
    assert_eq!(transition.to(), JobState::Waiting);
    assert_eq!(transition.reason(), "accepted");
    assert_eq!(job.revision().get(), 2);
    assert_eq!(
        JobError::Schedule(ScheduleError::DeadlineNotFuture).to_string(),
        "the resolved deadline must be in the future"
    );
    let mut snapshot = job.snapshot();
    snapshot.timezone_database_version = String::new();
    assert_eq!(Job::rehydrate(snapshot).err(), Some(JobError::CorruptSnapshot));
    let reloaded = Job::rehydrate(job.snapshot()).ok().expect("consistent");
    assert!(reloaded == job);
}

#[test]
fn every_schedule_reports_its_next_due_and_tzdb() {
    let due = second(2_000);
    let relative = Schedule::one_shot_relative(duration(30), due);
    assert_eq!(relative.next_due_utc(), due);
    assert_eq!(relative.timezone_database_version(), "not-applicable");

    let absolute = Schedule::one_shot_absolute(
        "2030-01-01".to_owned(),
        "UTC".to_owned(),
        "test".to_owned(),
        due,
        DstResolution::Reject,
    );
    assert_eq!(absolute.next_due_utc(), due);
    assert_eq!(absolute.timezone_database_version(), "test");

    let recurring =
        Schedule::RecurringInterval { interval: duration(60), persisted_anchor_utc: due };
    assert_eq!(recurring.next_due_utc(), due);
    assert_eq!(recurring.timezone_database_version(), "not-applicable");
}

// Recurrence ------------------------------------------------------------------------------------

#[test]
fn wall_jump_does_not_change_live_relative_deadline() {
    let wall = second(1_000);
    let elapsed = ElapsedInstant::from_nanos(50_000_000_000);
    let deadline = relative_deadline(wall, elapsed, duration(30)).expect("valid deadline");

    let _jumped_wall = second(100_000);
    assert_eq!(deadline.elapsed_due(), ElapsedInstant::from_nanos(80_000_000_000));
    assert_eq!(deadline.persisted_due_utc().to_string(), "1970-01-01T00:17:10Z");
    assert!(!deadline.is_due(ElapsedInstant::from_nanos(79_999_999_999)));
    assert!(deadline.is_due(ElapsedInstant::from_nanos(80_000_000_000)));
}

#[test]
fn recurrence_stays_anchored_and_skips_missed_intervals() {
    let anchor = ElapsedInstant::from_nanos(10_000_000_000);
    assert_eq!(
        next_fixed_rate(anchor, ElapsedInstant::from_nanos(21_000_000_000), duration(5)),
        Ok(ElapsedInstant::from_nanos(25_000_000_000))
    );
}

#[test]
fn recurrence_boundary_is_strictly_after_now() {
    let anchor = ElapsedInstant::from_nanos(10_000_000_000);
    let interval = duration(5);

    assert_eq!(
        next_fixed_rate(anchor, ElapsedInstant::from_nanos(9_999_999_999), interval),
        Ok(anchor)
    );
    assert_eq!(
        next_fixed_rate(anchor, anchor, interval),
        Ok(ElapsedInstant::from_nanos(15_000_000_000))
    );
}

#[test]
fn suspend_advance_makes_relative_deadline_due() {
    let before_suspend = ElapsedInstant::from_nanos(10_000_000_000);
    let deadline =
        relative_deadline(second(1_000), before_suspend, duration(30)).expect("valid deadline");

    let after_suspend = ElapsedInstant::from_nanos(3_610_000_000_000);
    assert!(deadline.is_due(after_suspend));
}

#[test]
fn large_missed_count_uses_constant_time_arithmetic() {
    let anchor = ElapsedInstant::from_nanos(0);
    let now = ElapsedInstant::from_nanos(1_000_000_000_000_000_000_000);
    assert!(
        next_fixed_rate(anchor, now, duration(1)).expect("large count remains in range") > now
    );
}

#[test]
fn reboot_recovery_uses_persisted_utc_anchor() {
    assert_eq!(
        next_fixed_rate_utc(second(1_000), second(1_021), duration(5))
            .expect("next deadline")
            .to_string(),
        "1970-01-01T00:17:05Z"
    );
}

#[test]
fn persisted_recurrence_boundary_is_strictly_after_now() {
    let before_anchor = second(999);
    let anchor = second(1_000);
    let interval = duration(5);

    assert_eq!(next_fixed_rate_utc(anchor, before_anchor, interval), Ok(anchor));
    assert_eq!(
        next_fixed_rate_utc(anchor, anchor, interval).expect("next deadline").to_string(),
        "1970-01-01T00:16:45Z"
    );
}

#[test]
fn deadlines_beyond_the_clocks_overflow() {
    let last = UtcTimestamp::from_second(253_402_207_200).expect("last second");
    assert!(relative_deadline(last, ElapsedInstant::from_nanos(0), duration(1)).is_err());
    assert!(relative_deadline(
        second(0),
        ElapsedInstant::from_nanos(u128::MAX),
        duration(1)
    )
    .is_err());
    assert!(next_fixed_rate_utc(second(0), last, duration(MAX_DURATION_SECONDS)).is_err());
}

// Runs ------------------------------------------------------------------------------------------

fn token(byte: u8) -> ClaimToken {
    ClaimToken::from_bytes([byte; 32])
}

fn fresh_run(sequence: u64, created: UtcTimestamp, claim: ClaimToken) -> Run {
    Run::new(
        JobId::new(),
        Sequence::new(sequence).expect("sequence"),
        created,
        created,
        claim,
    )
}

fn identity(pid: u32, start_token: u64, process_group_id: i32) -> ProcessIdentitySnapshot {
    ProcessIdentitySnapshot {
        boot_identity: "boot".to_owned(),
        pid,
        start_token,
        process_group_id,
    }
}

#[test]
fn new_run_has_one_outcome_slot() {
    let timestamp = second(1_784_204_100);
    let run = fresh_run(1, timestamp, token(1));
    assert!(run.outcome().is_none());

    let completed =
        run.with_outcome(timestamp, RunOutcome::Exit(0)).ok().expect("first outcome is valid");
    assert_eq!(completed.outcome(), Some(&RunOutcome::Exit(0)));
    assert!(completed.with_outcome(timestamp, RunOutcome::Signal(15)).is_err());
}

#[test]
fn finish_time_and_outcome_kinds_are_checked() {
    let created = second(100);
    let earlier = second(99);
    let run = fresh_run(1, created, token(1));
    assert!(run
        .clone()
        .with_outcome(earlier, RunOutcome::Failure("spawn".to_owned()))
        .is_err());
    assert!(run.with_outcome(created, RunOutcome::Interrupted("unknown".to_owned())).is_ok());
}

#[test]
fn claim_tokens_are_redacted() {
    let token = token(42);
    assert_eq!(token.to_string(), "[REDACTED]");
    assert_eq!(
        serde_json::to_string(&token.to_string()).expect("serialize token"),
        "\"[REDACTED]\""
    );
}

fn snapshot(state: RunState, created: UtcTimestamp) -> RunSnapshot {
    RunSnapshot {
        id: RunId::new(),
        job_id: JobId::new(),
        sequence: Sequence::new(1).expect("sequence"),
        scheduled_for_utc: created,
        created_at_utc: created,
        started_at_utc: None,
        finished_at_utc: None,
        state,
        claim_token: token(1),
        monitor_identity: None,
        command_identity: None,
        outcome: None,
        stdout_path: None,
        stderr_path: None,
    }
}

#[test]
fn rehydrate_rejects_inconsistent_snapshots() {
    let created = second(100);
    let earlier = second(90);
    let later = second(110);

    let mut invalid_timeline = snapshot(RunState::Starting, created);
    invalid_timeline.started_at_utc = Some(earlier);
    assert!(Run::rehydrate(invalid_timeline).is_err());

    let mut finished_before_created = snapshot(RunState::Failed, created);
    finished_before_created.finished_at_utc = Some(earlier);
    assert!(Run::rehydrate(finished_before_created).is_err());

    let mut finished_before_started = snapshot(RunState::Running, created);
    finished_before_started.started_at_utc = Some(later);
    finished_before_started.finished_at_utc = Some(created);
    assert!(Run::rehydrate(finished_before_started).is_err());

    let mut missing_outcome = snapshot(RunState::Succeeded, created);
    missing_outcome.finished_at_utc = Some(later);
    assert!(Run::rehydrate(missing_outcome).is_err());

    let mut outcome_state_mismatch = snapshot(RunState::Cancelled, created);
    outcome_state_mismatch.outcome = Some(RunOutcome::Exit(0));
    assert!(Run::rehydrate(outcome_state_mismatch).is_err());

    let mut live_with_outcome = snapshot(RunState::Running, created);
    live_with_outcome.outcome = Some(RunOutcome::Exit(0));
    live_with_outcome.started_at_utc = Some(later);
    assert!(Run::rehydrate(live_with_outcome).is_err());
}

#[test]
fn rehydrate_accepts_consistent_running_and_terminal_snapshots() {
    let created = second(100);
    let started = second(105);
    let finished = second(110);

    let mut running = snapshot(RunState::Running, created);
    running.started_at_utc = Some(started);
    assert!(Run::rehydrate(running).is_ok());

    let mut terminal = snapshot(RunState::Failed, created);
    terminal.started_at_utc = Some(started);
    terminal.finished_at_utc = Some(finished);
    terminal.outcome = Some(RunOutcome::Signal(9));
    assert!(Run::rehydrate(terminal).is_ok());
}

#[test]
fn rehydrate_validates_stored_log_paths() {
    let created = second(100);

    let mut escaping_stdout = snapshot(RunState::Running, created);
    escaping_stdout.started_at_utc = Some(created);
    escaping_stdout.stdout_path = Some("../escape.log".to_owned());
    assert!(Run::rehydrate(escaping_stdout).is_err());

    let mut absolute_stderr = snapshot(RunState::Running, created);
    absolute_stderr.started_at_utc = Some(created);
    absolute_stderr.stderr_path = Some("/etc/passwd".to_owned());
    assert!(Run::rehydrate(absolute_stderr).is_err());

    let mut contained = snapshot(RunState::Running, created);
    contained.started_at_utc = Some(created);
    contained.stdout_path = Some("runs/x/stdout.log".to_owned());
    contained.stderr_path = Some("runs/x/stderr.log".to_owned());
    assert!(Run::rehydrate(contained).is_ok());
}

#[test]
fn cancellation_start_and_second_outcome_edges_are_rejected() {
    let created = second(200);
    let earlier = second(199);
    let claim = token(3);

    let fresh = fresh_run(1, created, claim);
    fresh
        .request_cancellation()
        .and_then(Run::request_cancellation)
        .ok()
        .expect("idempotent cancel request");

    let running = fresh_run(2, created, claim)
        .mark_running(
            created,
            identity(10, 100, 10),
            identity(11, 101, 20),
            "runs/x/stdout.log".to_owned(),
            "runs/x/stderr.log".to_owned(),
        )
        .ok()
        .expect("running");

    let premature = fresh_run(3, created, claim);
    assert!(premature
        .mark_running(
            earlier,
            identity(10, 100, 10),
            identity(11, 101, 20),
            "runs/x/stdout.log".to_owned(),
            "runs/x/stderr.log".to_owned(),
        )
        .is_err());

    assert!(running
        .clone()
        .with_outcome(created, RunOutcome::Cancelled("no request".to_owned()))
        .is_err());
    let finished = running.with_outcome(created, RunOutcome::Exit(0)).ok().expect("finish");
    assert!(finished.clone().with_outcome(created, RunOutcome::Exit(1)).is_err());
    assert!(finished.request_cancellation().is_err());
}

#[test]
fn every_run_error_has_an_input() {
    let created = second(200);
    let start = |run: Run, time, pid: u32, path: &str| {
        run.mark_running(
            time,
            identity(pid, 100, 10),
            identity(11, 101, 20),
            path.to_owned(),
            "runs/x/stderr.log".to_owned(),
        )
        .err()
    };
    let log = "runs/x/stdout.log";
    let run = || fresh_run(1, created, token(1));
    assert_eq!(start(run(), second(199), 10, log), Some(RunError::StartBeforeCreation));
    assert_eq!(start(run(), created, 0, log), Some(RunError::InvalidIdentity));
    assert_eq!(start(run(), created, 10, "/absolute"), Some(RunError::InvalidLogPath));
    assert_eq!(start(run(), created, 10, "./here"), Some(RunError::InvalidLogPath));
    assert_eq!(start(run(), created, 10, "a/../../b"), Some(RunError::InvalidLogPath));
    let ended = run().with_outcome(created, RunOutcome::Exit(0)).ok().expect("ends");
    assert_eq!(start(ended.clone(), created, 10, log), Some(RunError::InvalidState));
    assert_eq!(
        ended.with_outcome(created, RunOutcome::Exit(0)).err(),
        Some(RunError::OutcomeAlreadyRecorded)
    );
    assert_eq!(
        run().with_outcome(second(1), RunOutcome::Exit(0)).err(),
        Some(RunError::FinishBeforeCreation)
    );
    let mut late = snapshot(RunState::Starting, created);
    late.started_at_utc = Some(second(1));
    assert_eq!(Run::rehydrate(late).err(), Some(RunError::InvalidTimeline));
    assert_eq!(
        Run::rehydrate(snapshot(RunState::Failed, created)).err(),
        Some(RunError::InvalidOutcome)
    );
    assert_eq!(RunError::InvalidIdentity.to_string(), "process identity is incomplete");
}

// Transitions -----------------------------------------------------------------------------------

#[test]
fn one_shot_matrix_matches_contract() {
    let legal = [
        (JobState::Scheduled, JobState::Waiting),
        (JobState::Scheduled, JobState::CancelRequested),
        (JobState::Scheduled, JobState::Missed),
        (JobState::Waiting, JobState::Starting),
        (JobState::Waiting, JobState::CancelRequested),
        (JobState::Waiting, JobState::Missed),
        (JobState::Starting, JobState::Running),
        (JobState::Starting, JobState::Failed),
        (JobState::Starting, JobState::CancelRequested),
        (JobState::Starting, JobState::Interrupted),
        (JobState::Running, JobState::Succeeded),
        (JobState::Running, JobState::Failed),
        (JobState::Running, JobState::CancelRequested),
        (JobState::Running, JobState::Interrupted),
        (JobState::CancelRequested, JobState::Cancelled),
        (JobState::CancelRequested, JobState::Succeeded),
        (JobState::CancelRequested, JobState::Failed),
        (JobState::CancelRequested, JobState::Interrupted),
    ];

    for from in JobState::ALL {
        for to in JobState::ALL {
            let actual =
                job_transition(from, to, false, TransitionActor::Supervisor, "matrix").is_ok();
            assert_eq!(actual, legal.contains(&(from, to)), "{from:?} -> {to:?}");
        }
    }
}

#[test]
fn recurring_run_can_return_job_to_waiting() {
    assert!(job_transition(
        JobState::Running,
        JobState::Waiting,
        true,
        TransitionActor::Monitor,
        "next occurrence",
    )
    .is_ok());
}

#[test]
fn cancellation_race_uses_committed_precedence() {
    assert_eq!(
        complete_run(RunState::CancelRequested, Completion::TerminatedByCancellation),
        Ok(RunState::Cancelled)
    );
    assert_eq!(
        complete_run(RunState::CancelRequested, Completion::Exit(0)),
        Ok(RunState::Succeeded)
    );
    assert_eq!(
        complete_run(RunState::CancelRequested, Completion::Exit(7)),
        Ok(RunState::Failed)
    );
}

#[test]
fn cancellation_must_be_committed_before_termination() {
    assert_eq!(
        complete_run(RunState::Running, Completion::TerminatedByCancellation),
        Err(TransitionError::CancellationNotCommitted)
    );
    assert_eq!(
        TransitionError::CancellationNotCommitted.to_string(),
        "cancellation was not committed before termination"
    );
}

#[test]
fn run_matrix_matches_contract() {
    let legal = [
        (RunState::Starting, RunState::Running),
        (RunState::Starting, RunState::Failed),
        (RunState::Starting, RunState::CancelRequested),
        (RunState::Starting, RunState::Interrupted),
        (RunState::Running, RunState::Succeeded),
        (RunState::Running, RunState::Failed),
        (RunState::Running, RunState::CancelRequested),
        (RunState::Running, RunState::Interrupted),
        (RunState::CancelRequested, RunState::Cancelled),
        (RunState::CancelRequested, RunState::Succeeded),
        (RunState::CancelRequested, RunState::Failed),
        (RunState::CancelRequested, RunState::Interrupted),
    ];

    for from in RunState::ALL {
        for to in RunState::ALL {
            let actual = run_transition(from, to, TransitionActor::Recovery, "matrix").is_ok();
            assert_eq!(actual, legal.contains(&(from, to)), "{from:?} -> {to:?}");
        }
    }
}
