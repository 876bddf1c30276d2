use atx::application::doctor::{
    DiagnosticCheck, DiagnosticStatus, DoctorReport, DoctorReportBuilder,
};
use atx::application::history::{RunOutput, RunOutputError, RunStream};
use atx::application::list::{ManagementError, ManagementStoreError};
use atx::application::service::{ServiceAvailability, ServiceChange, ServiceStatus};
use atx::application::submit::{SubmissionOutcome, SupervisorAckError};
use atx::cli::args::{
    interpret, json_requested, move_to_front, normalize_management_order, ColorArg, DstArg,
    GlobalArgs, ManagementCommand, MissedArg, ParsedCli, RawCli, ScheduleOptions, SchedulingArgs,
    UsageError,
};
use atx::cli::doctor::{
    build_doctor_report, check_database, check_live_supervisor, check_private_directory,
    check_supervisor, doctor_exit, DirectoryLook, DoctorFacts, EntryLook, ProcessLook,
};
use atx::cli::environment::{
    build_environment, parse_env_file, read_env_file, split_assignment, MAX_ENV_FILE_BYTES,
};
use atx::cli::error::{management_cli_error, output_cli_error, remediation, CliError};
use atx::cli::exit;
use atx::cli::human::{display_argv, format_outcome, remaining, HumanRenderer};
use atx::cli::manage::{chosen_grace, chosen_state, parse_job_state};
use atx::cli::schedule::{build_job, build_schedule, SubmissionFacts};
use atx::cli::submit::{
    ack_step, capture_warning, config_overrides, require_durable, schedule_step, shell_warning,
    socket_path, submission_exit, unsupervised_notice, AckStep, ScheduleAction, ScheduleEvent,
    ScheduleState,
};
use atx::cli::view::{JobView, ProcessView, RunOutputView, RunView, SubmissionView};
use atx::domain::duration::DurationSeconds;
use atx::domain::environment::Environment;
use atx::domain::execution::{ExecutionMode, ExecutionSpec};
use atx::domain::id::{JobId, RunId};
use atx::domain::job::Job;
use atx::domain::primitives::{Sequence, UtcTimestamp};
use atx::domain::recurrence::ElapsedInstant;
use atx::domain::run::{ClaimToken, Run, RunOutcome};
use atx::domain::schedule::{DstResolution, MissedPolicy, RuntimeTier, Schedule};
use atx::domain::state::{JobState, RunState};
use atx::infrastructure::config::{load_config, ColorMode, Config, ConfigOverrides, Verbosity};
use atx::infrastructure::paths::{EntryFacts, PathError};
use atx::infrastructure::process::IdentityStatus;

fn timestamp(second: i64) -> UtcTimestamp {
    UtcTimestamp::from_second(second).expect("timestamp")
}

fn texts(values: &[&str]) -> Vec<String> {
    values.iter().map(|value| (*value).to_owned()).collect()
}

fn pairs(values: &[(&str, &str)]) -> Vec<(String, String)> {
    values.iter().map(|(key, value)| ((*key).to_owned(), (*value).to_owned())).collect()
}

fn shell_execution() -> ExecutionSpec {
    ExecutionSpec::new(
        ExecutionMode::Shell,
        vec!["true".to_owned()],
        "/".to_owned(),
        Environment::from_pairs(pairs(&[("PATH", "/usr/bin:/bin")])).ok().expect("environment"),
    )
    .ok()
    .expect("execution")
}

fn fixture_job(now: i64) -> Job {
    Job::new(
        timestamp(now),
        Schedule::one_shot_relative(
            DurationSeconds::new(30).expect("duration"),
            timestamp(now + 30),
        ),
        MissedPolicy::Hold,
        RuntimeTier::Session,
        shell_execution(),
        501,
    )
    .ok()
    .expect("job")
}

fn global() -> GlobalArgs {
    GlobalArgs { quiet: false, verbose: 0, json: false, color: ColorArg::Never, state_dir: None }
}

fn options() -> ScheduleOptions {
    ScheduleOptions {
        dry_run: false,
        utc: false,
        tz: None,
        dst: None,
        no_rollover: false,
        cwd: None,
        shell: false,
        name: None,
        description: None,
        env: Vec::new(),
        env_file: None,
        capture_env: false,
        missed: None,
        durable: false,
        every: None,
        tty: false,
    }
}

// Arguments -------------------------------------------------------------------------------------

fn raw(when: &[&str], argv: &[&str], schedule: ScheduleOptions) -> RawCli {
    RawCli {
        global: global(),
        schedule,
        when: texts(when),
        argv: argv.iter().map(|argument| Some((*argument).to_owned())).collect(),
        management: None,
    }
}

#[test]
fn interpreted_commands_keep_their_arguments() {
    let parsed = interpret(raw(
        &["30s"],
        &["printf", "--flag", "hello"],
        ScheduleOptions { env: texts(&["A=1"]), ..options() },
    ));
    match parsed {
        Ok(ParsedCli::Schedule(schedule)) => {
            assert_eq!(schedule.when, ["30s"]);
            assert_eq!(schedule.options.env, ["A=1"]);
            assert_eq!(
                schedule.argv,
                [Some("printf".to_owned()), Some("--flag".to_owned()), Some("hello".to_owned())]
            );
        }
        _ => panic!("schedule expected"),
    }
}

#[test]
fn schedules_need_a_command_and_one_time() {
    let every = || ScheduleOptions { every: Some("1m".to_owned()), ..options() };
    assert!(matches!(
        interpret(raw(&["30s"], &[], options())),
        Err(UsageError::MissingCommand)
    ));
    assert!(matches!(
        interpret(raw(&["30s"], &["echo"], every())),
        Err(UsageError::TimeConflict)
    ));
    assert!(matches!(
        interpret(raw(&[], &["echo"], options())),
        Err(UsageError::TimeConflict)
    ));
    assert!(interpret(raw(&[], &["echo"], every())).is_ok());

    let mut management = raw(&[], &[], options());
    management.management = Some(ManagementCommand::Ps);
    assert!(matches!(
        interpret(management),
        Ok(ParsedCli::Management { command: ManagementCommand::Ps, .. })
    ));
}

#[test]
fn management_commands_are_found_behind_options() {
    let arguments = texts(&["atx", "--state-dir", "/tmp/atx", "ls", "--limit", "7"]);
    let index = normalize_management_order(&arguments);
    assert_eq!(index, Some(3));
    let mut moved = arguments.clone();
    move_to_front(&mut moved, 3);
    assert_eq!(moved, ["atx", "ls", "--state-dir", "/tmp/atx", "--limit", "7"]);
    // What an option takes is no command, nor is anything behind the separator.
    assert_eq!(normalize_management_order(&texts(&["atx", "--state-dir", "ls"])), None);
    assert_eq!(normalize_management_order(&texts(&["atx", "30s", "--", "ls"])), None);
}

#[test]
fn json_is_requested_before_the_separator() {
    assert!(json_requested(&texts(&["atx", "--json", "ls"])));
    assert!(!json_requested(&texts(&["atx", "30s", "--", "echo", "--json"])));
    assert!(!json_requested(&texts(&["atx", "ls"])));
}

// Exit codes and errors -------------------------------------------------------------------------

#[test]
fn exit_codes_are_stable_across_releases() {
    let expected = [
        (2, exit::usage()),
        (3, exit::not_found()),
        (4, exit::conflict()),
        (5, exit::capability()),
        (10, exit::storage()),
        (11, exit::supervision()),
        (12, exit::permission()),
        (70, exit::internal()),
    ];
    for (value, actual) in expected {
        assert_eq!(actual, value);
    }
}

#[test]
fn error_output_selects_remediations_per_code() {
    assert!(remediation("JOB_NOT_FOUND").is_some());
    assert!(remediation("STATE_CONFLICT").is_some());
    assert_ne!(remediation("JOB_NOT_FOUND"), remediation("STATE_CONFLICT"));
    assert_eq!(remediation("NO_SUCH_CODE"), None);
}

#[test]
fn errors_carry_codes_and_exits() {
    let missing = management_cli_error(true, ManagementError::NotFound);
    assert_eq!((missing.exit, missing.code, missing.json), (3, "JOB_NOT_FOUND", true));
    let conflict = management_cli_error(false, ManagementError::StateConflict("done"));
    assert_eq!((conflict.exit, conflict.code), (4, "STATE_CONFLICT"));
    let storage = management_cli_error(
        false,
        ManagementError::Store(ManagementStoreError("disk".to_owned())),
    );
    assert_eq!((storage.exit, storage.code), (10, "STORAGE_ERROR"));
    assert_eq!(management_cli_error(false, ManagementError::InvalidPrefix).exit, 3);
    assert_eq!(management_cli_error(false, ManagementError::InvalidLimit).exit, 2);
    assert_eq!(output_cli_error(false, RunOutputError::InvalidPrefix).exit, 3);
    assert_eq!(output_cli_error(false, RunOutputError::Read("gone".to_owned())).exit, 10);
    assert_eq!(CliError::internal(false, "bug".to_owned()).exit, 70);
}

// Doctor ----------------------------------------------------------------------------------------

fn entry(mode: u32) -> EntryFacts {
    EntryFacts {
        is_symlink: false,
        is_directory: true,
        is_file: false,
        is_socket: false,
        owner: 501,
        mode,
    }
}

fn lock_entry() -> EntryFacts {
    EntryFacts { is_directory: false, is_file: true, ..entry(0o100600) }
}

fn socket_entry() -> EntryFacts {
    EntryFacts { is_directory: false, is_socket: true, ..entry(0o140600) }
}

fn missing_directory(path: &str) -> DirectoryLook {
    DirectoryLook {
        path: path.to_owned(),
        exists: false,
        entry: Err(PathError::Io("missing".to_owned())),
    }
}

fn found_directory(path: &str, mode: u32) -> DirectoryLook {
    DirectoryLook { path: path.to_owned(), exists: true, entry: Ok(entry(mode)) }
}

fn config() -> Config {
    load_config(None, &Vec::new(), ConfigOverrides::default()).ok().expect("config")
}

fn unavailable_service() -> ServiceStatus {
    ServiceStatus {
        manager: "fake".to_owned(),
        availability: ServiceAvailability::Unavailable,
        installed: false,
        running: false,
        files: Vec::new(),
        guarantee: "none".to_owned(),
        detail: "not here".to_owned(),
    }
}

fn doctor_facts(state_directory: DirectoryLook, runtime_directory: DirectoryLook) -> DoctorFacts {
    DoctorFacts {
        uid: 501,
        state_directory,
        runtime_directory,
        config: Ok(config()),
        schema: None,
        processes: Some(ProcessLook {
            identified: true,
            lock: EntryLook::Missing,
            socket: EntryLook::Missing,
            holder: None,
        }),
        service: Ok(unavailable_service()),
    }
}

#[test]
fn doctor_reports_fresh_and_stale_runtime_fixtures() {
    let fresh = build_doctor_report(doctor_facts(
        missing_directory("/s"),
        missing_directory("/s/runtime"),
    ));
    assert!(fresh.healthy);
    assert!(!fresh.durable_available);

    let mut facts = doctor_facts(
        found_directory("/s", 0o40700),
        found_directory("/s/runtime", 0o40700),
    );
    facts.processes = Some(ProcessLook {
        identified: true,
        lock: EntryLook::Found(lock_entry()),
        socket: EntryLook::Missing,
        holder: None,
    });
    let stale = build_doctor_report(facts);
    assert!(stale.healthy);
    assert!(stale
        .checks
        .iter()
        .any(|check| check.name == "supervisor" && check.status == DiagnosticStatus::Warning));
}

#[test]
fn doctor_fails_wrong_modes_and_runtime_ownership() {
    let report = build_doctor_report(doctor_facts(
        found_directory("/s", 0o40755),
        missing_directory("/s/runtime"),
    ));
    assert!(!report.healthy);

    let mut builder = DoctorReportBuilder::default();
    check_live_supervisor(&mut builder, lock_entry(), socket_entry(), None, 502);
    assert!(!builder.finish("test".to_owned(), None, false, None).healthy);
}

#[test]
fn doctor_database_check_covers_missing_corrupt_and_valid() {
    // Missing database: warning diagnostic, no schema version.
    let mut builder = DoctorReportBuilder::default();
    assert_eq!(check_database(&mut builder, None), None);
    assert!(builder.finish("tz".to_owned(), None, false, None).healthy);

    // Corrupt database file: failing diagnostic.
    let mut builder = DoctorReportBuilder::default();
    assert_eq!(check_database(&mut builder, Some(Err("not a database".to_owned()))), None);
    assert!(!builder.finish("tz".to_owned(), None, false, None).healthy);

    // Valid database: schema version is reported.
    let mut builder = DoctorReportBuilder::default();
    assert_eq!(check_database(&mut builder, Some(Ok(3))), Some(3));
}

#[test]
fn private_directory_check_reports_missing_private_and_shared() {
    let mut builder = DoctorReportBuilder::default();
    check_private_directory(&mut builder, "missing", missing_directory("/nope"), 501);
    check_private_directory(&mut builder, "private", found_directory("/p", 0o40700), 501);
    check_private_directory(&mut builder, "shared", found_directory("/q", 0o40755), 501);
    let report = builder.finish("tz".to_owned(), None, false, None);
    let statuses: Vec<(&str, DiagnosticStatus)> =
        report.checks.iter().map(|check| (check.name.as_str(), check.status)).collect();
    assert_eq!(
        statuses,
        vec![
            ("missing", DiagnosticStatus::Warning),
            ("private", DiagnosticStatus::Pass),
            ("shared", DiagnosticStatus::Fail),
        ]
    );
}

#[test]
fn supervisor_check_flags_disagreeing_runtime_entries() {
    let mut disagreeing = DoctorReportBuilder::default();
    check_supervisor(
        &mut disagreeing,
        EntryLook::Found(lock_entry()),
        EntryLook::Missing,
        None,
        501,
    );
    let report = disagreeing.finish("tz".to_owned(), None, false, None);
    assert!(report.checks.iter().any(|check| check.status == DiagnosticStatus::Warning));
}

#[test]
fn live_supervisor_with_unreadable_identity_is_stale() {
    let mut builder = DoctorReportBuilder::default();
    check_live_supervisor(&mut builder, lock_entry(), socket_entry(), None, 501);
    let report = builder.finish("tz".to_owned(), None, false, None);
    assert!(report.healthy, "stale identity is a warning, not a failure");
    assert!(report.checks.iter().any(|check| check.status == DiagnosticStatus::Warning));

    let mut live = DoctorReportBuilder::default();
    check_live_supervisor(
        &mut live,
        lock_entry(),
        socket_entry(),
        Some(IdentityStatus::Alive),
        501,
    );
    let report = live.finish("tz".to_owned(), None, false, None);
    assert!(report.checks.iter().all(|check| check.status == DiagnosticStatus::Pass));
}

#[test]
fn doctor_exit_maps_failure_kinds_to_exit_codes() {
    let failed = |name: &str| {
        let mut builder = DoctorReportBuilder::default();
        builder.push(name.to_owned(), DiagnosticStatus::Fail, "broken".to_owned(), None);
        doctor_exit(&builder.finish("tz".to_owned(), None, false, None))
    };
    let healthy = DoctorReportBuilder::default().finish("tz".to_owned(), None, false, None);
    assert_eq!(doctor_exit(&healthy), 0);
    assert_eq!(failed("SQLite"), exit::storage());
    assert_eq!(failed("supervisor"), exit::supervision());
    assert_eq!(failed("state directory"), exit::permission());
}

// Schedules -------------------------------------------------------------------------------------

fn scheduling(when: &[&str], argv: &[&str], options: ScheduleOptions) -> SchedulingArgs {
    SchedulingArgs {
        global: global(),
        options,
        when: texts(when),
        argv: argv.iter().map(|argument| Some((*argument).to_owned())).collect(),
    }
}

fn facts() -> SubmissionFacts {
    SubmissionFacts {
        wall_now: timestamp(1_784_204_100),
        elapsed_now: ElapsedInstant::from_nanos(5_000),
        owner_uid: 501,
        directory: Ok(("/work".to_owned(), true)),
        environment: Ok(Environment::empty()),
        terminal: Err("standard output is not a terminal".to_owned()),
    }
}

#[test]
fn schedule_matrix_builds_relative_calendar_and_recurring_jobs() {
    let config = config();
    for args in [
        scheduling(&["30s"], &["printf", "%s", "hello"], options()),
        scheduling(&["23:59:59"], &["true"], ScheduleOptions { utc: true, ..options() }),
        scheduling(&[], &["true"], ScheduleOptions { every: Some("5m".to_owned()), ..options() }),
    ] {
        assert!(build_job(&args, &config, facts()).is_ok());
    }
}

#[test]
fn shell_and_calendar_conflicts_fail_before_mutation() {
    let config = config();
    for args in [
        scheduling(&["30s"], &["echo", "extra"], ScheduleOptions { shell: true, ..options() }),
        scheduling(
            &["23:59"],
            &["true"],
            ScheduleOptions { utc: true, dst: Some(DstArg::Earlier), ..options() },
        ),
        scheduling(
            &["2099-01-01"],
            &["true"],
            ScheduleOptions { no_rollover: true, ..options() },
        ),
    ] {
        assert!(build_job(&args, &config, facts()).is_err());
    }
}

#[test]
fn schedule_calendar_option_conflicts_are_rejected() {
    let every = || ScheduleOptions { every: Some("5m".to_owned()), ..options() };
    let config = config();
    for args in [
        scheduling(&[], &["true"], ScheduleOptions { utc: true, ..every() }),
        scheduling(&[], &["true"], ScheduleOptions { dst: Some(DstArg::Earlier), ..every() }),
        scheduling(&[], &["true"], ScheduleOptions { no_rollover: true, ..every() }),
        scheduling(&["30s"], &["true"], ScheduleOptions { utc: true, ..options() }),
        scheduling(&["30s"], &["true"], ScheduleOptions { tz: Some("UTC".to_owned()), ..options() }),
        scheduling(&["30s"], &["true"], ScheduleOptions { dst: Some(DstArg::Later), ..options() }),
        scheduling(&["30s"], &["true"], ScheduleOptions { no_rollover: true, ..options() }),
        scheduling(&[], &["true"], ScheduleOptions { tz: Some("UTC".to_owned()), ..every() }),
    ] {
        assert!(build_job(&args, &config, facts()).is_err(), "conflict accepted");
    }

    // A non-local default timezone resolves calendar input as named UTC.
    let named = load_config(
        None,
        &Vec::new(),
        ConfigOverrides {
            default_timezone: Some("UTC".to_owned()),
            ..ConfigOverrides::default()
        },
    )
    .ok()
    .expect("config");
    assert!(build_job(&scheduling(&["23:59"], &["true"], options()), &named, facts()).is_ok());
}

#[test]
fn tty_echo_requires_a_terminal_stdout() {
    let args = scheduling(&["30s"], &["true"], ScheduleOptions { tty: true, ..options() });
    assert_eq!(
        build_job(&args, &config(), facts()).err().as_deref(),
        Some("--tty requires stdout to be a terminal: standard output is not a terminal")
    );
    let terminal = SubmissionFacts { terminal: Ok("/dev/pts/3".to_owned()), ..facts() };
    let job = build_job(&args, &config(), terminal).ok().expect("terminal");
    assert_eq!(job.execution().notify_tty(), Some("/dev/pts/3"));
}

#[test]
fn built_jobs_hold_what_was_asked_for() {
    let args = scheduling(
        &["1m30s"],
        &["echo hi"],
        ScheduleOptions {
            shell: true,
            name: Some("greeting".to_owned()),
            missed: Some(MissedArg::RunLatest),
            durable: true,
            ..options()
        },
    );
    let job = build_job(&args, &config(), facts()).ok().expect("job");
    assert!(job.next_due_utc() == timestamp(1_784_204_190));
    assert_eq!(job.missed_policy(), MissedPolicy::RunLatest);
    assert_eq!(job.runtime_tier(), RuntimeTier::Durable);
    assert_eq!(job.execution().mode(), ExecutionMode::Shell);
    assert_eq!(job.execution().shell_path(), Some("/bin/sh"));
    assert_eq!(job.execution().working_directory(), "/work");
    assert!(job.snapshot().name.map(|name| name.as_str().to_owned()).as_deref() == Some("greeting"));
}

#[test]
fn calendar_schedules_resolve_in_the_named_zone() {
    let built = build_schedule(
        &ScheduleOptions { tz: Some("Asia/Tokyo".to_owned()), ..options() },
        &texts(&["2030-01-01", "09:00"]),
        "local",
        timestamp(1_784_204_100),
        ElapsedInstant::from_nanos(0),
    )
    .ok()
    .expect("schedule");
    match built {
        Schedule::OneShotAbsolute { timezone, resolved_due_utc, dst_resolution, .. } => {
            assert_eq!(timezone, "Asia/Tokyo");
            assert!(resolved_due_utc == timestamp(1_893_456_000));
            assert_eq!(dst_resolution, DstResolution::Reject);
        }
        _ => panic!("calendar schedule expected"),
    }
}

#[test]
fn working_directories_must_be_directories() {
    let args = scheduling(&["30s"], &["true"], options());
    let file = SubmissionFacts { directory: Ok(("/work/file".to_owned(), false)), ..facts() };
    assert!(build_job(&args, &config(), file).is_err());
    let unusable = SubmissionFacts { directory: Err("gone".to_owned()), ..facts() };
    assert_eq!(
        build_job(&args, &config(), unusable).err().as_deref(),
        Some("cannot resolve current directory: gone")
    );
}

// Environments ----------------------------------------------------------------------------------

#[test]
fn env_assignments_require_a_key_before_the_equals_sign() {
    assert_eq!(split_assignment("KEY=value"), Ok(("KEY".to_owned(), "value".to_owned())));
    assert_eq!(
        split_assignment("KEY=with=equals"),
        Ok(("KEY".to_owned(), "with=equals".to_owned()))
    );
    assert!(split_assignment("NO_EQUALS").is_err());
    assert!(split_assignment("=NO_KEY").is_err());
}

#[test]
fn env_file_rejects_duplicates_and_accepts_comments() {
    let values = parse_env_file("# note\nA=1\n\nB=two=parts\n").expect("environment");
    assert_eq!(
        values.iter().find(|pair| pair.0 == "B").map(|pair| pair.1.as_str()),
        Some("two=parts")
    );
    assert!(parse_env_file("A=1\nA=2\n").is_err());
}

#[test]
fn env_files_reject_directories_nul_bytes_and_oversize() {
    let read = |metadata: (bool, u64), contents: &str| {
        read_env_file("/values.env", Ok(metadata), Ok(contents.to_owned()))
    };
    assert!(read((false, 10), "").is_err());
    assert!(read((true, 8), "A=1\0B=2").is_err());
    assert!(read((true, MAX_ENV_FILE_BYTES + 1), "").is_err());
    assert_eq!(read((true, 4), "A=1\n"), Ok(pairs(&[("A", "1")])));
    assert!(read_env_file("/values.env", Err("denied".to_owned()), Ok(String::new())).is_err());
}

#[test]
fn given_variables_win_over_inherited_ones() {
    let inherited = || pairs(&[("PATH", "/bin"), ("HOME", "/root"), ("SECRET", "x")]);
    let environment = build_environment(
        inherited(),
        false,
        Some(Ok(pairs(&[("PATH", "/file"), ("EXTRA", "1")]))),
        &texts(&["PATH=/given"]),
    )
    .ok()
    .expect("environment");
    let listed = environment.to_pairs();
    assert!(listed.contains(&("PATH".to_owned(), "/given".to_owned())));
    assert!(listed.contains(&("HOME".to_owned(), "/root".to_owned())));
    assert!(listed.contains(&("EXTRA".to_owned(), "1".to_owned())));
    assert!(!listed.iter().any(|pair| pair.0 == "SECRET"));

    let captured = build_environment(inherited(), true, None, &Vec::new()).ok().expect("all");
    assert!(captured.to_pairs().iter().any(|pair| pair.0 == "SECRET"));
}

// Management ------------------------------------------------------------------------------------

#[test]
fn job_state_parsing_accepts_known_states_only() {
    for (value, expected) in [
        ("scheduled", JobState::Scheduled),
        ("waiting", JobState::Waiting),
        ("starting", JobState::Starting),
        ("running", JobState::Running),
        ("cancel_requested", JobState::CancelRequested),
        ("succeeded", JobState::Succeeded),
        ("failed", JobState::Failed),
        ("cancelled", JobState::Cancelled),
        ("interrupted", JobState::Interrupted),
        ("missed", JobState::Missed),
    ] {
        assert_eq!(parse_job_state(value), Ok(expected));
    }
    assert!(parse_job_state("").is_err());
    assert!(parse_job_state("bogus").is_err());
}

#[test]
fn command_choices_fall_back_to_defaults() {
    let default = DurationSeconds::new(10).expect("grace");
    assert_eq!(chosen_grace(&None, default), Ok(default));
    assert_eq!(
        chosen_grace(&Some("2s".to_owned()), default).map(|grace| grace.get()),
        Ok(2)
    );
    assert!(chosen_grace(&Some("soon".to_owned()), default).is_err());
    assert_eq!(chosen_state(&None), Ok(None));
    assert_eq!(chosen_state(&Some("failed".to_owned())), Ok(Some(JobState::Failed)));
    assert!(chosen_state(&Some("bogus".to_owned())).is_err());
}

// Rendering -------------------------------------------------------------------------------------

#[test]
fn command_display_keeps_each_argument_visible() {
    let rendered = display_argv(&texts(&["printf", "hello world"]));
    assert!(rendered.contains("printf"), "{rendered}");
    assert!(rendered.contains("hello world"), "{rendered}");
    assert_ne!(rendered, "printf hello world", "arguments must stay distinct");
    assert_eq!(display_argv(&texts(&["echo", "it's", "a-b_c./d"])), "echo 'it'\\''s' a-b_c./d");
}

#[test]
fn timestamps_and_outcomes_are_plain_human_text() {
    let run = Run::new(
        JobId::new(),
        Sequence::new(1).expect("sequence"),
        timestamp(1_700_000_000),
        timestamp(1_700_000_000),
        ClaimToken::from_bytes([7; 32]),
    );
    let listed = HumanRenderer::runs(&vec![RunView::from_run(&run)]);
    let line = listed.lines().nth(1).expect("run line");
    let rendered = line.split('\t').nth(3).expect("scheduled time");
    let mut parts = rendered.split_whitespace();
    let date = parts.next().expect("local date");
    let time = parts.next().expect("local time");
    let offset = parts.next().expect("UTC offset");
    assert!(parts.next().is_none(), "{rendered}");
    assert_eq!(date.matches('-').count(), 2, "{rendered}");
    assert_eq!(time.matches(':').count(), 2, "{rendered}");
    assert!(offset.starts_with(['+', '-']), "{rendered}");
    assert!(offset.contains(':'), "{rendered}");

    for (outcome, detail) in [
        (RunOutcome::Exit(0), "0"),
        (RunOutcome::Signal(libc::SIGKILL), "SIGKILL"),
        (RunOutcome::Signal(999), "999"),
        (RunOutcome::Failure("spawn".to_owned()), "spawn"),
        (RunOutcome::Interrupted("unknown".to_owned()), "unknown"),
        (RunOutcome::Cancelled("requested".to_owned()), "requested"),
    ] {
        let rendered = format_outcome(&outcome);
        assert!(rendered.contains(detail), "{rendered}");
    }
    for (signal, name) in [
        (libc::SIGHUP, "SIGHUP"),
        (libc::SIGINT, "SIGINT"),
        (libc::SIGQUIT, "SIGQUIT"),
        (libc::SIGTERM, "SIGTERM"),
    ] {
        assert_eq!(
            format_outcome(&RunOutcome::Signal(signal)),
            format!("signal {signal} ({name})")
        );
    }
}

#[test]
fn remaining_time_is_rounded_down() {
    for (seconds, text) in [
        (-5, "due"),
        (0, "due"),
        (59, "59s"),
        (61, "1m 1s"),
        (3_599, "59m 59s"),
        (7_322, "2h 2m"),
    ] {
        assert_eq!(remaining(seconds), text);
    }
}

#[test]
fn explicit_color_modes_do_not_depend_on_a_tty() {
    for terminal in [false, true] {
        assert!(HumanRenderer::new(ColorArg::Always, terminal)
            .state(JobState::Scheduled)
            .contains("\u{1b}["));
        assert!(!HumanRenderer::new(ColorArg::Never, terminal)
            .state(JobState::Scheduled)
            .contains("\u{1b}["));
    }
    assert_eq!(
        HumanRenderer::new(ColorArg::Auto, true).state(JobState::Failed),
        "\u{1b}[31mFailed\u{1b}[0m"
    );
    assert_eq!(HumanRenderer::new(ColorArg::Auto, false).state(JobState::Failed), "Failed");
}

fn truncated_output() -> RunOutput {
    RunOutput {
        run_id: RunId::new(),
        job_id: JobId::new(),
        state: RunState::Failed,
        outcome: None,
        stdout: RunStream { content: b"kept".to_vec(), truncated: true },
        stderr: RunStream::empty(),
    }
}

#[test]
fn run_output_marks_truncated_streams() {
    let rendered = HumanRenderer::run_output(&truncated_output());
    assert!(rendered.contains("kept"), "{rendered}");
    assert!(rendered.contains("truncated"), "{rendered}");
}

#[test]
fn undecodable_output_is_replaced() {
    let mut output = truncated_output();
    output.stdout.content = vec![b'a', 0xff, b'b'];
    let view = RunOutputView::from_output(&output);
    assert_eq!(view.stdout, "a\u{fffd}b");
    assert!(view.stdout_truncated);
    assert!(!view.stderr_truncated);
    assert!(HumanRenderer::run_output(&output).contains("a\u{fffd}b"));
}

#[test]
fn doctor_reports_unhealthy_and_colored_markers() {
    let report = |healthy: bool, checks: Vec<DiagnosticCheck>| DoctorReport {
        healthy,
        checks,
        tzdb_version: "test".to_owned(),
        schema_version: None,
        durable_available: true,
        config: None,
    };
    let unhealthy = HumanRenderer::new(ColorArg::Never, false).doctor(&report(false, Vec::new()));
    assert_eq!(unhealthy, "ATX needs attention.\ntzdb: test");

    let healthy = report(
        true,
        vec![
            DiagnosticCheck {
                name: "store".to_owned(),
                status: DiagnosticStatus::Pass,
                message: "open".to_owned(),
                remediation: None,
            },
            DiagnosticCheck {
                name: "tz".to_owned(),
                status: DiagnosticStatus::Fail,
                message: "missing".to_owned(),
                remediation: None,
            },
        ],
    );
    let rendered = HumanRenderer::new(ColorArg::Always, false).doctor(&healthy);
    assert_ne!(unhealthy, rendered);
    assert!(rendered.contains("store"), "{rendered}");
    assert!(rendered.contains("tz"), "{rendered}");
    assert!(rendered.contains("open"), "{rendered}");
    assert!(rendered.contains("missing"), "{rendered}");
    assert!(rendered.contains("\u{1b}["), "{rendered}");
}

fn installed_service() -> ServiceStatus {
    ServiceStatus {
        manager: "fake".to_owned(),
        availability: ServiceAvailability::Available,
        installed: true,
        running: false,
        files: Vec::new(),
        guarantee: "best-effort".to_owned(),
        detail: "test fixture".to_owned(),
    }
}

#[test]
fn service_status_keeps_supplied_details_visible() {
    let rendered = HumanRenderer::service_status(&installed_service());
    for detail in ["fake", "best-effort", "test fixture"] {
        assert!(rendered.contains(detail), "{rendered}");
    }
    assert_eq!(
        HumanRenderer::service_change(&ServiceChange {
            changed: false,
            status: installed_service(),
        }),
        "No change needed.\nManager: fake\nInstalled: true\nRunning: false\nFiles: -\n\
         Guarantee: best-effort\nStatus: test fixture"
    );
}

#[test]
fn job_view_lists_environment_keys_without_values() {
    let now = timestamp(100);
    let job = Job::new(
        now,
        Schedule::one_shot_relative(DurationSeconds::new(30).expect("duration"), timestamp(130)),
        MissedPolicy::Hold,
        RuntimeTier::Session,
        ExecutionSpec::new(
            ExecutionMode::Direct,
            vec!["true".to_owned()],
            "/tmp".to_owned(),
            Environment::from_pairs(pairs(&[("TOKEN", "secret-value")]))
                .ok()
                .expect("environment"),
        )
        .ok()
        .expect("execution"),
        501,
    )
    .ok()
    .expect("job");

    let view = JobView::from_job(&job, now);
    assert_eq!(view.execution.environment_keys, ["TOKEN"]);
    assert_eq!(view.remaining_seconds, 30);
    let rendered = HumanRenderer::new(ColorArg::Never, false).job(&view);
    assert!(rendered.contains("TOKEN"));
    assert!(!rendered.contains("secret-value"));
}

#[test]
fn submission_rendering_reports_unsupervised_commits() {
    let outcome = SubmissionOutcome::CommittedUnsupervised {
        job: fixture_job(5_000),
        error: SupervisorAckError("no supervisor socket".to_owned()),
    };
    let view = SubmissionView::from_outcome(&outcome);
    assert!(!view.supervised);
    assert!(!view.dry_run);
    assert_eq!(submission_exit(&outcome), exit::supervision());
    assert!(unsupervised_notice(&outcome)
        .is_some_and(|notice| notice.contains("no supervisor socket")));
    assert!(HumanRenderer::new(ColorArg::Never, false)
        .submission(&view)
        .contains(view.job_id.as_str()));

    let dry = SubmissionOutcome::DryRun(fixture_job(5_100));
    assert!(SubmissionView::from_outcome(&dry).dry_run);
    assert_eq!(submission_exit(&dry), 0);
    assert!(unsupervised_notice(&dry).is_none());
}

#[test]
fn job_renderers_honor_json_and_quiet_modes() {
    let job = fixture_job(6_000);
    let view = JobView::from_job(&job, timestamp(6_000));
    let run = Run::new(
        job.id(),
        Sequence::new(1).expect("sequence"),
        timestamp(6_030),
        timestamp(6_001),
        ClaimToken::from_bytes([7; 32]),
    );
    let renderer = HumanRenderer::new(ColorArg::Never, false);
    let id = job.id().to_string();
    assert!(renderer.jobs(&vec![JobView::from_job(&job, timestamp(6_000))]).contains(&id));
    assert!(renderer.job(&view).contains(&id));
    assert!(HumanRenderer::runs(&vec![RunView::from_run(&run)]).contains(&run.id().to_string()));
    assert_eq!(HumanRenderer::runs(&Vec::new()), "No runs.");
    assert_eq!(HumanRenderer::processes(&Vec::new()), "No live ATX processes.");
    assert_eq!(
        HumanRenderer::processes(&vec![ProcessView {
            job_id: "j".to_owned(),
            run_id: "r".to_owned(),
            role: "command",
            pid: 7,
            process_group_id: 8,
            state: RunState::Running,
        }]),
        "JOB\tRUN\tROLE\tPID\tPGID\tSTATE\nj\tr\tcommand\t7\t8\tRunning"
    );
}

// Submission ------------------------------------------------------------------------------------

#[test]
fn warnings_are_left_out_when_quiet() {
    let capturing = ScheduleOptions { capture_env: true, ..options() };
    assert!(capture_warning(&capturing, false).is_some());
    assert!(capture_warning(&capturing, true).is_none());
    assert!(capture_warning(&options(), false).is_none());
    let shell = ScheduleOptions { shell: true, ..options() };
    assert!(shell_warning(&shell, false, "/bin/zsh").is_some_and(|text| text.contains("/bin/zsh")));
    assert!(shell_warning(&shell, true, "/bin/zsh").is_none());
}

#[test]
fn flags_become_overrides() {
    let quiet = GlobalArgs { quiet: true, color: ColorArg::Always, ..global() };
    let overrides = config_overrides(&quiet, true);
    assert_eq!(overrides.verbosity, Some(Verbosity::Quiet));
    assert_eq!(overrides.color, Some(ColorMode::Always));
    assert_eq!(overrides.default_runtime, Some(RuntimeTier::Durable));
    assert_eq!(config_overrides(&global(), false).default_runtime, None);
}

#[test]
fn durable_jobs_need_a_running_service() {
    let running = ServiceStatus { running: true, ..installed_service() };
    assert!(require_durable(&running, false).is_ok());
    let refused = require_durable(&installed_service(), true).err().expect("refused");
    assert_eq!(refused.exit, exit::capability());
    assert!(refused.json);
}

#[test]
fn acknowledgements_are_retried_until_the_deadline() {
    let refused = || SupervisorAckError("refused".to_owned());
    assert!(matches!(ack_step(Ok(()), true), AckStep::Done));
    assert!(matches!(ack_step(Err(refused()), false), AckStep::Retry));
    assert!(matches!(
        ack_step(Err(refused()), true),
        AckStep::Failed(error) if error == refused()
    ));
    assert_eq!(socket_path("/run/atx"), "/run/atx/supervisor.sock");
}

#[test]
fn different_commands_are_never_shown_alike() {
    let show = |argv: &[&str]| {
        display_argv(&argv.iter().map(|argument| (*argument).to_owned()).collect())
    };
    assert_eq!(show(&["printf", "hello world"]), "printf 'hello world'");
    assert_eq!(show(&["printf", "hello", "world"]), "printf hello world");
    assert_eq!(show(&["it's"]), "'it'\\''s'");
    let commands: [&[&str]; 9] = [
        &["a b"],
        &["a", "b"],
        &["a", "", "b"],
        &["'a", "b'"],
        &["'a b'"],
        &["a\\", "b"],
        &["a\\ b"],
        &[""],
        &["", ""],
    ];
    for (index, left) in commands.iter().enumerate() {
        for right in &commands[index + 1..] {
            assert_ne!(show(left), show(right));
        }
    }
}

#[test]
fn durable_jobs_are_stored_only_after_the_service_check() {
    let built = |tier, dry_run| {
        schedule_step(ScheduleState::Start, ScheduleEvent::Built { tier, dry_run })
    };
    assert_eq!(
        built(RuntimeTier::Session, false),
        (ScheduleState::Decided, ScheduleAction::Store)
    );
    assert_eq!(
        built(RuntimeTier::Session, true),
        (ScheduleState::Decided, ScheduleAction::DryRun)
    );
    for dry_run in [false, true] {
        let (state, action) = built(RuntimeTier::Durable, dry_run);
        assert_eq!(action, ScheduleAction::AskService);
        let service = |installed, running| {
            schedule_step(state, ScheduleEvent::Service { installed, running }).1
        };
        assert_eq!(service(false, false), ScheduleAction::Refuse);
        assert_eq!(service(true, false), ScheduleAction::Refuse);
        assert_eq!(service(false, true), ScheduleAction::Refuse);
        let expected = if dry_run { ScheduleAction::DryRun } else { ScheduleAction::Store };
        assert_eq!(service(true, true), expected);
    }
    let (_, action) = schedule_step(
        ScheduleState::Decided,
        ScheduleEvent::Service { installed: true, running: true },
    );
    assert_eq!(action, ScheduleAction::Refuse);
}
