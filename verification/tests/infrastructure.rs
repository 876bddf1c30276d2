use std::cell::{Cell, RefCell};
use std::collections::BTreeMap;
use std::rc::Rc;

use atx::application::cancel::GroupCancellation;
use atx::application::clock::ClockError;
use atx::application::reconcile::{IdentityInspector, IdentityStatus as RecoveryIdentityStatus};
use atx::application::service::{install_service, ServiceAvailability, ServiceManager};
use atx::domain::environment::Environment;
use atx::domain::execution::{ExecutionMode, ExecutionSpec};
use atx::domain::id::RunId;
use atx::domain::run::ProcessIdentitySnapshot;
use atx::domain::schedule::RuntimeTier;
use atx::infrastructure::config::{
    load_config, ColorMode, Config, ConfigError, ConfigOverrides, RawConfig, Verbosity,
};
use atx::infrastructure::paths::{
    resolve_paths, validate_leaf_name, validate_private_dir_for_uid, validate_private_file,
    validate_private_log, EntryFacts, PathEnvironment, PathError, Platform,
};
use atx::infrastructure::process::{
    cancel_validated_group, classify_identity, group_cancellation, map_inspection_error,
    parse_linux_stat, parse_mac_process, validate_snapshot, CancelAction, CancelEvent, CancelPhase,
    CancellationResult, IdentityStatus, NativeProcessInspector, ProcessError, ProcessTable,
};
use atx::infrastructure::runtime::{artifact_paths, supervisor_arguments};
use atx::infrastructure::service::macos::{render_plist, xml_escape, LaunchdService};
use atx::infrastructure::service::native::NativeServiceManager;
use atx::infrastructure::service::machine::{CommandOutput, CommandRunner, ServiceFiles};
use atx::infrastructure::service::systemd::{render_unit, systemd_quote, SystemdUserService};
use atx::infrastructure::spawn::{accept_child, command_line, NativeProcessRunner, SpawnError};
use atx::infrastructure::time::{
    boot_identity_from_file, boot_identity_from_timeval, elapsed_from_mach, elapsed_from_parts,
    ticks_to_nanos,
};

fn env(values: &[(&str, &str)]) -> Vec<(String, String)> {
    values.iter().map(|(key, value)| ((*key).to_owned(), (*value).to_owned())).collect()
}

// Configuration ---------------------------------------------------------------------------------

fn toml_text(value: &toml::Value) -> Result<Option<String>, ConfigError> {
    match value {
        toml::Value::String(text) => Ok(Some(text.clone())),
        _ => Err(ConfigError::Toml("expected a string".to_owned())),
    }
}

fn toml_number<T: TryFrom<i64>>(value: &toml::Value) -> Result<Option<T>, ConfigError> {
    match value {
        toml::Value::Integer(number) => T::try_from(*number)
            .map(Some)
            .map_err(|_| ConfigError::Toml("number out of range".to_owned())),
        _ => Err(ConfigError::Toml("expected a number".to_owned())),
    }
}

fn raw_config(source: &str) -> Result<RawConfig, ConfigError> {
    let table = toml::from_str::<toml::Table>(source)
        .map_err(|error| ConfigError::Toml(error.to_string()))?;
    let mut raw = RawConfig::default();
    for (key, value) in &table {
        match key.as_str() {
            "default_timezone" => raw.default_timezone = toml_text(value)?,
            "default_shell" => raw.default_shell = toml_text(value)?,
            "cancel_grace" => raw.cancel_grace = toml_text(value)?,
            "default_runtime" => {
                raw.default_runtime = match toml_text(value)?.as_deref() {
                    Some("session") => Some(RuntimeTier::Session),
                    Some("durable") => Some(RuntimeTier::Durable),
                    _ => return Err(ConfigError::Toml("unknown runtime".to_owned())),
                }
            }
            "history_days" => raw.history_days = toml_number(value)?,
            "terminal_job_days" => raw.terminal_job_days = toml_number(value)?,
            "max_log_bytes_per_stream" => raw.max_log_bytes_per_stream = toml_number(value)?,
            _ => return Err(ConfigError::Toml(format!("unknown field `{key}`"))),
        }
    }
    Ok(raw)
}

fn load(
    source: Option<&str>,
    environment: &Vec<(String, String)>,
    overrides: ConfigOverrides,
) -> Result<Config, ConfigError> {
    let file = match source {
        Some(source) => Some(raw_config(source)?),
        None => None,
    };
    load_config(file, environment, overrides)
}

#[test]
fn layers_use_documented_precedence() {
    let config = load(
        Some("history_days = 10\ndefault_runtime = \"durable\""),
        &env(&[("ATX_HISTORY_DAYS", "20")]),
        ConfigOverrides { history_days: Some(40), ..ConfigOverrides::default() },
    )
    .ok()
    .expect("valid layered config");

    assert_eq!(config.history_days(), 40);
    assert_eq!(config.default_runtime(), RuntimeTier::Durable);
    assert_eq!(config.terminal_job_days(), 30);
}

#[test]
fn unknown_and_malformed_values_are_rejected() {
    let nothing = env(&[]);
    assert!(load(Some("histroy_days = 10"), &nothing, ConfigOverrides::default()).is_err());
    assert!(load(
        None,
        &env(&[("ATX_HISTROY_DAYS", "10")]),
        ConfigOverrides::default(),
    )
    .is_err());
    assert!(
        load(Some("cancel_grace = \"later\""), &nothing, ConfigOverrides::default()).is_err()
    );
}

#[test]
fn safety_bounds_are_checked() {
    for source in [
        "max_log_bytes_per_stream = 0",
        "max_log_bytes_per_stream = 1073741825",
        "history_days = 0",
        "terminal_job_days = 3651",
        "default_shell = \"relative/sh\"",
        "default_timezone = \"Mars/Olympus\"",
    ] {
        assert!(load(Some(source), &env(&[]), ConfigOverrides::default()).is_err(), "{source}");
    }
}

#[test]
fn redacted_view_contains_only_effective_safe_values() {
    let unrelated_secret = "do-not-leak";
    let config = load(
        None,
        &env(&[("HOME", unrelated_secret), ("ATX_VERBOSITY", "quiet")]),
        ConfigOverrides::default(),
    )
    .ok()
    .expect("valid config");

    let shown = config.redacted();
    for text in [&shown.default_timezone, &shown.default_shell, &shown.cancel_grace] {
        assert!(!text.contains(unrelated_secret));
    }
    assert_eq!(shown.verbosity, Verbosity::Quiet);
    assert_eq!(shown.max_log_bytes_per_stream, 10_485_760);
}

#[test]
fn defaults_fill_every_field() {
    let config = load(None, &env(&[]), ConfigOverrides::default()).ok().expect("defaults");
    assert_eq!(config.default_shell(), "/bin/sh");
    assert_eq!(config.default_runtime(), RuntimeTier::Session);
    assert_eq!(config.history_days(), 30);
    assert_eq!(config.terminal_job_days(), 30);
    assert_eq!(config.max_log_bytes_per_stream(), 10_485_760);
    assert_eq!(config.color(), ColorMode::Auto);
    assert_eq!(config.verbosity(), Verbosity::Normal);
}

#[test]
fn environment_overrides_the_file() {
    let config = load(
        Some("history_days = 10\ndefault_timezone = \"Europe/Paris\""),
        &env(&[
            ("ATX_HISTORY_DAYS", "20"),
            ("ATX_COLOR", "never"),
            ("ATX_DEFAULT_TIMEZONE", "Asia/Tokyo"),
            ("ATX_CANCEL_GRACE", "90s"),
            ("PATH", "/bin"),
        ]),
        ConfigOverrides::default(),
    )
    .ok()
    .expect("config");
    assert_eq!(config.history_days(), 20);
    assert_eq!(config.color(), ColorMode::Never);
    assert_eq!(config.default_timezone(), "Asia/Tokyo");
    assert_eq!(config.cancel_grace().get(), 90);
    assert_eq!(config.redacted().cancel_grace, "1m30s");
    assert!(matches!(
        load(None, &env(&[("ATX_HISTORY_DAYS", "many")]), ConfigOverrides::default()),
        Err(ConfigError::InvalidEnvironment { name }) if name == "ATX_HISTORY_DAYS"
    ));
    assert!(matches!(
        load(None, &env(&[("ATX_NOPE", "1")]), ConfigOverrides::default()),
        Err(ConfigError::UnknownEnvironment(name)) if name == "ATX_NOPE"
    ));
}

// Paths -----------------------------------------------------------------------------------------

fn full_environment() -> PathEnvironment {
    PathEnvironment {
        home: Some("/home/juan".to_owned()),
        xdg_state_home: Some("/state".to_owned()),
        xdg_runtime_dir: Some("/run/user/1000".to_owned()),
        temporary_directory: Some("/tmp".to_owned()),
    }
}

fn empty_environment() -> PathEnvironment {
    PathEnvironment {
        home: None,
        xdg_state_home: None,
        xdg_runtime_dir: None,
        temporary_directory: None,
    }
}

#[test]
fn platform_path_tables_match_conventions() {
    let environment = full_environment();
    let linux =
        resolve_paths(Platform::Linux, &environment, None, 1000).ok().expect("linux paths");
    assert_eq!(linux.state_dir(), "/state/atx");
    assert_eq!(linux.runtime_dir(), "/run/user/1000/atx");
    assert!(!linux.runtime_uses_fallback());

    let mac = resolve_paths(Platform::MacOs, &environment, None, 1000).ok().expect("mac paths");
    assert_eq!(mac.state_dir(), "/home/juan/Library/Application Support/atx");
    assert_eq!(mac.runtime_dir(), "/tmp/atx-1000");
    assert!(mac.runtime_uses_fallback());
}

#[test]
fn override_works_without_home_but_missing_roots_fail() {
    let empty = empty_environment();
    assert!(resolve_paths(Platform::Linux, &empty, None, 1000).is_err());
    let paths = resolve_paths(Platform::Linux, &empty, Some("/isolated"), 1000)
        .ok()
        .expect("isolated override");
    assert_eq!(paths.state_dir(), "/isolated");
    assert_eq!(paths.runtime_dir(), "/isolated/runtime");
}

#[test]
fn platform_paths_accessors_report_values() {
    let paths = resolve_paths(Platform::Linux, &full_environment(), None, 1000)
        .ok()
        .expect("paths");
    assert_eq!(paths.state_dir(), "/state/atx");
    assert_eq!(paths.runtime_dir(), "/run/user/1000/atx");
    assert!(!paths.runtime_uses_fallback());
}

#[test]
fn missing_home_and_runtime_root_fail_cleanly() {
    let empty = empty_environment();
    // Linux without an xdg state home or home yields MissingHome.
    assert!(resolve_paths(Platform::Linux, &empty, None, 1000).is_err());
    // macOS without a home yields MissingHome.
    assert!(resolve_paths(Platform::MacOs, &empty, None, 1000).is_err());
    // No temporary directory means the runtime fallback root is missing.
    let no_tmp = PathEnvironment {
        home: Some("/home/juan".to_owned()),
        xdg_state_home: Some("/state".to_owned()),
        xdg_runtime_dir: None,
        temporary_directory: None,
    };
    assert!(resolve_paths(Platform::Linux, &no_tmp, None, 1000).is_err());
}

#[test]
fn relative_override_is_rejected() {
    assert!(
        resolve_paths(Platform::Linux, &full_environment(), Some("relative/state"), 1000).is_err()
    );
}

#[test]
fn path_failures_are_told_apart() {
    let empty = empty_environment();
    assert!(matches!(
        resolve_paths(Platform::Linux, &empty, None, 1000),
        Err(PathError::MissingHome)
    ));
    let no_tmp = PathEnvironment {
        home: Some("/home/juan".to_owned()),
        ..empty_environment()
    };
    assert!(matches!(
        resolve_paths(Platform::Linux, &no_tmp, None, 1000),
        Err(PathError::MissingRuntimeRoot)
    ));
    assert!(matches!(
        resolve_paths(Platform::Linux, &full_environment(), Some("x"), 1000),
        Err(PathError::RelativePath)
    ));
    let home = PathEnvironment {
        home: Some("/home/juan".to_owned()),
        temporary_directory: Some("/tmp".to_owned()),
        ..empty_environment()
    };
    let paths = resolve_paths(Platform::Linux, &home, None, 7).ok().expect("home");
    assert_eq!(paths.state_dir(), "/home/juan/.local/state/atx");
    assert_eq!(paths.runtime_dir(), "/tmp/atx-7");
}

fn directory(mode: u32) -> EntryFacts {
    EntryFacts {
        is_symlink: false,
        is_directory: true,
        is_file: false,
        is_socket: false,
        owner: 501,
        mode,
    }
}

fn file(mode: u32) -> EntryFacts {
    EntryFacts { is_directory: false, is_file: true, ..directory(mode) }
}

#[test]
fn private_directory_rejects_symlinks_modes_and_owners() {
    let link = EntryFacts { is_symlink: true, is_directory: false, ..directory(0o40700) };
    assert!(validate_private_dir_for_uid(link, 501).is_err());
    assert!(validate_private_dir_for_uid(directory(0o40755), 501).is_err());
    assert!(validate_private_dir_for_uid(directory(0o40700), 502).is_err());
    assert!(validate_private_dir_for_uid(directory(0o40700), 501).is_ok());
}

#[test]
fn relative_leaf_names_are_rejected() {
    assert!(validate_leaf_name("").is_err());
    assert!(validate_leaf_name("/absolute").is_err());
    assert!(validate_leaf_name("dir/file").is_err());
    assert!(validate_leaf_name("file.db").is_ok());
}

#[test]
fn open_private_file_validates_ownership_mode_and_type() {
    assert!(validate_private_file(file(0o100600), 501).is_ok());
    assert!(validate_private_file(file(0o100644), 501).is_err());
    assert!(validate_private_file(file(0o100600), 0).is_err());
    assert!(validate_private_file(directory(0o40600), 501).is_err());
    let fifo = EntryFacts { is_file: false, ..file(0o10600) };
    assert!(validate_private_file(fifo, 501).is_err());
}

#[test]
fn private_append_log_rejects_substituted_entries() {
    assert!(validate_private_log(file(0o100600), 501).is_ok());
    assert!(validate_private_log(file(0o100644), 501).is_err());
    assert!(validate_private_log(directory(0o40600), 501).is_err());
    let fifo = EntryFacts { is_file: false, ..file(0o10600) };
    assert!(validate_private_log(fifo, 501).is_err());
}

// Processes -------------------------------------------------------------------------------------

fn snapshot(pid: u32, start_token: u64) -> ProcessIdentitySnapshot {
    ProcessIdentitySnapshot {
        boot_identity: "boot-a".to_owned(),
        pid,
        start_token,
        process_group_id: i32::try_from(pid).expect("pid fits"),
    }
}

/// The processes of a machine that only runs the given one.
struct OneProcess(Option<ProcessIdentitySnapshot>);

impl ProcessTable for OneProcess {
    fn look_up(
        &self,
        pid: u32,
        _boot_identity: &str,
    ) -> Result<Option<ProcessIdentitySnapshot>, ProcessError> {
        Ok(self.0.clone().filter(|process| process.pid == pid))
    }
}

fn inspector(process: Option<ProcessIdentitySnapshot>) -> NativeProcessInspector<OneProcess> {
    NativeProcessInspector::new("boot-a".to_owned(), OneProcess(process))
}

#[test]
fn current_process_has_stable_full_identity() {
    let inspector = inspector(Some(snapshot(42, 100)));
    let identity = inspector.inspect(42).expect("inspect").expect("alive");
    assert_eq!(identity.pid, 42);
    assert!(identity.start_token > 0);
    assert!(identity.process_group_id > 0);
    assert_eq!(inspector.classify_process(&identity).expect("classify"), IdentityStatus::Alive);
}

#[test]
fn identity_classification_detects_dead_and_reused_processes() {
    let expected = ProcessIdentitySnapshot {
        boot_identity: "boot-a".to_owned(),
        pid: 42,
        start_token: 100,
        process_group_id: 42,
    };
    assert_eq!(classify_identity(&expected, None), IdentityStatus::Dead);
    let mut changed = expected.clone();
    changed.start_token += 1;
    assert_eq!(classify_identity(&expected, Some(&changed)), IdentityStatus::Reused);
    assert_eq!(classify_identity(&expected, Some(&expected)), IdentityStatus::Alive);
}

#[test]
fn partial_identity_is_rejected() {
    let partial = ProcessIdentitySnapshot {
        boot_identity: String::new(),
        pid: 42,
        start_token: 0,
        process_group_id: 0,
    };
    assert!(validate_snapshot(&partial).is_err());
    let denied = std::io::Error::from(std::io::ErrorKind::PermissionDenied);
    assert!(matches!(
        map_inspection_error(
            denied.kind() == std::io::ErrorKind::PermissionDenied,
            denied.to_string(),
        ),
        ProcessError::PermissionDenied
    ));
}

#[test]
fn linux_stat_parser_handles_spaces_and_parentheses() {
    let stat = "123 (odd ) name) S 1 77 3 4 5 6 7 8 9 10 11 12 13 14 15 16 17 18 4242";
    let parsed = parse_linux_stat(stat, "boot-a").expect("parse");
    assert_eq!(parsed.pid, 123);
    assert_eq!(parsed.process_group_id, 77);
    assert_eq!(parsed.start_token, 4242);
    assert!(parse_linux_stat("broken", "boot-a").is_err());
}

#[test]
fn mac_process_start_is_counted_in_microseconds() {
    let parsed = parse_mac_process("boot-a", 123, 1_700_000_000, 42, 77).expect("parse");
    assert_eq!(parsed.boot_identity, "boot-a");
    assert_eq!(parsed.pid, 123);
    assert_eq!(parsed.process_group_id, 77);
    assert_eq!(parsed.start_token, 1_700_000_000_000_042);
    assert!(matches!(
        parse_mac_process("boot-a", 123, u64::MAX, 0, 77),
        Err(ProcessError::Malformed)
    ));
    assert!(matches!(
        parse_mac_process("boot-a", 123, 18_446_744_073_709, 999_999, 77),
        Err(ProcessError::Malformed)
    ));
    assert!(matches!(
        parse_mac_process("boot-a", 123, 1, 0, u32::MAX),
        Err(ProcessError::Malformed)
    ));
    assert!(matches!(
        parse_mac_process("boot-a", 0, 1, 0, 77),
        Err(ProcessError::InvalidIdentity)
    ));
    assert!(matches!(
        parse_mac_process("boot-a", 123, 0, 0, 77),
        Err(ProcessError::InvalidIdentity)
    ));
}

#[test]
fn inspect_rejects_pid_zero() {
    assert!(inspector(None).inspect(0).is_err());
}

#[test]
fn linux_stat_parser_rejects_malformed_input() {
    // no parentheses at all
    assert!(parse_linux_stat("not-a-stat-line", "boot-a").is_err());
    // empty before/after the comm field, or comm field missing close
    assert!(parse_linux_stat("(orphan", "boot-a").is_err());
    // too few fields after comm to reach pgid/start_time
    assert!(parse_linux_stat("1 (init) S 0", "boot-a").is_err());
    // pid is not numeric
    assert!(
        parse_linux_stat("abc (x) S 0 0 0 0 0 0 0 0 0 0 0 0 0 0 0 0 0 0 0 0", "boot-a").is_err()
    );
    // pgid is not numeric
    assert!(parse_linux_stat(
        "1 (x) S 0 notanint 0 0 0 0 0 0 0 0 0 0 0 0 0 0 0 0 0 0 0 0",
        "boot-a"
    )
    .is_err());
    // start_time is not numeric
    assert!(parse_linux_stat(
        "1 (x) S 0 0 0 0 0 0 0 0 0 0 0 0 0 0 0 0 0 0 0 notanint",
        "boot-a"
    )
    .is_err());
    // validated-away because pgid<=0
    assert!(
        parse_linux_stat("1 (x) S 0 0 0 0 0 0 0 0 0 0 0 0 0 0 0 0 0 0 0 0", "boot-a").is_err()
    );
}

#[test]
fn validate_snapshot_rejects_each_constraint() {
    let base = snapshot(42, 100);
    let mut variant = base.clone();
    variant.boot_identity = String::new();
    assert!(validate_snapshot(&variant).is_err());

    variant = base.clone();
    variant.boot_identity = "has\0nul".to_owned();
    assert!(validate_snapshot(&variant).is_err());

    variant = base.clone();
    variant.pid = 0;
    assert!(validate_snapshot(&variant).is_err());

    variant = base.clone();
    variant.start_token = 0;
    assert!(validate_snapshot(&variant).is_err());

    variant = base.clone();
    variant.process_group_id = 0;
    assert!(validate_snapshot(&variant).is_err());

    assert!(validate_snapshot(&base).is_ok());
}

#[test]
fn map_inspection_error_maps_permission_denied_and_io() {
    let map = |error: std::io::Error| {
        map_inspection_error(
            error.kind() == std::io::ErrorKind::PermissionDenied,
            error.to_string(),
        )
    };
    assert!(matches!(
        map(std::io::Error::from(std::io::ErrorKind::PermissionDenied)),
        ProcessError::PermissionDenied
    ));
    assert!(matches!(map(std::io::Error::other("boom")), ProcessError::Io(_)));
}

#[test]
fn identity_inspector_classify_maps_native_status() {
    let inspector = inspector(Some(snapshot(42, 100)));
    let identity = inspector.inspect(42).expect("inspect").expect("alive");
    assert!(matches!(
        IdentityInspector::classify(&inspector, &identity),
        Ok(RecoveryIdentityStatus::Alive)
    ));
    assert!(matches!(
        IdentityInspector::classify(&inspector, &snapshot(42, 101)),
        Ok(RecoveryIdentityStatus::Changed)
    ));

    // An invalid snapshot (pid 0) fails validation before any inspection.
    let invalid = ProcessIdentitySnapshot {
        boot_identity: String::new(),
        pid: 0,
        start_token: 0,
        process_group_id: 0,
    };
    assert!(IdentityInspector::classify(&inspector, &invalid).is_err());
}

/// A command group that goes through the given states, one per look; the last one stays.
struct Group {
    looks: Vec<IdentityStatus>,
    grace_looks: usize,
    signals: Vec<CancelAction>,
}

impl Group {
    fn showing(looks: &[IdentityStatus]) -> Group {
        Group { looks: looks.to_vec(), grace_looks: 3, signals: Vec::new() }
    }

    fn cancel(&mut self) -> Option<CancellationResult> {
        let mut phase = CancelPhase::FirstLook;
        let mut action = CancelAction::Look;
        let mut seen = 0;
        loop {
            let event = match action {
                CancelAction::Look | CancelAction::Pause => {
                    let status = self.looks[seen.min(self.looks.len() - 1)];
                    seen += 1;
                    CancelEvent::Seen { status, grace_over: seen > self.grace_looks }
                }
                CancelAction::SendTerminate | CancelAction::SendKill => {
                    self.signals.push(action);
                    CancelEvent::Sent
                }
                CancelAction::Finish(result) => return Some(result),
                CancelAction::Fail => return None,
            };
            (phase, action) = cancel_validated_group(phase, event);
        }
    }
}

#[test]
fn mismatched_and_dead_identities_are_never_signalled() {
    let mut reused = Group::showing(&[IdentityStatus::Reused]);
    assert_eq!(reused.cancel(), Some(CancellationResult::IdentityChanged));
    assert!(reused.signals.is_empty());

    let mut dead = Group::showing(&[IdentityStatus::Dead]);
    assert_eq!(dead.cancel(), Some(CancellationResult::AlreadyDead));
    assert!(dead.signals.is_empty());
}

#[test]
fn term_then_kill_reaches_the_whole_command_group() {
    let mut group = Group::showing(&[IdentityStatus::Alive]);
    assert_eq!(group.cancel(), Some(CancellationResult::KilledAfterGrace));
    assert_eq!(group.signals, [CancelAction::SendTerminate, CancelAction::SendKill]);
}

#[test]
fn already_dead_identity_short_circuits_before_signalling() {
    let dead = snapshot(4242, 999);
    let status = inspector(None).classify_process(&dead).expect("classification");
    let mut group = Group::showing(&[status]);
    assert_eq!(group.cancel(), Some(CancellationResult::AlreadyDead));
    assert!(group.signals.is_empty());
}

#[test]
fn groups_that_end_in_time_are_not_killed() {
    let mut group = Group::showing(&[IdentityStatus::Alive, IdentityStatus::Alive, IdentityStatus::Dead]);
    assert_eq!(group.cancel(), Some(CancellationResult::TerminatedDuringGrace));
    assert_eq!(group.signals, [CancelAction::SendTerminate]);

    let mut taken_over = Group::showing(&[IdentityStatus::Alive, IdentityStatus::Reused]);
    assert_eq!(taken_over.cancel(), Some(CancellationResult::IdentityChanged));
    assert_eq!(taken_over.signals, [CancelAction::SendTerminate]);
}

#[test]
fn cancellation_results_map_one_for_one() {
    assert_eq!(group_cancellation(CancellationResult::AlreadyDead), GroupCancellation::AlreadyDead);
    assert_eq!(
        group_cancellation(CancellationResult::IdentityChanged),
        GroupCancellation::IdentityChanged
    );
    assert_eq!(
        group_cancellation(CancellationResult::TerminatedDuringGrace),
        GroupCancellation::TerminatedDuringGrace
    );
    assert_eq!(
        group_cancellation(CancellationResult::KilledAfterGrace),
        GroupCancellation::KilledAfterGrace
    );
    assert_eq!(
        cancel_validated_group(CancelPhase::Terminating, CancelEvent::SendFailed),
        (CancelPhase::Terminating, CancelAction::Fail)
    );
}

// Commands --------------------------------------------------------------------------------------

fn execution(mode: ExecutionMode, arguments: &[&str], cwd: &str) -> ExecutionSpec {
    ExecutionSpec::new(
        mode,
        arguments.iter().map(ToString::to_string).collect(),
        cwd.to_owned(),
        Environment::from_pairs(env(&[("PATH", "/usr/bin:/bin")])).ok().expect("environment"),
    )
    .ok()
    .expect("execution")
}

#[test]
fn direct_mode_preserves_argv_without_interpretation() {
    let line = command_line(&execution(
        ExecutionMode::Direct,
        &["/bin/echo", "hello; printf hacked"],
        "/",
    ))
    .ok()
    .expect("command");
    assert_eq!(line.program, "/bin/echo");
    assert_eq!(line.arguments, ["hello; printf hacked"]);
}

#[test]
fn shell_mode_uses_one_explicit_command_string() {
    let line = command_line(&execution(ExecutionMode::Shell, &["printf '%s' shell"], "/"))
        .ok()
        .expect("command");
    assert_eq!(line.program, "/bin/sh");
    assert_eq!(line.arguments, ["-c", "printf '%s' shell"]);
}

#[test]
fn children_are_accepted_as_leaders_of_their_group() {
    let child = snapshot(77, 5);
    let runner = NativeProcessRunner::new(inspector(Some(child.clone())));
    assert!(runner.identify(77).ok() == Some(child));
    assert!(matches!(runner.identify(78), Err(SpawnError::ExitedBeforeInspection)));
    assert!(matches!(
        accept_child(Ok(Some(ProcessIdentitySnapshot {
            process_group_id: 78,
            ..snapshot(77, 5)
        }))),
        Err(SpawnError::ProcessGroupSetup)
    ));
    assert!(matches!(
        accept_child(Err(ProcessError::PermissionDenied)),
        Err(SpawnError::Inspection(ProcessError::PermissionDenied))
    ));
}

#[test]
fn protected_log_paths_are_relative_and_owner_only() {
    let id = RunId::new();
    let artifacts = artifact_paths(id);
    assert!(!artifacts.stdout_path.starts_with('/'));
    assert!(!artifacts.stderr_path.starts_with('/'));
    assert_eq!(artifacts.directory, format!("runs/{}", id.to_string()));
    assert_eq!(artifacts.stdout_path, format!("runs/{}/stdout.log", id.to_string()));
    assert_eq!(artifacts.stderr_path, format!("runs/{}/stderr.log", id.to_string()));
}

#[test]
fn supervisors_are_told_both_directories() {
    let arguments = supervisor_arguments("/state", "/runtime");
    assert_eq!(arguments[0], "__supervisor");
    assert!(arguments.windows(2).any(|pair| pair == ["--state-dir", "/state"]));
    assert!(arguments.windows(2).any(|pair| pair == ["--runtime-dir", "/runtime"]));
}

// Clocks ----------------------------------------------------------------------------------------

#[test]
fn conversions_reject_invalid_and_overflowing_values() {
    assert_eq!(elapsed_from_parts(2, 3).expect("parts").as_nanos(), 2_000_000_003);
    assert!(elapsed_from_parts(-1, 0).is_err());
    assert!(elapsed_from_parts(0, 1_000_000_000).is_err());
    assert_eq!(ticks_to_nanos(3, 2, 1).expect("ticks"), 6);
    assert!(ticks_to_nanos(1, 1, 0).is_err());
    assert!(ticks_to_nanos(u128::MAX, u32::MAX, 1).is_err());
}

#[test]
fn mach_readings_reject_a_failed_timebase_call() {
    assert_eq!(elapsed_from_mach(0, 7, 1, 1).expect("valid reading").as_nanos(), 7);
    assert!(matches!(elapsed_from_mach(-1, 7, 1, 1), Err(ClockError::Unavailable)));

    let size = std::mem::size_of::<libc::timeval>();
    let identity =
        boot_identity_from_timeval(0, size, size, 1_700_000_000, 42).expect("valid boot time");
    assert_eq!(identity, "macos:1700000000:42");
    // Every rejection arm must be reachable: syscall failure, truncated
    // output buffer, non-positive seconds, and negative microseconds.
    for (status, got, seconds, microseconds) in [
        (-1, size, 1_700_000_000, 42),
        (0, size - 1, 1_700_000_000, 42),
        (0, size, 0, 0),
        (0, size, 10, -1),
    ] {
        assert!(matches!(
            boot_identity_from_timeval(status, got, size, seconds, microseconds),
            Err(ClockError::Unavailable)
        ));
    }
}

#[test]
fn boot_identity_files_are_trimmed() {
    let uuid = "8f0bd1a4-6f0e-4f7e-9c55-2d3f1a6b7c8d";
    assert_eq!(boot_identity_from_file(&format!("{uuid}\n")).ok().as_deref(), Some(uuid));
    assert!(boot_identity_from_file("\n").is_err());
    assert!(boot_identity_from_file(&uuid.replace('8', "g")).is_err());
}

// Service managers ------------------------------------------------------------------------------

/// Files in memory, shared with the test.
#[derive(Clone)]
struct Disk(Rc<RefCell<BTreeMap<String, String>>>);

impl Disk {
    fn holding(entries: &[(&str, &str)]) -> Disk {
        let files = entries
            .iter()
            .map(|(path, contents)| ((*path).to_owned(), (*contents).to_owned()))
            .collect();
        Disk(Rc::new(RefCell::new(files)))
    }
}

impl ServiceFiles for Disk {
    fn is_file(&self, path: &str) -> bool {
        self.0.borrow().contains_key(path)
    }

    fn read(&self, path: &str) -> Result<Option<String>, String> {
        Ok(self.0.borrow().get(path).cloned())
    }

    fn prepare(&mut self, path: &str) -> Result<(), String> {
        self.0.borrow_mut().insert(format!("{path}.tmp"), String::new());
        Ok(())
    }

    fn discard(&mut self, path: &str) {
        self.0.borrow_mut().remove(&format!("{path}.tmp"));
    }

    fn install(&mut self, path: &str, contents: &str) -> Result<(), String> {
        self.discard(path);
        self.0.borrow_mut().insert(path.to_owned(), contents.to_owned());
        Ok(())
    }

    fn remove(&mut self, path: &str) -> Result<(), String> {
        match self.0.borrow_mut().remove(path) {
            Some(_) => Ok(()),
            None => Err("missing".to_owned()),
        }
    }
}

struct FakeRunner {
    calls: Rc<RefCell<Vec<String>>>,
    available: Cell<bool>,
    linger: bool,
    failing_command: Option<&'static str>,
}

impl FakeRunner {
    fn healthy() -> FakeRunner {
        FakeRunner {
            calls: Rc::new(RefCell::new(Vec::new())),
            available: Cell::new(true),
            linger: true,
            failing_command: None,
        }
    }

    fn unavailable() -> FakeRunner {
        FakeRunner { available: Cell::new(false), ..FakeRunner::healthy() }
    }

    fn no_linger() -> FakeRunner {
        FakeRunner { linger: false, ..FakeRunner::healthy() }
    }

    fn failing(command: &'static str) -> FakeRunner {
        FakeRunner { failing_command: Some(command), ..FakeRunner::healthy() }
    }
}

impl CommandRunner for FakeRunner {
    fn run(&mut self, program: &str, args: &Vec<String>) -> Result<CommandOutput, String> {
        self.query(program, args)
    }

    fn query(&self, program: &str, args: &Vec<String>) -> Result<CommandOutput, String> {
        self.calls.borrow_mut().push(format!("{program} {}", args.join(" ")));
        let failing =
            self.failing_command.is_some_and(|needle| args.iter().any(|arg| arg == needle));
        let success = self.available.get() && !failing;
        let stdout = if program == "loginctl" && success && self.linger {
            b"yes\n".to_vec()
        } else {
            Vec::new()
        };
        let stderr = if success { String::new() } else { " refused \n".to_owned() };
        Ok(CommandOutput { success, stdout, stderr })
    }
}

const UNIT: &str = "/root/atx.service";

fn unit_text() -> String {
    render_unit("/bin/atx", "/root/state", "/root/runtime").expect("unit")
}

fn systemd(runner: FakeRunner, disk: &Disk) -> SystemdUserService<FakeRunner, Disk> {
    SystemdUserService::with_runner(
        "/bin/atx".to_owned(),
        "/root/state".to_owned(),
        "/root/runtime".to_owned(),
        UNIT.to_owned(),
        1000,
        runner,
        disk.clone(),
    )
}

#[test]
fn unit_quotes_specifiers_and_requests_restart() {
    let unit = render_unit("/opt/100%/atx", "/tmp/state one", "/tmp/runtime").expect("unit");
    assert!(unit.contains("\"/opt/100%%/atx\""));
    assert!(unit.contains("\"/tmp/state one\""));
    assert!(unit.contains("Restart=on-failure"));
    assert!(unit.contains("\"--service-managed\""));
}

#[test]
fn units_are_rendered_line_by_line() {
    assert_eq!(
        unit_text(),
        "[Unit]\nDescription=ATX per-user command scheduler\n\n\
         [Service]\nType=simple\nExecStart=\"/bin/atx\" \"__supervisor\" \"--state-dir\" \
         \"/root/state\" \"--runtime-dir\" \"/root/runtime\" \"--service-managed\"\n\
         Restart=on-failure\nRestartSec=2s\n\
         KillMode=process\nNoNewPrivileges=true\nPrivateTmp=true\n\n\
         [Install]\nWantedBy=default.target\n"
    );
    assert_eq!(systemd_quote("a\\b\"c$d%").expect("quoted"), "\"a\\\\b\\\"c$$d%%\"");
    for control in ["a\nb", "a\rb", "a\0b"] {
        assert!(systemd_quote(control).is_err());
    }
}

#[test]
fn isolated_install_runs_reload_enable_and_status() {
    let disk = Disk::holding(&[]);
    let runner = FakeRunner::healthy();
    let calls = runner.calls.clone();
    let mut service = systemd(runner, &disk);
    assert!(install_service(&mut service).expect("install").changed);
    let calls = calls.borrow().join("\n");
    assert!(calls.contains("systemctl --user daemon-reload"));
    assert!(calls.contains("systemctl --user enable --now atx.service"));
    assert!(calls.contains("systemctl --user is-active --quiet atx.service"));
    assert_eq!(disk.0.borrow().get(UNIT), Some(&unit_text()));
}

#[test]
fn status_reflects_running_and_lingering_states() {
    let disk = Disk::holding(&[(UNIT, unit_text().as_str())]);
    let status = systemd(FakeRunner::healthy(), &disk).status().expect("status");
    assert!(status.running);
    assert_eq!(status.detail, "user service is enabled, running, and lingering is enabled");
    assert_eq!(
        status.guarantee,
        "restarts after crashes and starts without an interactive login"
    );

    let status = systemd(FakeRunner::no_linger(), &disk).status().expect("status");
    assert!(status.running);
    assert_eq!(status.detail, "user service is enabled and running; lingering is disabled");
    assert_eq!(
        status.guarantee,
        "restarts after crashes while this user's systemd manager is running"
    );
}

#[test]
fn uninstall_disables_removes_unit_and_reloads() {
    let disk = Disk::holding(&[(UNIT, unit_text().as_str())]);
    let runner = FakeRunner::healthy();
    let calls = runner.calls.clone();
    let mut service = systemd(runner, &disk);
    service.uninstall().expect("uninstall");
    let calls = calls.borrow().join("\n");
    assert!(calls.contains("systemctl --user disable --now atx.service"));
    assert!(calls.contains("systemctl --user daemon-reload"));
    assert!(!disk.is_file(UNIT));
}

#[test]
fn uninstall_without_install_is_a_noop() {
    let runner = FakeRunner::healthy();
    let calls = runner.calls.clone();
    let mut service = systemd(runner, &Disk::holding(&[]));
    service.uninstall().expect("uninstall");
    assert!(!calls.borrow().iter().any(|call| call.contains("disable")));
}

#[test]
fn failed_enable_fails_the_install_without_leaving_temporary_files() {
    let disk = Disk::holding(&[]);
    let mut service = systemd(FakeRunner::failing("enable"), &disk);
    let error = service.install().expect_err("refused");
    assert_eq!(error.to_string(), "systemctl --user enable failed: refused");
    assert!(!disk.0.borrow().keys().any(|path| path.ends_with(".tmp")));
}

#[test]
fn unit_that_cannot_be_written_is_discarded() {
    let disk = Disk::holding(&[]);
    let runner = FakeRunner::healthy();
    let calls = runner.calls.clone();
    let mut service = SystemdUserService::with_runner(
        "/bin/a\ntx".to_owned(),
        "/root/state".to_owned(),
        "/root/runtime".to_owned(),
        UNIT.to_owned(),
        1000,
        runner,
        disk.clone(),
    );
    let error = service.install().expect_err("refused");
    assert_eq!(error.to_string(), "service arguments cannot contain control characters");
    assert!(disk.0.borrow().is_empty());
    assert!(!calls.borrow().iter().any(|call| call.contains("daemon-reload")));
}

#[test]
fn unit_is_prepared_before_it_is_written() {
    let full = FullDisk(Rc::new(RefCell::new(Vec::new())));
    let mut service = SystemdUserService::with_runner(
        "/bin/a\ntx".to_owned(),
        "/root/state".to_owned(),
        "/root/runtime".to_owned(),
        UNIT.to_owned(),
        1000,
        FakeRunner::healthy(),
        full.clone(),
    );
    assert_eq!(service.install().expect_err("refused").to_string(), "disk is full");
    assert_eq!(*full.0.borrow(), vec![format!("prepare {UNIT}")]);
}

/// A disk that holds nothing and takes nothing, with what was asked of it.
#[derive(Clone)]
struct FullDisk(Rc<RefCell<Vec<String>>>);

impl ServiceFiles for FullDisk {
    fn is_file(&self, _path: &str) -> bool {
        false
    }

    fn read(&self, _path: &str) -> Result<Option<String>, String> {
        Ok(None)
    }

    fn prepare(&mut self, path: &str) -> Result<(), String> {
        self.0.borrow_mut().push(format!("prepare {path}"));
        Err("disk is full".to_owned())
    }

    fn discard(&mut self, path: &str) {
        self.0.borrow_mut().push(format!("discard {path}"));
    }

    fn install(&mut self, path: &str, _contents: &str) -> Result<(), String> {
        self.0.borrow_mut().push(format!("install {path}"));
        Ok(())
    }

    fn remove(&mut self, path: &str) -> Result<(), String> {
        self.0.borrow_mut().push(format!("remove {path}"));
        Ok(())
    }
}

#[test]
fn foreign_unit_blocks_install() {
    let disk = Disk::holding(&[(UNIT, "foreign")]);
    let mut service = systemd(FakeRunner::healthy(), &disk);
    assert!(service.install().is_err());
    assert_eq!(disk.0.borrow().get(UNIT).map(String::as_str), Some("foreign"));
}

#[test]
fn unavailable_manager_and_foreign_unit_are_rejected() {
    let mut disk = Disk::holding(&[]);
    let unavailable = systemd(FakeRunner::unavailable(), &disk);
    assert_eq!(
        unavailable.status().expect("status").availability,
        ServiceAvailability::Unavailable
    );

    disk.install(UNIT, "foreign").expect("foreign unit");
    assert!(unavailable.status().is_err());
}

#[test]
fn plist_escapes_paths_and_contains_durable_supervisor_contract() {
    let plist = render_plist("/Applications/A&T/atx", "/tmp/state <one>", "/tmp/runtime");
    assert!(plist.contains("/Applications/A&amp;T/atx"));
    assert!(plist.contains("/tmp/state &lt;one&gt;"));
    assert!(plist.contains("<string>--service-managed</string>"));
    assert!(plist.contains("<key>KeepAlive</key>"));
    assert_eq!(xml_escape("<a & 'b' \"c\">"), "&lt;a &amp; &apos;b&apos; &quot;c&quot;&gt;");
}

fn launchd(runner: FakeRunner, disk: &Disk) -> LaunchdService<FakeRunner, Disk> {
    LaunchdService::with_runner(
        "/bin/atx".to_owned(),
        "/root/state".to_owned(),
        "/root/runtime".to_owned(),
        "/root/agent.plist".to_owned(),
        501,
        runner,
        disk.clone(),
    )
}

#[test]
fn install_uses_expected_launchctl_lifecycle() {
    let disk = Disk::holding(&[("/bin/launchctl", "")]);
    let runner = FakeRunner::healthy();
    let calls = runner.calls.clone();
    let mut service = launchd(runner, &disk);
    let change = install_service(&mut service).expect("install");
    assert!(change.changed);
    assert_eq!(
        calls.borrow().as_slice(),
        [
            "/bin/launchctl bootstrap gui/501 /root/agent.plist",
            "/bin/launchctl kickstart -k gui/501/io.github.jsugg.atx",
            "/bin/launchctl print gui/501/io.github.jsugg.atx",
        ]
    );
}

#[test]
fn foreign_agent_file_is_rejected() {
    let disk = Disk::holding(&[("/bin/launchctl", ""), ("/root/agent.plist", "not ours")]);
    assert!(launchd(FakeRunner::healthy(), &disk).status().is_err());
}

fn detect(
    platform: Platform,
    xdg_config_home: Option<&str>,
    uid: u32,
    runner: FakeRunner,
    disk: &Disk,
) -> NativeServiceManager<FakeRunner, Disk> {
    NativeServiceManager::detect(
        platform,
        "/bin/atx".to_owned(),
        "/state".to_owned(),
        "/runtime".to_owned(),
        "/home/juan",
        xdg_config_home.map(str::to_owned),
        uid,
        runner,
        disk.clone(),
    )
}

#[test]
fn detect_builds_a_launchd_manager_with_agent_path() {
    let disk = Disk::holding(&[("/bin/launchctl", "")]);
    match detect(Platform::MacOs, None, 501, FakeRunner::healthy(), &disk) {
        NativeServiceManager::Launchd(service) => {
            let status = service.status().expect("launchd status");
            assert_eq!(status.availability, ServiceAvailability::Available);
            assert_eq!(
                status.files,
                ["/home/juan/Library/LaunchAgents/io.github.jsugg.atx.plist"]
            );
        }
        NativeServiceManager::Systemd(_) => panic!("expected a launchd manager on macOS"),
    }
}

#[test]
fn detect_builds_a_systemd_manager_honoring_xdg_config_home() {
    let disk = Disk::holding(&[]);
    let runner = FakeRunner::unavailable();
    match detect(Platform::Linux, Some("/custom/config"), 1000, runner, &disk) {
        NativeServiceManager::Systemd(service) => {
            let status = service.status().expect("systemd status");
            assert_eq!(status.availability, ServiceAvailability::Unavailable);
            assert_eq!(status.files, ["/custom/config/systemd/user/atx.service"]);
        }
        NativeServiceManager::Launchd(_) => panic!("expected a systemd manager on Linux"),
    }
}

#[test]
fn detect_uses_home_fallback_for_config_when_unset() {
    let disk = Disk::holding(&[]);
    let manager = detect(Platform::Linux, None, 1000, FakeRunner::healthy(), &disk);
    assert!(matches!(manager, NativeServiceManager::Systemd(_)));
    assert_eq!(
        manager.status().expect("status").files,
        ["/home/juan/.config/systemd/user/atx.service"]
    );
}
