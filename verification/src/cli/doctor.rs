//! Diagnostic checks.
use vstd::prelude::*;

use super::exit;
use crate::application::doctor::{
    has_failure, DiagnosticCheck, DiagnosticStatus, DoctorReport, DoctorReportBuilder,
};
use crate::application::service::ServiceStatus;
use crate::domain::calendar::bundled_tzdb_version;
use crate::domain::execution::optional_text;
use crate::infrastructure::config::{shows_config, Config, RedactedConfig};
use crate::infrastructure::paths::{
    is_private_file, path_error_message, private_directory_fault, validate_private_dir_for_uid,
    EntryFacts, PathError,
};
use crate::infrastructure::process::IdentityStatus;
use crate::outside::tzdb_version_or;
use crate::text::{copy_text, decimal, push_decimal, push_text, text_eq};

verus! {

broadcast use vstd::seq::group_seq_axioms;

/// A check with its texts as character sequences.
pub struct CheckModel {
    pub name: Seq<char>,
    pub status: DiagnosticStatus,
    pub message: Seq<char>,
    pub remediation: Option<Seq<char>>,
}

/// A check as a model.
pub open spec fn check_model(check: DiagnosticCheck) -> CheckModel {
    CheckModel {
        name: check.name@,
        status: check.status,
        message: check.message@,
        remediation: optional_text(check.remediation),
    }
}

/// Checks as models.
pub open spec fn check_models(checks: Seq<DiagnosticCheck>) -> Seq<CheckModel> {
    checks.map_values(|check: DiagnosticCheck| check_model(check))
}

/// A check that passed.
pub open spec fn passed(name: Seq<char>, message: Seq<char>) -> CheckModel {
    CheckModel { name, status: DiagnosticStatus::Pass, message, remediation: None }
}

/// A check that gave a warning.
pub open spec fn warned(name: Seq<char>, message: Seq<char>, remediation: Seq<char>) -> CheckModel {
    CheckModel {
        name,
        status: DiagnosticStatus::Warning,
        message,
        remediation: Some(remediation),
    }
}

/// A check that failed.
pub open spec fn failed(name: Seq<char>, message: Seq<char>, remediation: Seq<char>) -> CheckModel {
    CheckModel { name, status: DiagnosticStatus::Fail, message, remediation: Some(remediation) }
}

fn record(
    builder: &mut DoctorReportBuilder,
    name: &str,
    status: DiagnosticStatus,
    message: String,
    remediation: Option<String>,
)
    ensures
        check_models(final(builder)@) == check_models(old(builder)@).push(
            (CheckModel {
                name: name@,
                status,
                message: message@,
                remediation: optional_text(remediation),
            }),
        ),
{
    let ghost before = builder@;
    builder.push(copy_text(name), status, message, remediation);
    assert(check_models(builder@) =~= check_models(before).push(
        check_model(builder@[before.len() as int]),
    ));
}

// ---------------------------------------------------------------------------------------------
// Directories
// ---------------------------------------------------------------------------------------------
/// What the file system says of a directory.
pub struct DirectoryLook {
    pub path: String,
    pub exists: bool,
    pub entry: Result<EntryFacts, PathError>,
}

/// The check of a directory that should be the user's own.
pub open spec fn directory_check(name: Seq<char>, look: DirectoryLook, uid: u32) -> CheckModel {
    let path = look.path@;
    let fault = match look.entry {
        Ok(entry) => private_directory_fault(entry, uid),
        Err(error) => Some(error),
    };
    if !look.exists {
        warned(name, path + " does not exist yet"@, "It will be created on the first saved job."@)
    } else {
        match fault {
            None => passed(name, path + " is private and owned by this user"@),
            Some(error) => failed(
                name,
                path_error_message(error),
                "Fix ownership and mode 0700 on "@ + path + "."@,
            ),
        }
    }
}

/// Checks a directory that should be the user's own.
pub fn check_private_directory(
    builder: &mut DoctorReportBuilder,
    name: &str,
    look: DirectoryLook,
    uid: u32,
)
    ensures
        check_models(final(builder)@) == check_models(old(builder)@).push(
            directory_check(name@, look, uid),
        ),
{
    let mut path: String = copy_text(look.path.as_str());
    if !look.exists {
        push_text(&mut path, " does not exist yet");
        record(
            builder,
            name,
            DiagnosticStatus::Warning,
            path,
            Some("It will be created on the first saved job.".to_owned()),
        );
        return;
    }
    let checked: Result<(), PathError> = match look.entry {
        Ok(entry) => validate_private_dir_for_uid(entry, uid),
        Err(error) => Err(error),
    };
    match checked {
        Ok(_) => {
            push_text(&mut path, " is private and owned by this user");
            record(builder, name, DiagnosticStatus::Pass, path, None);
        },
        Err(error) => {
            let mut advice: String = "Fix ownership and mode 0700 on ".to_owned();
            push_text(&mut advice, path.as_str());
            push_text(&mut advice, ".");
            record(builder, name, DiagnosticStatus::Fail, error.to_string(), Some(advice));
        },
    }
}

// ---------------------------------------------------------------------------------------------
// Database
// ---------------------------------------------------------------------------------------------
/// The check of the database, given the version of its schema where the file exists.
pub open spec fn database_check(schema: Option<Result<u32, String>>) -> CheckModel {
    match schema {
        None => CheckModel {
            name: "SQLite"@,
            status: DiagnosticStatus::Warning,
            message: "state database does not exist yet"@,
            remediation: None,
        },
        Some(Ok(version)) => passed(
            "SQLite"@,
            "database schema "@ + decimal(version as nat) + " is readable and writable"@,
        ),
        Some(Err(error)) => failed(
            "SQLite"@,
            error@,
            "Keep the database for diagnosis; do not delete it."@,
        ),
    }
}

/// The version of the schema, where it could be read.
pub open spec fn readable_schema(schema: Option<Result<u32, String>>) -> Option<u32> {
    match schema {
        Some(Ok(version)) => Some(version),
        _ => None,
    }
}

/// Checks the database, given the version of its schema where the file exists.
pub fn check_database(builder: &mut DoctorReportBuilder, schema: Option<Result<u32, String>>) -> (r:
    Option<u32>)
    ensures
        check_models(final(builder)@) == check_models(old(builder)@).push(database_check(schema)),
        r == readable_schema(schema),
{
    match schema {
        None => {
            record(
                builder,
                "SQLite",
                DiagnosticStatus::Warning,
                "state database does not exist yet".to_owned(),
                None,
            );
            None
        },
        Some(Ok(version)) => {
            let mut message: String = "database schema ".to_owned();
            push_decimal(&mut message, version as u64);
            push_text(&mut message, " is readable and writable");
            record(builder, "SQLite", DiagnosticStatus::Pass, message, None);
            Some(version)
        },
        Some(Err(error)) => {
            record(
                builder,
                "SQLite",
                DiagnosticStatus::Fail,
                error,
                Some("Keep the database for diagnosis; do not delete it.".to_owned()),
            );
            None
        },
    }
}

// ---------------------------------------------------------------------------------------------
// Supervisor
// ---------------------------------------------------------------------------------------------
/// What the file system says of an entry that may be missing.
#[derive(Clone, Copy, Debug, PartialEq, Eq, Structural)]
pub enum EntryLook {
    Found(EntryFacts),
    Missing,
    Failed,
}

/// The entry is a socket that only the user may use.
pub open spec fn is_private_socket(entry: EntryFacts, uid: u32) -> bool {
    entry.is_socket && entry.owner == uid && entry.mode & 0o777 == 0o600
}

/// The check of the supervisor, given its lock, its socket, and whether the process in the lock is
/// alive.
pub open spec fn supervisor_check(
    lock: EntryLook,
    socket: EntryLook,
    status: Option<IdentityStatus>,
    uid: u32,
) -> CheckModel {
    match (lock, socket) {
        (EntryLook::Missing, EntryLook::Missing) => passed(
            "supervisor"@,
            "no session supervisor is needed right now"@,
        ),
        (EntryLook::Found(lock_entry), EntryLook::Found(socket_entry)) => if !is_private_file(
            lock_entry,
            uid,
        ) || lock_entry.is_symlink || !is_private_socket(socket_entry, uid) {
            failed(
                "supervisor"@,
                "runtime lock or socket has unsafe ownership, mode, or type"@,
                "Stop ATX processes and remove the unsafe runtime entries."@,
            )
        } else if status == Some(IdentityStatus::Alive) {
            passed("supervisor"@, "session supervisor identity and socket agree"@)
        } else {
            warned(
                "supervisor"@,
                "supervisor runtime entries are stale or unreadable"@,
                "The next submission will replace stale entries safely."@,
            )
        },
        _ => warned(
            "supervisor"@,
            "runtime lock and socket do not agree"@,
            "Run doctor again after the current supervisor exits."@,
        ),
    }
}

/// Checks the supervisor.
pub fn check_supervisor(
    builder: &mut DoctorReportBuilder,
    lock: EntryLook,
    socket: EntryLook,
    status: Option<IdentityStatus>,
    uid: u32,
)
    ensures
        check_models(final(builder)@) == check_models(old(builder)@).push(
            supervisor_check(lock, socket, status, uid),
        ),
{
    match (lock, socket) {
        (EntryLook::Missing, EntryLook::Missing) => {
            record(
                builder,
                "supervisor",
                DiagnosticStatus::Pass,
                "no session supervisor is needed right now".to_owned(),
                None,
            );
        },
        (EntryLook::Found(lock_entry), EntryLook::Found(socket_entry)) => {
            check_live_supervisor(builder, lock_entry, socket_entry, status, uid);
        },
        _ => {
            record(
                builder,
                "supervisor",
                DiagnosticStatus::Warning,
                "runtime lock and socket do not agree".to_owned(),
                Some("Run doctor again after the current supervisor exits.".to_owned()),
            );
        },
    }
}

/// Checks a supervisor whose lock and socket are there.
pub fn check_live_supervisor(
    builder: &mut DoctorReportBuilder,
    lock: EntryFacts,
    socket: EntryFacts,
    status: Option<IdentityStatus>,
    uid: u32,
)
    ensures
        check_models(final(builder)@) == check_models(old(builder)@).push(
            supervisor_check(EntryLook::Found(lock), EntryLook::Found(socket), status, uid),
        ),
{
    let secure: bool = lock.is_file && !lock.is_symlink && lock.owner == uid && lock.mode & 0o777
        == 0o600 && socket.is_socket && socket.owner == uid && socket.mode & 0o777 == 0o600;
    if !secure {
        record(
            builder,
            "supervisor",
            DiagnosticStatus::Fail,
            "runtime lock or socket has unsafe ownership, mode, or type".to_owned(),
            Some("Stop ATX processes and remove the unsafe runtime entries.".to_owned()),
        );
        return;
    }
    match status {
        Some(IdentityStatus::Alive) => {
            record(
                builder,
                "supervisor",
                DiagnosticStatus::Pass,
                "session supervisor identity and socket agree".to_owned(),
                None,
            );
        },
        _ => {
            record(
                builder,
                "supervisor",
                DiagnosticStatus::Warning,
                "supervisor runtime entries are stale or unreadable".to_owned(),
                Some("The next submission will replace stale entries safely.".to_owned()),
            );
        },
    }
}

// ---------------------------------------------------------------------------------------------
// Durable service
// ---------------------------------------------------------------------------------------------
/// The service keeps durable jobs.
pub open spec fn keeps_durable_jobs(status: Result<ServiceStatus, String>) -> bool {
    status matches Ok(service) && service.installed && service.running
}

/// The check of the durable service.
pub open spec fn service_check(status: Result<ServiceStatus, String>) -> CheckModel {
    match status {
        Ok(service) => if service.installed && service.running {
            passed("durable service"@, service.detail@)
        } else {
            warned(
                "durable service"@,
                service.detail@,
                "Run `atx service install` to enable durable jobs."@,
            )
        },
        Err(error) => warned("durable service"@, error@, "Session jobs remain available."@),
    }
}

/// Checks the durable service, and tells whether it keeps durable jobs.
pub fn check_durable_service(
    builder: &mut DoctorReportBuilder,
    status: Result<ServiceStatus, String>,
) -> (r: bool)
    ensures
        check_models(final(builder)@) == check_models(old(builder)@).push(service_check(status)),
        r == keeps_durable_jobs(status),
{
    match status {
        Ok(service) => {
            if service.installed && service.running {
                record(builder, "durable service", DiagnosticStatus::Pass, service.detail, None);
                true
            } else {
                record(
                    builder,
                    "durable service",
                    DiagnosticStatus::Warning,
                    service.detail,
                    Some("Run `atx service install` to enable durable jobs.".to_owned()),
                );
                false
            }
        },
        Err(error) => {
            record(
                builder,
                "durable service",
                DiagnosticStatus::Warning,
                error,
                Some("Session jobs remain available.".to_owned()),
            );
            false
        },
    }
}

// ---------------------------------------------------------------------------------------------
// The report
// ---------------------------------------------------------------------------------------------
/// What was found out about the processes of this boot; it takes every clock to do so.
pub struct ProcessLook {
    /// Whether this process could be identified.
    pub identified: bool,
    pub lock: EntryLook,
    pub socket: EntryLook,
    /// Whether the process in the lock is alive, as far as that could be told.
    pub holder: Option<IdentityStatus>,
}

/// What was found out for a report.
pub struct DoctorFacts {
    pub uid: u32,
    pub state_directory: DirectoryLook,
    pub runtime_directory: DirectoryLook,
    pub config: Result<Config, String>,
    pub schema: Option<Result<u32, String>>,
    /// Missing where a clock is.
    pub processes: Option<ProcessLook>,
    pub service: Result<ServiceStatus, String>,
}

/// The check of the configuration.
pub open spec fn config_check(config: Result<Config, String>) -> CheckModel {
    match config {
        Ok(_) => passed("configuration"@, "configuration is valid"@),
        Err(error) => failed(
            "configuration"@,
            error@,
            "Fix or remove the invalid config file."@,
        ),
    }
}

/// The checks of the clocks and of the processes.
pub open spec fn process_checks(processes: Option<ProcessLook>, uid: u32) -> Seq<CheckModel> {
    match processes {
        Some(look) => seq![
            passed("clocks"@, "wall and suspend-aware elapsed clocks are available"@),
            if look.identified {
                passed("process identity"@, "PID start identity is available"@)
            } else {
                failed(
                    "process identity"@,
                    "current process identity could not be validated"@,
                    "Process-safe cancellation is unavailable."@,
                )
            },
            supervisor_check(look.lock, look.socket, look.holder, uid),
        ],
        None => seq![
            failed(
                "clocks"@,
                "a required platform clock is unavailable"@,
                "This platform cannot safely supervise elapsed deadlines."@,
            ),
        ],
    }
}

/// The checks of a report, in order.
pub open spec fn report_checks(facts: DoctorFacts) -> Seq<CheckModel> {
    seq![
        directory_check("state directory"@, facts.state_directory, facts.uid),
        directory_check("runtime directory"@, facts.runtime_directory, facts.uid),
        config_check(facts.config),
        database_check(facts.schema),
    ] + process_checks(facts.processes, facts.uid) + seq![service_check(facts.service)]
}

fn check_processes(builder: &mut DoctorReportBuilder, processes: Option<ProcessLook>, uid: u32)
    ensures
        check_models(final(builder)@) == check_models(old(builder)@) + process_checks(
            processes,
            uid,
        ),
{
    let ghost before = check_models(builder@);
    match processes {
        Some(look) => {
            record(
                builder,
                "clocks",
                DiagnosticStatus::Pass,
                "wall and suspend-aware elapsed clocks are available".to_owned(),
                None,
            );
            if look.identified {
                record(
                    builder,
                    "process identity",
                    DiagnosticStatus::Pass,
                    "PID start identity is available".to_owned(),
                    None,
                );
            } else {
                record(
                    builder,
                    "process identity",
                    DiagnosticStatus::Fail,
                    "current process identity could not be validated".to_owned(),
                    Some("Process-safe cancellation is unavailable.".to_owned()),
                );
            }
            check_supervisor(builder, look.lock, look.socket, look.holder, uid);
        },
        None => {
            record(
                builder,
                "clocks",
                DiagnosticStatus::Fail,
                "a required platform clock is unavailable".to_owned(),
                Some("This platform cannot safely supervise elapsed deadlines.".to_owned()),
            );
        },
    }
    assert(check_models(builder@) =~= before + process_checks(processes, uid));
}

/// The report on what was found out.
pub fn build_doctor_report(facts: DoctorFacts) -> (r: DoctorReport)
    ensures
        check_models(r.checks@) == report_checks(facts),
        r.healthy == !has_failure(r.checks@),
        r.tzdb_version@ == tzdb_version_or("unknown"@),
        r.schema_version == readable_schema(facts.schema),
        r.durable_available == keeps_durable_jobs(facts.service),
        match facts.config {
            Ok(config) => r.config matches Some(shown) && shows_config(shown, config@),
            Err(_) => r.config is None,
        },
{
    let mut builder: DoctorReportBuilder = DoctorReportBuilder::default();
    assert(check_models(builder@) =~= Seq::<CheckModel>::empty());
    check_private_directory(&mut builder, "state directory", facts.state_directory, facts.uid);
    check_private_directory(&mut builder, "runtime directory", facts.runtime_directory, facts.uid);
    let config: Option<RedactedConfig> = match facts.config {
        Ok(config) => {
            record(
                &mut builder,
                "configuration",
                DiagnosticStatus::Pass,
                "configuration is valid".to_owned(),
                None,
            );
            Some(config.redacted())
        },
        Err(error) => {
            record(
                &mut builder,
                "configuration",
                DiagnosticStatus::Fail,
                error,
                Some("Fix or remove the invalid config file.".to_owned()),
            );
            None
        },
    };
    let schema_version: Option<u32> = check_database(&mut builder, facts.schema);
    check_processes(&mut builder, facts.processes, facts.uid);
    let durable_available: bool = check_durable_service(&mut builder, facts.service);
    assert(check_models(builder@) =~= report_checks(facts));
    builder.finish(copy_text(bundled_tzdb_version()), schema_version, durable_available, config)
}

/// A check with the name failed.
pub open spec fn failure_named(checks: Seq<DiagnosticCheck>, name: Seq<char>) -> bool {
    exists|i: int|
        {
            &&& 0 <= i < checks.len()
            &&& (#[trigger] checks[i]).status == DiagnosticStatus::Fail
            &&& checks[i].name@ == name
        }
}

fn has_failure_named(checks: &Vec<DiagnosticCheck>, name: &str) -> (r: bool)
    ensures
        r == failure_named(checks@, name@),
{
    let mut index: usize = 0;
    while index < checks.len()
        invariant
            index <= checks@.len(),
            forall|i: int|
                0 <= i < index ==> !((#[trigger] checks@[i]).status == DiagnosticStatus::Fail
                    && checks@[i].name@ == name@),
        decreases checks@.len() - index,
    {
        if checks[index].status == DiagnosticStatus::Fail && text_eq(
            checks[index].name.as_str(),
            name,
        ) {
            return true;
        }
        index += 1;
    }
    false
}

/// The exit status for a report: success where it is healthy, else that of the failure that
/// matters most.
pub fn doctor_exit(report: &DoctorReport) -> (r: u8)
    ensures
        r == if report.healthy {
            0u8
        } else if failure_named(report.checks@, "SQLite"@) {
            10u8
        } else if failure_named(report.checks@, "supervisor"@) {
            11u8
        } else {
            12u8
        },
{
    if report.healthy {
        0
    } else if has_failure_named(&report.checks, "SQLite") {
        exit::storage()
    } else if has_failure_named(&report.checks, "supervisor") {
        exit::supervision()
    } else {
        exit::permission()
    }
}

/// Missing directories, a missing database and a missing service leave a report healthy.
pub proof fn lemma_fresh_install_is_healthy(facts: DoctorFacts, report: DoctorReport)
    requires
        check_models(report.checks@) == report_checks(facts),
        report.healthy == !has_failure(report.checks@),
        !facts.state_directory.exists,
        !facts.runtime_directory.exists,
        facts.config is Ok,
        facts.schema is None,
        facts.processes matches Some(look) && look.identified && look.lock == EntryLook::Missing
            && look.socket == EntryLook::Missing,
    ensures
        report.healthy,
{
    let models = report_checks(facts);
    let head = seq![
        directory_check("state directory"@, facts.state_directory, facts.uid),
        directory_check("runtime directory"@, facts.runtime_directory, facts.uid),
        config_check(facts.config),
        database_check(facts.schema),
    ];
    let middle = process_checks(facts.processes, facts.uid);
    assert(middle.len() == 3);
    assert(forall|i: int| 0 <= i < 4 ==> (#[trigger] head[i]).status != DiagnosticStatus::Fail);
    assert(forall|i: int| 0 <= i < 3 ==> (#[trigger] middle[i]).status != DiagnosticStatus::Fail);
    assert forall|i: int| 0 <= i < 8 implies (#[trigger] models[i]).status
        != DiagnosticStatus::Fail by {
        if i < 4 {
            assert(models[i] == head[i]);
        } else if i < 7 {
            assert(models[i] == middle[i - 4]);
        }
    }
    assert(models.len() == 8);
    assert forall|i: int| 0 <= i < report.checks@.len() implies (
    #[trigger] report.checks@[i]).status != DiagnosticStatus::Fail by {
        assert(check_model(report.checks@[i]) == models[i]);
    }
}

} // verus!
