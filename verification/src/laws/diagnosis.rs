//! What a diagnosis says of the installation.
use crate::application::doctor::{DiagnosticCheck, DiagnosticStatus, DoctorReport};
use crate::cli::doctor::{
    build_doctor_report, check_model, check_models, config_check, database_check, directory_check,
    doctor_exit, process_checks, report_checks, service_check, supervisor_check, DirectoryLook,
    DoctorFacts, EntryLook,
};
use crate::infrastructure::process::IdentityStatus;
use vstd::prelude::*;

verus! {

broadcast use vstd::seq::group_seq_axioms;

/// The directory is missing, or real, the user's own and closed to others.
pub open spec fn directory_fits(look: DirectoryLook, uid: u32) -> bool {
    look.exists ==> (look.entry matches Ok(entry) && entry.is_directory && !entry.is_symlink
        && entry.owner == uid && entry.mode & 0o777 == 0o700)
}

/// The entries of a supervisor are not both there with one that others could have made.
pub open spec fn runtime_fits(lock: EntryLook, socket: EntryLook, uid: u32) -> bool {
    (lock is Found && socket is Found) ==> {
        let lock_entry = lock->Found_0;
        let socket_entry = socket->Found_0;
        &&& lock_entry.is_file && !lock_entry.is_symlink && lock_entry.owner == uid
            && lock_entry.mode & 0o777 == 0o600
        &&& socket_entry.is_socket && socket_entry.owner == uid && socket_entry.mode & 0o777
            == 0o600
    }
}

/// A report is healthy exactly where nothing failed: directories are missing or private, the configuration
/// is valid, the database is missing or readable, the clocks and this process can be read, and what a
/// supervisor left is not unsafe. A missing service is no failure.
pub proof fn lemma_healthy_where_nothing_failed(facts: DoctorFacts, report: DoctorReport)
    requires
        call_ensures(build_doctor_report, (facts,), report),
    ensures
        report.healthy <==> {
            &&& directory_fits(facts.state_directory, facts.uid)
            &&& directory_fits(facts.runtime_directory, facts.uid)
            &&& facts.config is Ok
            &&& !(facts.schema matches Some(Err(_)))
            &&& facts.processes matches Some(look) && look.identified && runtime_fits(
                look.lock,
                look.socket,
                facts.uid,
            )
        },
        report.schema_version == match facts.schema {
            Some(Ok(version)) => Some(version),
            _ => None,
        },
        report.durable_available <==> (facts.service matches Ok(status) && status.installed
            && status.running),
        report.config is Some <==> facts.config is Ok,
{
    let models = report_checks(facts);
    let head = seq![
        directory_check("state directory"@, facts.state_directory, facts.uid),
        directory_check("runtime directory"@, facts.runtime_directory, facts.uid),
        config_check(facts.config),
        database_check(facts.schema),
    ];
    let middle = process_checks(facts.processes, facts.uid);
    let checks = report.checks@;
    let n = middle.len();
    assert(n == 1 || n == 3);
    assert(models.len() == 5 + n);
    assert(models[0] == head[0] && models[1] == head[1] && models[2] == head[2] && models[3]
        == head[3]);
    assert(models[4] == middle[0]);
    if n == 3 {
        assert(models[5] == middle[1] && models[6] == middle[2]);
    }
    assert(models[4 + n as int] == service_check(facts.service));
    assert forall|i: int| 0 <= i < checks.len() implies (#[trigger] checks[i]).status
        == models[i].status by {
        assert(check_models(checks)[i] == check_model(checks[i]));
    }
    assert(checks.len() == models.len());
    if report.healthy {
        assert forall|i: int| 0 <= i < models.len() implies (#[trigger] models[i]).status
            != DiagnosticStatus::Fail by {
            assert(checks[i].status == models[i].status);
        }
    } else {
        let i = choose|i: int|
            0 <= i < checks.len() && (#[trigger] checks[i]).status == DiagnosticStatus::Fail;
        assert(models[i].status == DiagnosticStatus::Fail);
        assert(i == 0 || i == 1 || i == 2 || i == 3 || i == 4 || i == 5 || i == 6 || i == 7);
    }
}

/// A check with the name failed.
pub open spec fn fails(checks: Seq<DiagnosticCheck>, name: Seq<char>) -> bool {
    exists|i: int|
        {
            &&& 0 <= i < checks.len()
            &&& (#[trigger] checks[i]).status == DiagnosticStatus::Fail
            &&& checks[i].name@ == name
        }
}

/// A diagnosis exits with success where the report is healthy; else a failed database counts most, then the
/// supervisor, then everything else.
pub proof fn lemma_diagnosis_exits_by_what_failed(report: &DoctorReport, r: u8)
    requires
        call_ensures(doctor_exit, (report,), r),
    ensures
        r == 0 <==> report.healthy,
        r == 10 <==> !report.healthy && fails(report.checks@, "SQLite"@),
        r == 11 <==> !report.healthy && !fails(report.checks@, "SQLite"@) && fails(
            report.checks@,
            "supervisor"@,
        ),
        r == 0 || r == 10 || r == 11 || r == 12,
{
}

/// A supervisor is in order where it left nothing, or where what it left is safe and its process is alive.
pub proof fn lemma_supervisor_is_in_order(
    lock: EntryLook,
    socket: EntryLook,
    status: Option<IdentityStatus>,
    uid: u32,
)
    ensures
        supervisor_check(lock, socket, status, uid).status == DiagnosticStatus::Pass <==> {
            ||| lock == EntryLook::Missing && socket == EntryLook::Missing
            ||| lock is Found && socket is Found && runtime_fits(lock, socket, uid) && status
                == Some(IdentityStatus::Alive)
        },
        supervisor_check(lock, socket, status, uid).status == DiagnosticStatus::Fail
            <==> !runtime_fits(lock, socket, uid),
{
}

} // verus!
