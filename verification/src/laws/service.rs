//! How the durable service is installed and removed.
use crate::application::service::{
    after_install, after_uninstall, before_install, before_uninstall, failed_install,
    install_service, uninstall_service, CheckStep, FirstStep, ServiceAvailability, ServiceChange,
    ServiceLifecycleError, ServiceManager, ServiceManagerError, ServiceStatus,
};
use crate::infrastructure::paths::Platform;
use crate::infrastructure::service::machine::{
    activity_query, compared_file, did_succeed, environment_query, file_found, own_file, queried,
    require_success, CommandOutput, CommandRunner, ServiceFiles,
};
use crate::infrastructure::service::macos::{xml_escape, xml_escaped, LaunchdService};
use crate::infrastructure::service::native::NativeServiceManager;
use crate::infrastructure::service::systemd::{
    answers_yes, render_unit, supervisor_arguments, systemd_quote, systemd_status, unit_escaped,
    unit_quoted, SystemdUserService,
};
use crate::path_text::path_join;
use crate::text::{decimal, joined, texts};
use vstd::prelude::*;

verus! {

broadcast use vstd::seq::group_seq_axioms;

// ---------------------------------------------------------------------------------------------
// Decisions
// ---------------------------------------------------------------------------------------------
/// The service is installed only where its manager can be used and it does not run already.
pub proof fn lemma_running_services_are_not_installed_again(
    answer: Result<ServiceStatus, ServiceManagerError>,
    r: FirstStep,
)
    requires
        call_ensures(before_install, (answer,), r),
    ensures
        r is Change <==> (answer matches Ok(status) && status.availability
            == ServiceAvailability::Available && !(status.installed && status.running)),
        r matches FirstStep::Done(result) ==> match result {
            Ok(change) => !change.changed && answer == Ok::<ServiceStatus, ServiceManagerError>(
                change.status,
            ) && change.status.installed && change.status.running,
            Err(ServiceLifecycleError::Manager(error)) => answer == Err::<
                ServiceStatus,
                ServiceManagerError,
            >(error),
            Err(ServiceLifecycleError::Unavailable(_)) => answer matches Ok(status)
                && status.availability != ServiceAvailability::Available,
            Err(_) => false,
        },
{
}

/// The service is removed only where its manager can be used and it is installed.
pub proof fn lemma_missing_services_are_not_removed(
    answer: Result<ServiceStatus, ServiceManagerError>,
    r: FirstStep,
)
    requires
        call_ensures(before_uninstall, (answer,), r),
    ensures
        r is Change <==> (answer matches Ok(status) && status.availability
            == ServiceAvailability::Available && status.installed),
        r matches FirstStep::Done(result) ==> match result {
            Ok(change) => !change.changed && answer == Ok::<ServiceStatus, ServiceManagerError>(
                change.status,
            ) && !change.status.installed,
            Err(_) => answer matches Ok(status) ==> status.availability
                != ServiceAvailability::Available,
        },
{
}

/// An installation counts only where the service is installed and runs; otherwise it is undone.
pub proof fn lemma_installation_must_take_hold(
    answer: Result<ServiceStatus, ServiceManagerError>,
    r: CheckStep,
)
    requires
        call_ensures(after_install, (answer,), r),
    ensures
        r is RollBack <==> (answer matches Ok(status) && !(status.installed && status.running)),
        r matches CheckStep::Done(Ok(change)) ==> change.changed && change.status.installed
            && change.status.running && answer == Ok::<ServiceStatus, ServiceManagerError>(
            change.status,
        ),
{
}

/// A removal counts only where nothing is left of the service.
pub proof fn lemma_removal_must_take_hold(
    answer: Result<ServiceStatus, ServiceManagerError>,
    r: Result<ServiceChange, ServiceLifecycleError>,
)
    requires
        call_ensures(after_uninstall, (answer,), r),
    ensures
        match r {
            Ok(change) => change.changed && !change.status.installed && !change.status.running
                && answer == Ok::<ServiceStatus, ServiceManagerError>(change.status),
            Err(ServiceLifecycleError::IncompleteUninstall(_)) => answer matches Ok(status) && (
            status.installed || status.running),
            Err(ServiceLifecycleError::Manager(error)) => answer == Err::<
                ServiceStatus,
                ServiceManagerError,
            >(error),
            Err(_) => false,
        },
{
}

/// A failed installation is reported as undone only where that succeeded.
pub proof fn lemma_failed_undoing_is_reported(
    install: ServiceManagerError,
    undone: Result<(), ServiceManagerError>,
    r: ServiceLifecycleError,
)
    requires
        call_ensures(failed_install, (install, undone), r),
    ensures
        r is Install <==> undone is Ok,
        r is InstallRollback <==> undone is Err,
{
}

/// A service that is reported as installed runs; where nothing was to be done, nothing was done to it.
pub proof fn lemma_installed_service_runs<Manager: ServiceManager>(
    before: Manager,
    after: Manager,
    r: Result<ServiceChange, ServiceLifecycleError>,
)
    requires
        exists|at: &mut Manager|
            {
                &&& #[trigger] call_ensures(install_service::<Manager>, (at,), r)
                &&& *at == before
                &&& *final(at) == after
            },
    ensures
        r matches Ok(change) ==> {
            &&& change.status.installed && change.status.running
            &&& !change.changed ==> after == before
            &&& change.changed ==> call_ensures(
                Manager::status,
                (&after,),
                Ok::<ServiceStatus, ServiceManagerError>(change.status),
            )
        },
        r matches Err(ServiceLifecycleError::Unavailable(_)) ==> after == before,
        !(r matches Err(ServiceLifecycleError::IncompleteUninstall(_))),
{
}

/// A service that is reported as removed is gone; where nothing was to be done, nothing was done to it.
pub proof fn lemma_removed_service_is_gone<Manager: ServiceManager>(
    before: Manager,
    after: Manager,
    r: Result<ServiceChange, ServiceLifecycleError>,
)
    requires
        exists|at: &mut Manager|
            {
                &&& #[trigger] call_ensures(uninstall_service::<Manager>, (at,), r)
                &&& *at == before
                &&& *final(at) == after
            },
    ensures
        r matches Ok(change) ==> {
            &&& !change.status.installed
            &&& !change.changed ==> after == before
            &&& change.changed ==> !change.status.running && call_ensures(
                Manager::status,
                (&after,),
                Ok::<ServiceStatus, ServiceManagerError>(change.status),
            )
        },
        r matches Err(ServiceLifecycleError::Unavailable(_)) ==> after == before,
{
}

// ---------------------------------------------------------------------------------------------
// Service files
// ---------------------------------------------------------------------------------------------
/// A service file is ours only where it holds exactly what we would write; a missing one is not in place,
/// and one with other contents is refused.
pub proof fn lemma_foreign_files_are_refused(
    found: Result<Option<String>, String>,
    expected: &str,
    path: &str,
    foreign: &str,
    r: Result<bool, ServiceManagerError>,
)
    requires
        call_ensures(own_file, (found, expected, path, foreign), r),
    ensures
        r == Ok::<bool, ServiceManagerError>(true) <==> (found matches Ok(Some(contents))
            && contents@ == expected@),
        r == Ok::<bool, ServiceManagerError>(false) <==> found == Ok::<Option<String>, String>(None),
{
}

/// A service command that did not succeed is an error.
pub proof fn lemma_failed_commands_are_errors(
    command: &str,
    output: &CommandOutput,
    r: Result<(), ServiceManagerError>,
    said: &Result<CommandOutput, String>,
    yes: bool,
)
    requires
        call_ensures(require_success, (command, output), r),
        call_ensures(answers_yes, (said,), yes),
    ensures
        r is Ok <==> output.success,
        yes ==> (said matches Ok(done) && done.success && done.stdout@.len() == 4
            && done.stdout@[0] == 0x79 && done.stdout@[1] == 0x65 && done.stdout@[2] == 0x73
            && done.stdout@[3] == 0x0a),
{
}

/// A unit file of someone else is neither replaced nor removed, and nothing is run for it.
pub proof fn lemma_foreign_unit_is_left_alone<Runner: CommandRunner, Files: ServiceFiles>(
    before: SystemdUserService<Runner, Files>,
    installed: SystemdUserService<Runner, Files>,
    removed: SystemdUserService<Runner, Files>,
    r: Result<(), ServiceManagerError>,
    s: Result<(), ServiceManagerError>,
)
    requires
        forall|found: Result<Option<String>, String>| #[trigger]
            file_found(before.spec_files(), before.spec_unit_path(), found) ==> (found matches Ok(
                Some(contents),
            ) && contents@ != before.unit()),
        exists|at: &mut SystemdUserService<Runner, Files>|
            {
                &&& #[trigger] call_ensures(
                    SystemdUserService::<Runner, Files>::install,
                    (at,),
                    r,
                )
                &&& *at == before
                &&& *final(at) == installed
            },
        exists|at: &mut SystemdUserService<Runner, Files>|
            {
                &&& #[trigger] call_ensures(
                    SystemdUserService::<Runner, Files>::uninstall,
                    (at,),
                    s,
                )
                &&& *at == before
                &&& *final(at) == removed
            },
    ensures
        r is Err && s is Err,
        installed.spec_files() == before.spec_files(),
        installed.spec_runner() == before.spec_runner(),
        removed.spec_files() == before.spec_files(),
        removed.spec_runner() == before.spec_runner(),
{
}

/// An agent file of someone else is neither replaced nor removed, and nothing is run for it.
pub proof fn lemma_foreign_agent_is_left_alone<Runner: CommandRunner, Files: ServiceFiles>(
    before: LaunchdService<Runner, Files>,
    installed: LaunchdService<Runner, Files>,
    removed: LaunchdService<Runner, Files>,
    r: Result<(), ServiceManagerError>,
    s: Result<(), ServiceManagerError>,
)
    requires
        forall|found: Result<Option<String>, String>| #[trigger]
            file_found(before.spec_files(), before.spec_agent_path(), found) ==> (found matches Ok(
                Some(contents),
            ) && contents@ != before.plist()),
        exists|at: &mut LaunchdService<Runner, Files>|
            {
                &&& #[trigger] call_ensures(LaunchdService::<Runner, Files>::install, (at,), r)
                &&& *at == before
                &&& *final(at) == installed
            },
        exists|at: &mut LaunchdService<Runner, Files>|
            {
                &&& #[trigger] call_ensures(LaunchdService::<Runner, Files>::uninstall, (at,), s)
                &&& *at == before
                &&& *final(at) == removed
            },
    ensures
        r is Err && s is Err,
        installed.spec_files() == before.spec_files(),
        installed.spec_runner() == before.spec_runner(),
        removed.spec_files() == before.spec_files(),
        removed.spec_runner() == before.spec_runner(),
{
}

/// A service that is missing is written to its place with what it should hold, and then enabled and started
/// by systemctl for the user; success is reported only where all of that succeeded.
pub proof fn lemma_missing_unit_is_written_and_enabled<Runner: CommandRunner, Files: ServiceFiles>(
    before: SystemdUserService<Runner, Files>,
    after: SystemdUserService<Runner, Files>,
)
    requires
        forall|found: Result<Option<String>, String>| #[trigger]
            file_found(before.spec_files(), before.spec_unit_path(), found) ==> found == Ok::<
                Option<String>,
                String,
            >(None),
        exists|at: &mut SystemdUserService<Runner, Files>, r: Result<(), ServiceManagerError>|
            {
                &&& #[trigger] call_ensures(
                    SystemdUserService::<Runner, Files>::install,
                    (at,),
                    r,
                )
                &&& r is Ok
                &&& *at == before
                &&& *final(at) == after
            },
    ensures
        exists|at: &mut Files, path: &str, contents: &str, written: Result<(), String>|
            {
                &&& #[trigger] call_ensures(Files::install, (at, path, contents), written)
                &&& written is Ok
                &&& path@ == before.spec_unit_path()
                &&& contents@ == before.unit()
                &&& *final(at) == after.spec_files()
            },
        exists|at: &mut Runner, program: &str, list: &Vec<String>, done: CommandOutput|
            {
                &&& #[trigger] call_ensures(
                    Runner::run,
                    (at, program, list),
                    Ok::<CommandOutput, String>(done),
                )
                &&& done.success
                &&& program@ == "systemctl"@
                &&& texts(list@) == seq!["--user"@, "enable"@, "--now"@, "atx.service"@]
                &&& *final(at) == after.spec_runner()
            },
{
}

// ---------------------------------------------------------------------------------------------
// Quoting
// ---------------------------------------------------------------------------------------------
/// Texts are written between quotes in a unit file; what has a meaning there is doubled, or follows a
/// backslash. Line breaks cannot be written.
pub proof fn lemma_unit_quoting(value: &str, r: Result<String, ServiceManagerError>)
    requires
        call_ensures(systemd_quote, (value,), r),
    ensures
        r is Err <==> value@.contains('\n') || value@.contains('\r') || value@.contains('\0'),
        r matches Ok(quoted) ==> quoted@ == seq!['"'] + unit_escaped(value@) + seq!['"'],
{
}

/// What is written for one more character.
pub proof fn lemma_unit_characters(text: Seq<char>, c: char)
    ensures
        unit_escaped(Seq::empty()) == Seq::<char>::empty(),
        c == '\\' || c == '$' || c == '%' ==> unit_escaped(text.push(c)) == unit_escaped(text)
            + seq![c, c],
        c == '"' ==> unit_escaped(text.push(c)) == unit_escaped(text) + seq!['\\', '"'],
        c != '\\' && c != '$' && c != '%' && c != '"' ==> unit_escaped(text.push(c))
            == unit_escaped(text) + seq![c],
{
    assert(text.push(c).drop_last() =~= text);
}

/// Different texts are written differently, so that the service is started with the arguments that were
/// meant.
pub proof fn lemma_unit_quoting_is_unambiguous(a: Seq<char>, b: Seq<char>)
    requires
        unit_escaped(a) == unit_escaped(b),
    ensures
        a == b,
    decreases a.len(),
{
    if a.len() == 0 || b.len() == 0 {
        lemma_unit_escaped_end(a);
        lemma_unit_escaped_end(b);
        assert(a =~= b);
    } else {
        lemma_unit_escaped_end(a);
        lemma_unit_escaped_end(b);
        assert(a.last() == b.last());
        let x = unit_escaped(a.drop_last());
        let y = unit_escaped(b.drop_last());
        let whole = unit_escaped(a);
        assert(x =~= whole.take(x.len() as int));
        assert(y =~= whole.take(y.len() as int));
        lemma_unit_quoting_is_unambiguous(a.drop_last(), b.drop_last());
        assert(a =~= a.drop_last().push(a.last()));
        assert(b =~= b.drop_last().push(b.last()));
    }
}

proof fn lemma_unit_escaped_end(text: Seq<char>)
    ensures
        text.len() == 0 <==> unit_escaped(text).len() == 0,
        text.len() > 0 ==> unit_escaped(text).last() == text.last(),
{
}

/// The unit file is refused exactly where one of its arguments cannot be written.
pub proof fn lemma_unit_is_written_where_it_can_be(
    executable: &str,
    state: &str,
    runtime: &str,
    r: Result<String, ServiceManagerError>,
)
    requires
        call_ensures(render_unit, (executable, state, runtime), r),
        !executable@.contains('\r') && !executable@.contains('\0'),
        !state@.contains('\r') && !state@.contains('\0'),
        !runtime@.contains('\r') && !runtime@.contains('\0'),
    ensures
        r is Ok <==> !executable@.contains('\n') && !state@.contains('\n') && !runtime@.contains(
            '\n',
        ),
{
}

/// What is written in XML for one more character: markup is written by its name.
pub proof fn lemma_xml_characters(text: Seq<char>, c: char)
    ensures
        xml_escaped(Seq::empty()) == Seq::<char>::empty(),
        c == '&' ==> xml_escaped(text.push(c)) == xml_escaped(text) + "&amp;"@,
        c == '<' ==> xml_escaped(text.push(c)) == xml_escaped(text) + "&lt;"@,
        c == '>' ==> xml_escaped(text.push(c)) == xml_escaped(text) + "&gt;"@,
        c == '"' ==> xml_escaped(text.push(c)) == xml_escaped(text) + "&quot;"@,
        c == '\'' ==> xml_escaped(text.push(c)) == xml_escaped(text) + "&apos;"@,
        c != '&' && c != '<' && c != '>' && c != '"' && c != '\'' ==> xml_escaped(text.push(c))
            == xml_escaped(text) + seq![c],
{
    assert(text.push(c).drop_last() =~= text);
}

/// Nothing that was escaped is taken for markup.
pub proof fn lemma_escaped_text_is_no_markup(value: &str, r: String)
    requires
        call_ensures(xml_escape, (value,), r),
    ensures
        !r@.contains('<') && !r@.contains('>') && !r@.contains('"') && !r@.contains('\''),
{
    lemma_escaped_characters(value@);
}

proof fn lemma_escaped_characters(text: Seq<char>)
    ensures
        !xml_escaped(text).contains('<') && !xml_escaped(text).contains('>') && !xml_escaped(
            text,
        ).contains('"') && !xml_escaped(text).contains('\''),
    decreases text.len(),
{
    if text.len() > 0 {
        reveal_strlit("&amp;");
        reveal_strlit("&lt;");
        reveal_strlit("&gt;");
        reveal_strlit("&quot;");
        reveal_strlit("&apos;");
        lemma_escaped_characters(text.drop_last());
        let before = xml_escaped(text.drop_last());
        let all = xml_escaped(text);
        assert forall|i: int| 0 <= i < all.len() implies all[i] != '<' && all[i] != '>' && all[i]
            != '"' && all[i] != '\'' by {
            if i < before.len() {
                assert(all[i] == before[i]);
                assert(before.contains(before[i]));
            }
        }
    }
}

/// The status of a service says of it what was found out.
pub proof fn lemma_status_says_what_was_found(
    available: bool,
    installed: bool,
    running: bool,
    lingering: bool,
    path: &str,
    r: ServiceStatus,
)
    requires
        call_ensures(systemd_status, (available, installed, running, lingering, path), r),
    ensures
        r.availability == ServiceAvailability::Available <==> available,
        r.installed <==> installed,
        r.running <==> running,
        texts(r.files@) == seq![path@],
        !available ==> r.detail@ == "the systemd user manager is unavailable"@,
        available && !running && installed ==> r.detail@
            == "user service is installed but not running"@,
        available && !running && !installed ==> r.detail@ == "user service is not installed"@,
        available && running && lingering ==> r.detail@
            == "user service is enabled, running, and lingering is enabled"@,
        available && running && !lingering ==> r.detail@
            == "user service is enabled and running; lingering is disabled"@,
        lingering ==> r.guarantee@
            == "restarts after crashes and starts without an interactive login"@,
{
}

/// A service of ours is disabled and stopped, its file is removed, and the units are read again; success is
/// reported only where all of that succeeded.
pub proof fn lemma_own_unit_is_disabled_and_removed<Runner: CommandRunner, Files: ServiceFiles>(
    before: SystemdUserService<Runner, Files>,
    after: SystemdUserService<Runner, Files>,
)
    requires
        !before.refused(),
        forall|found: Result<Option<String>, String>| #[trigger]
            file_found(before.spec_files(), before.spec_unit_path(), found) ==> (found matches Ok(
                Some(contents),
            ) && contents@ == before.unit()),
        exists|at: &mut SystemdUserService<Runner, Files>, r: Result<(), ServiceManagerError>|
            {
                &&& #[trigger] call_ensures(
                    SystemdUserService::<Runner, Files>::uninstall,
                    (at,),
                    r,
                )
                &&& r is Ok
                &&& *at == before
                &&& *final(at) == after
            },
    ensures
        exists|at: &mut Runner, program: &str, list: &Vec<String>, done: CommandOutput|
            {
                &&& #[trigger] call_ensures(
                    Runner::run,
                    (at, program, list),
                    Ok::<CommandOutput, String>(done),
                )
                &&& done.success
                &&& program@ == "systemctl"@
                &&& texts(list@) == seq!["--user"@, "disable"@, "--now"@, "atx.service"@]
                &&& *at == before.spec_runner()
            },
        exists|at: &mut Files, path: &str, removed: Result<(), String>|
            {
                &&& #[trigger] call_ensures(Files::remove, (at, path), removed)
                &&& removed is Ok
                &&& path@ == before.spec_unit_path()
                &&& *at == before.spec_files()
                &&& *final(at) == after.spec_files()
            },
        exists|at: &mut Runner, program: &str, list: &Vec<String>, done: CommandOutput|
            {
                &&& #[trigger] call_ensures(
                    Runner::run,
                    (at, program, list),
                    Ok::<CommandOutput, String>(done),
                )
                &&& done.success
                &&& program@ == "systemctl"@
                &&& texts(list@) == seq!["--user"@, "daemon-reload"@]
                &&& *final(at) == after.spec_runner()
            },
{
}

/// An agent that is missing is written to its place with what it should hold, and then loaded and started by
/// launchctl for the user.
pub proof fn lemma_missing_agent_is_written_and_started<
    Runner: CommandRunner,
    Files: ServiceFiles,
>(before: LaunchdService<Runner, Files>, after: LaunchdService<Runner, Files>)
    requires
        forall|found: Result<Option<String>, String>| #[trigger]
            file_found(before.spec_files(), before.spec_agent_path(), found) ==> found == Ok::<
                Option<String>,
                String,
            >(None),
        exists|at: &mut LaunchdService<Runner, Files>, r: Result<(), ServiceManagerError>|
            {
                &&& #[trigger] call_ensures(LaunchdService::<Runner, Files>::install, (at,), r)
                &&& r is Ok
                &&& *at == before
                &&& *final(at) == after
            },
    ensures
        exists|at: &mut Files, path: &str, contents: &str, written: Result<(), String>|
            {
                &&& #[trigger] call_ensures(Files::install, (at, path, contents), written)
                &&& written is Ok
                &&& path@ == before.spec_agent_path()
                &&& contents@ == before.plist()
                &&& *final(at) == after.spec_files()
            },
        exists|at: &mut Runner, program: &str, list: &Vec<String>, done: CommandOutput|
            {
                &&& #[trigger] call_ensures(
                    Runner::run,
                    (at, program, list),
                    Ok::<CommandOutput, String>(done),
                )
                &&& done.success
                &&& program@ == "/bin/launchctl"@
                &&& texts(list@) == seq![
                    "bootstrap"@,
                    "gui/"@ + decimal(before.spec_uid() as nat),
                    before.spec_agent_path(),
                ]
                &&& *at == before.spec_runner()
            },
        exists|at: &mut Runner, program: &str, list: &Vec<String>, done: CommandOutput|
            {
                &&& #[trigger] call_ensures(
                    Runner::run,
                    (at, program, list),
                    Ok::<CommandOutput, String>(done),
                )
                &&& done.success
                &&& program@ == "/bin/launchctl"@
                &&& texts(list@) == seq![
                    "kickstart"@,
                    "-k"@,
                    "gui/"@ + decimal(before.spec_uid() as nat) + "/"@ + "io.github.jsugg.atx"@,
                ]
                &&& *final(at) == after.spec_runner()
            },
{
}

/// The service starts the supervisor of the executable, for the directories that are used, each argument
/// between quotes; it is started again where it fails.
pub proof fn lemma_unit_starts_the_supervisor(
    executable: &str,
    state: &str,
    runtime: &str,
    unit: String,
)
    requires
        call_ensures(
            render_unit,
            (executable, state, runtime),
            Ok::<String, ServiceManagerError>(unit),
        ),
    ensures
        unit@
            == "[Unit]\nDescription=ATX per-user command scheduler\n\n[Service]\nType=simple\nExecStart="@
            + (quoted(executable@) + " "@ + quoted("__supervisor"@) + " "@ + quoted(
            "--state-dir"@,
        ) + " "@ + quoted(state@) + " "@ + quoted("--runtime-dir"@) + " "@ + quoted(runtime@) + " "@
            + quoted("--service-managed"@))
            + "\nRestart=on-failure\nRestartSec=2s\nKillMode=process\nNoNewPrivileges=true\nPrivateTmp=true\n\n[Install]\nWantedBy=default.target\n"@,
{
    let list = supervisor_arguments(executable@, state@, runtime@);
    let all = list.map_values(|argument: Seq<char>| unit_quoted(argument));
    reveal_with_fuel(joined, 8);
    assert(all =~= seq![
        quoted(executable@),
        quoted("__supervisor"@),
        quoted("--state-dir"@),
        quoted(state@),
        quoted("--runtime-dir"@),
        quoted(runtime@),
        quoted("--service-managed"@),
    ]);
    let six = all.drop_last();
    let five = six.drop_last();
    let four = five.drop_last();
    let three = four.drop_last();
    let two = three.drop_last();
    let one = two.drop_last();
    assert(six.last() == quoted(runtime@) && five.last() == quoted("--runtime-dir"@)
        && four.last() == quoted(state@) && three.last() == quoted("--state-dir"@) && two.last()
        == quoted("__supervisor"@) && one[0] == quoted(executable@) && one.len() == 1);
}

/// A text between quotes, with what has a meaning in a unit file escaped.
pub open spec fn quoted(text: Seq<char>) -> Seq<char> {
    seq!['"'] + unit_escaped(text) + seq!['"']
}

/// The service belongs to the platform: an agent of the user on macOS, a unit of the user on Linux.
pub proof fn lemma_service_belongs_to_the_platform<Runner: CommandRunner, Files: ServiceFiles>(
    platform: Platform,
    executable: String,
    state: String,
    runtime: String,
    home: &str,
    config_home: Option<String>,
    uid: u32,
    runner: Runner,
    files: Files,
    r: NativeServiceManager<Runner, Files>,
)
    requires
        call_ensures(
            NativeServiceManager::<Runner, Files>::detect,
            (platform, executable, state, runtime, home, config_home, uid, runner, files),
            r,
        ),
    ensures
        r is Launchd <==> platform == Platform::MacOs,
        r is Systemd <==> platform == Platform::Linux,
        r matches NativeServiceManager::Launchd(agent) ==> {
            &&& agent.spec_executable() == executable@
            &&& agent.spec_state_directory() == state@
            &&& agent.spec_runtime_directory() == runtime@
            &&& agent.spec_uid() == uid
            &&& agent.spec_agent_path() == path_join(
                path_join(path_join(home@, "Library"@), "LaunchAgents"@),
                "io.github.jsugg.atx.plist"@,
            )
        },
        r matches NativeServiceManager::Systemd(unit) ==> {
            &&& unit.spec_executable() == executable@
            &&& unit.spec_state_directory() == state@
            &&& unit.spec_runtime_directory() == runtime@
            &&& unit.spec_uid() == uid
            &&& config_home matches Some(root) ==> unit.spec_unit_path() == path_join(
                path_join(root@, "systemd/user"@),
                "atx.service"@,
            )
            &&& config_home is None ==> unit.spec_unit_path() == path_join(
                path_join(path_join(home@, ".config"@), "systemd/user"@),
                "atx.service"@,
            )
        },
{
}

/// Asks the systemd of the user whether the service is active.
pub open spec fn asking_whether_active() -> Seq<Seq<char>> {
    seq!["--user"@, "is-active"@, "--quiet"@, "atx.service"@]
}

/// Asks the systemd of the user for its environment, which it gives wherever it can be used.
pub open spec fn asking_for_the_environment() -> Seq<Seq<char>> {
    seq!["--user"@, "show-environment"@]
}

/// A service is reported as running only where systemd answers, the file is ours and systemd says that the
/// service is active.
pub proof fn lemma_status_is_what_systemd_says<Runner: CommandRunner, Files: ServiceFiles>(
    service: &SystemdUserService<Runner, Files>,
    status: ServiceStatus,
)
    requires
        call_ensures(
            SystemdUserService::<Runner, Files>::status,
            (service,),
            Ok::<ServiceStatus, ServiceManagerError>(status),
        ),
    ensures
        status.running ==> status.installed && status.availability
            == ServiceAvailability::Available,
        status.running ==> exists|output: CommandOutput| #[trigger]
            queried(
                service.spec_runner(),
                "systemctl"@,
                asking_whether_active(),
                Ok::<CommandOutput, String>(output),
            ) && output.success,
        status.availability == ServiceAvailability::Available ==> exists|output: CommandOutput|
            #[trigger] queried(
                service.spec_runner(),
                "systemctl"@,
                asking_for_the_environment(),
                Ok::<CommandOutput, String>(output),
            ) && output.success,
        status.installed ==> exists|contents: String| #[trigger]
            file_found(
                service.spec_files(),
                service.spec_unit_path(),
                Ok::<Option<String>, String>(Some(contents)),
            ) && contents@ == service.unit(),
{
    let (available, compared) = choose|
        available: bool,
        compared: Result<bool, ServiceManagerError>,
    |
        {
            &&& #[trigger] service.availability_asked(available)
            &&& #[trigger] service.unit_compared(compared)
            &&& compared matches Ok(installed) && exists|running: bool, lingering: bool|
                #[trigger] service.status_asked(
                    available,
                    installed,
                    running,
                    lingering,
                    status,
                )
        };
    if available {
        let output = choose|output: Result<CommandOutput, String>|
            {
                &&& #[trigger] service.asked(environment_query(), output)
                &&& available == did_succeed(output)
            };
        assert(output == Ok::<CommandOutput, String>(output->Ok_0));
        assert(environment_query() == asking_for_the_environment());
        assert(queried(
            service.spec_runner(),
            "systemctl"@,
            asking_for_the_environment(),
            Ok::<CommandOutput, String>(output->Ok_0),
        ));
    }
    if status.running {
        assert(service.activity_asked(true));
        let output = choose|output: Result<CommandOutput, String>|
            {
                &&& #[trigger] service.asked(activity_query(), output)
                &&& true == did_succeed(output)
            };
        assert(output == Ok::<CommandOutput, String>(output->Ok_0));
        assert(activity_query() == asking_whether_active());
        assert(queried(
            service.spec_runner(),
            "systemctl"@,
            asking_whether_active(),
            Ok::<CommandOutput, String>(output->Ok_0),
        ));
    }
    if status.installed {
        let found = choose|found: Result<Option<String>, String>|
            {
                &&& #[trigger] file_found(service.spec_files(), service.spec_unit_path(), found)
                &&& if service.refused() && found matches Ok(Some(_)) {
                    compared is Err
                } else {
                    compared_file(
                        found,
                        service.unit(),
                        service.spec_unit_path(),
                        "refusing foreign systemd unit "@,
                        compared,
                    )
                }
            };
        let contents = found->Ok_0->0;
        assert(found == Ok::<Option<String>, String>(Some(contents)));
    }
}

} // verus!
