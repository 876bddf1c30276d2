//! Per-user systemd service adapter.
use vstd::prelude::*;

use super::machine::{
    activity_query, arguments, borrowed_texts, command_result, compared_file, did_succeed,
    disable_request, enable_request, environment_query, file_found, linger_query, own_file,
    queried, reload_request, require_success, service_file, systemctl_query, systemctl_request,
    CommandOutput, CommandRunner, ServiceFiles,
};
use crate::application::service::{
    ServiceAvailability, ServiceManager, ServiceManagerError, ServiceStatus,
};
use crate::path_text::{join_path, path_join};
use crate::text::{
    chars_of, contains_char, copy_text, decimal, join, joined, push_decimal, push_text, texts,
};

verus! {

broadcast use vstd::seq::group_seq_axioms;

// ---------------------------------------------------------------------------------------------
// The unit file
// ---------------------------------------------------------------------------------------------
/// A character as it is written between quotes in a unit file.
pub open spec fn unit_spelling(c: char) -> Seq<char> {
    if c == '\\' {
        seq!['\\', '\\']
    } else if c == '"' {
        seq!['\\', '"']
    } else if c == '$' {
        seq!['$', '$']
    } else if c == '%' {
        seq!['%', '%']
    } else {
        seq![c]
    }
}

/// A text as it is written between quotes in a unit file.
pub open spec fn unit_escaped(text: Seq<char>) -> Seq<char>
    decreases text.len(),
{
    if text.len() == 0 {
        Seq::empty()
    } else {
        unit_escaped(text.drop_last()) + unit_spelling(text.last())
    }
}

/// The text holds a character that no unit file can hold.
pub open spec fn has_line_break(text: Seq<char>) -> bool {
    text.contains('\n') || text.contains('\r') || text.contains('\0')
}

/// A text with its quotes in a unit file.
pub open spec fn unit_quoted(text: Seq<char>) -> Seq<char> {
    seq!['"'] + unit_escaped(text) + seq!['"']
}

/// The command line of the supervisor that the service runs.
pub open spec fn supervisor_arguments(
    executable: Seq<char>,
    state_directory: Seq<char>,
    runtime_directory: Seq<char>,
) -> Seq<Seq<char>> {
    seq![
        executable,
        "__supervisor"@,
        "--state-dir"@,
        state_directory,
        "--runtime-dir"@,
        runtime_directory,
        "--service-managed"@,
    ]
}

/// The unit file: it runs the supervisor and restarts it when it fails.
pub open spec fn unit_file(
    executable: Seq<char>,
    state_directory: Seq<char>,
    runtime_directory: Seq<char>,
) -> Seq<char> {
    "[Unit]\nDescription=ATX per-user command scheduler\n\n[Service]\nType=simple\nExecStart="@
        + joined(
        supervisor_arguments(executable, state_directory, runtime_directory).map_values(
            |argument: Seq<char>| unit_quoted(argument),
        ),
        " "@,
    )
        + "\nRestart=on-failure\nRestartSec=2s\nKillMode=process\nNoNewPrivileges=true\nPrivateTmp=true\n\n[Install]\nWantedBy=default.target\n"@
}

/// A text with its quotes in a unit file; line breaks and NUL cannot be written.
pub fn systemd_quote(value: &str) -> (r: Result<String, ServiceManagerError>)
    ensures
        if has_line_break(value@) {
            r matches Err(error) && error@ == "service arguments cannot contain control characters"@
        } else {
            r matches Ok(quoted) && quoted@ == unit_quoted(value@)
        },
{
    if contains_char(value, '\n') || contains_char(value, '\r') || contains_char(value, '\0') {
        return Err(
            ServiceManagerError::new(
                "service arguments cannot contain control characters".to_owned(),
            ),
        );
    }
    let chars: Vec<char> = chars_of(value);
    let mut out: String = String::new();
    out.push('"');
    let mut index: usize = 0;
    assert(value@.take(0) =~= Seq::<char>::empty());
    assert(out@ =~= seq!['"'] + unit_escaped(value@.take(0)));
    while index < chars.len()
        invariant
            index <= chars@.len(),
            chars@ == value@,
            out@ == seq!['"'] + unit_escaped(value@.take(index as int)),
        decreases chars@.len() - index,
    {
        let c: char = chars[index];
        let ghost before = out@;
        proof {
            let next = value@.take(index + 1);
            assert(next.drop_last() =~= value@.take(index as int));
            assert(next.last() == c);
        }
        if c == '\\' {
            out.push('\\');
            out.push('\\');
        } else if c == '"' {
            out.push('\\');
            out.push('"');
        } else if c == '$' {
            out.push('$');
            out.push('$');
        } else if c == '%' {
            out.push('%');
            out.push('%');
        } else {
            out.push(c);
        }
        assert(out@ =~= before + unit_spelling(c));
        assert(out@ =~= seq!['"'] + unit_escaped(value@.take(index + 1)));
        index += 1;
    }
    assert(value@.take(value@.len() as int) =~= value@);
    out.push('"');
    assert(out@ =~= unit_quoted(value@));
    Ok(out)
}

/// Some argument of the supervisor cannot be written to a unit file.
pub open spec fn unit_refused(
    executable: Seq<char>,
    state_directory: Seq<char>,
    runtime_directory: Seq<char>,
) -> bool {
    has_line_break(executable) || has_line_break(state_directory) || has_line_break(
        runtime_directory,
    )
}

/// Renders the unit file.
pub fn render_unit(executable: &str, state_directory: &str, runtime_directory: &str) -> (r: Result<
    String,
    ServiceManagerError,
>)
    ensures
        if unit_refused(executable@, state_directory@, runtime_directory@) {
            r matches Err(error) && error@ == "service arguments cannot contain control characters"@
        } else {
            r matches Ok(unit) && unit@ == unit_file(
                executable@,
                state_directory@,
                runtime_directory@,
            )
        },
{
    let parts: [&str; 7] = [
        executable,
        "__supervisor",
        "--state-dir",
        state_directory,
        "--runtime-dir",
        runtime_directory,
        "--service-managed",
    ];
    let ghost all = supervisor_arguments(executable@, state_directory@, runtime_directory@);
    let ghost quoted_all = all.map_values(|argument: Seq<char>| unit_quoted(argument));
    proof {
        reveal_strlit("__supervisor");
        reveal_strlit("--state-dir");
        reveal_strlit("--runtime-dir");
        reveal_strlit("--service-managed");
        assert(!has_line_break("__supervisor"@));
        assert(!has_line_break("--state-dir"@));
        assert(!has_line_break("--runtime-dir"@));
        assert(!has_line_break("--service-managed"@));
        assert(forall|i: int| 0 <= i < 7 ==> (#[trigger] parts@[i])@ == all[i]);
    }
    let mut quoted: Vec<String> = Vec::new();
    let mut index: usize = 0;
    assert(texts(quoted@) =~= quoted_all.take(0));
    while index < 7
        invariant
            index <= 7,
            parts@.len() == 7,
            all == supervisor_arguments(executable@, state_directory@, runtime_directory@),
            forall|i: int| 0 <= i < 7 ==> (#[trigger] parts@[i])@ == all[i],
            quoted_all == all.map_values(|argument: Seq<char>| unit_quoted(argument)),
            texts(quoted@) == quoted_all.take(index as int),
            forall|i: int| 0 <= i < index ==> !has_line_break(#[trigger] all[i]),
            !has_line_break("__supervisor"@),
            !has_line_break("--state-dir"@),
            !has_line_break("--runtime-dir"@),
            !has_line_break("--service-managed"@),
        decreases 7 - index,
    {
        assert(parts@[index as int]@ == all[index as int]);
        match systemd_quote(parts[index]) {
            Ok(text) => {
                proof {
                    assert(texts(quoted@.push(text)) =~= texts(quoted@).push(text@));
                    assert(quoted_all.take(index + 1) =~= quoted_all.take(index as int).push(
                        quoted_all[index as int],
                    ));
                }
                quoted.push(text);
            },
            Err(error) => {
                assert(has_line_break(all[index as int]));
                return Err(error);
            },
        }
        index += 1;
    }
    proof {
        assert(!has_line_break(all[0]) && !has_line_break(all[3]) && !has_line_break(all[5]));
        assert(quoted_all.take(7) =~= quoted_all);
    }
    let command: String = join(&quoted, " ");
    let mut out: String =
        "[Unit]\nDescription=ATX per-user command scheduler\n\n[Service]\nType=simple\nExecStart=".to_owned();
    push_text(&mut out, command.as_str());
    push_text(
        &mut out,
        "\nRestart=on-failure\nRestartSec=2s\nKillMode=process\nNoNewPrivileges=true\nPrivateTmp=true\n\n[Install]\nWantedBy=default.target\n",
    );
    Ok(out)
}

// ---------------------------------------------------------------------------------------------
// The service
// ---------------------------------------------------------------------------------------------
/// The supervisor as a service of the user's systemd.
pub struct SystemdUserService<Runner, Files> {
    executable: String,
    state_directory: String,
    runtime_directory: String,
    unit_path: String,
    uid: u32,
    runner: Runner,
    files: Files,
}

/// The status of the service in words.
pub open spec fn status_detail(
    available: bool,
    installed: bool,
    running: bool,
    lingering: bool,
) -> Seq<char> {
    if !available {
        "the systemd user manager is unavailable"@
    } else if running {
        if lingering {
            "user service is enabled, running, and lingering is enabled"@
        } else {
            "user service is enabled and running; lingering is disabled"@
        }
    } else if installed {
        "user service is installed but not running"@
    } else {
        "user service is not installed"@
    }
}

/// What the service promises.
pub open spec fn status_guarantee(lingering: bool) -> Seq<char> {
    if lingering {
        "restarts after crashes and starts without an interactive login"@
    } else {
        "restarts after crashes while this user's systemd manager is running"@
    }
}

/// The status is that of a service whose manager answers or not, and lets it run without a login
/// or not; a service runs only where it is installed and its manager answers.
pub open spec fn reports_service(
    status: ServiceStatus,
    available: bool,
    lingering: bool,
    unit_path: Seq<char>,
) -> bool {
    &&& status.manager@ == "systemd-user"@
    &&& (status.availability == ServiceAvailability::Available) == available
    &&& status.running ==> available && status.installed
    &&& lingering ==> available
    &&& texts(status.files@) == seq![unit_path]
    &&& status.guarantee@ == status_guarantee(lingering)
    &&& status.detail@ == status_detail(available, status.installed, status.running, lingering)
}

/// The status made of what was found out.
pub fn systemd_status(
    available: bool,
    installed: bool,
    running: bool,
    lingering: bool,
    unit_path: &str,
) -> (r: ServiceStatus)
    ensures
        r.manager@ == "systemd-user"@,
        (r.availability == ServiceAvailability::Available) == available,
        r.installed == installed,
        r.running == running,
        texts(r.files@) == seq![unit_path@],
        r.guarantee@ == status_guarantee(lingering),
        r.detail@ == status_detail(available, installed, running, lingering),
{
    let guarantee: String = if lingering {
        "restarts after crashes and starts without an interactive login".to_owned()
    } else {
        "restarts after crashes while this user's systemd manager is running".to_owned()
    };
    let detail: String = if !available {
        "the systemd user manager is unavailable".to_owned()
    } else if running {
        if lingering {
            "user service is enabled, running, and lingering is enabled".to_owned()
        } else {
            "user service is enabled and running; lingering is disabled".to_owned()
        }
    } else if installed {
        "user service is installed but not running".to_owned()
    } else {
        "user service is not installed".to_owned()
    };
    let mut files: Vec<String> = Vec::new();
    files.push(copy_text(unit_path));
    assert(texts(files@) =~= seq![unit_path@]);
    ServiceStatus {
        manager: "systemd-user".to_owned(),
        availability: if available {
            ServiceAvailability::Available
        } else {
            ServiceAvailability::Unavailable
        },
        installed,
        running,
        files,
        guarantee,
        detail,
    }
}

/// Whether a command ran and succeeded.
pub fn succeeded(output: &Result<CommandOutput, String>) -> (r: bool)
    ensures
        r == did_succeed(*output),
{
    match output {
        Ok(done) => done.success,
        Err(_) => false,
    }
}

/// The answer to a lingering query says yes.
pub open spec fn says_yes(output: Result<CommandOutput, String>) -> bool {
    output matches Ok(done) && done.success && done.stdout@ == seq![121u8, 101u8, 115u8, 10u8]
}

/// Whether the answer to a lingering query says yes.
pub fn answers_yes(output: &Result<CommandOutput, String>) -> (r: bool)
    ensures
        r == says_yes(*output),
{
    match output {
        Ok(done) => {
            let bytes: &Vec<u8> = &done.stdout;
            let yes: bool = bytes.len() == 4 && bytes[0] == 121 && bytes[1] == 101 && bytes[2]
                == 115 && bytes[3] == 10;
            proof {
                if yes {
                    assert(done.stdout@ =~= seq![121u8, 101u8, 115u8, 10u8]);
                }
            }
            done.success && yes
        },
        Err(_) => false,
    }
}

/// What came back while the service is installed, the files once the unit file was prepared, and the
/// runner once the units were read again.
pub struct UnitInstall<Runner, Files> {
    pub available: bool,
    pub compared: Result<bool, ServiceManagerError>,
    pub prepared: Result<(), String>,
    pub ready: Files,
    pub written: Result<(), String>,
    pub reload: Result<CommandOutput, String>,
    pub reloaded: Runner,
    pub enable: Result<CommandOutput, String>,
}

/// What came back while the service is uninstalled, and the runner once the service was disabled.
pub struct UnitRemoval<Runner> {
    pub compared: Result<bool, ServiceManagerError>,
    pub disable: Result<CommandOutput, String>,
    pub disabled: Runner,
    pub removed: Result<(), String>,
    pub reload: Result<CommandOutput, String>,
}

impl<Runner: CommandRunner> UnitRemoval<Runner> {
    /// The service is disabled: its unit file is in place.
    pub open spec fn disables(self) -> bool {
        self.compared == Ok::<bool, ServiceManagerError>(true)
    }

    /// The unit file is removed: the service was disabled.
    pub open spec fn removes(self) -> bool {
        self.disables() && did_succeed(self.disable)
    }

    /// The units are read again: the unit file was removed.
    pub open spec fn reloads(self) -> bool {
        self.removes() && self.removed is Ok
    }
}

impl<Runner: CommandRunner, Files: ServiceFiles> SystemdUserService<Runner, Files> {
    pub closed spec fn spec_executable(self) -> Seq<char> {
        self.executable@
    }

    pub closed spec fn spec_state_directory(self) -> Seq<char> {
        self.state_directory@
    }

    pub closed spec fn spec_runtime_directory(self) -> Seq<char> {
        self.runtime_directory@
    }

    pub closed spec fn spec_unit_path(self) -> Seq<char> {
        self.unit_path@
    }

    pub closed spec fn spec_uid(self) -> u32 {
        self.uid
    }

    pub closed spec fn spec_runner(self) -> Runner {
        self.runner
    }

    pub closed spec fn spec_files(self) -> Files {
        self.files
    }

    /// The unit file cannot be written.
    pub open spec fn refused(self) -> bool {
        unit_refused(
            self.spec_executable(),
            self.spec_state_directory(),
            self.spec_runtime_directory(),
        )
    }

    /// What the unit file is to hold.
    pub open spec fn unit(self) -> Seq<char> {
        unit_file(
            self.spec_executable(),
            self.spec_state_directory(),
            self.spec_runtime_directory(),
        )
    }

    /// The service differs at most in what it uses of the machine.
    pub open spec fn same_as(self, other: SystemdUserService<Runner, Files>) -> bool {
        &&& self.spec_executable() == other.spec_executable()
        &&& self.spec_state_directory() == other.spec_state_directory()
        &&& self.spec_runtime_directory() == other.spec_runtime_directory()
        &&& self.spec_unit_path() == other.spec_unit_path()
        &&& self.spec_uid() == other.spec_uid()
    }

    /// systemctl was asked for the user, with this answer.
    pub open spec fn asked(
        self,
        args: Seq<Seq<char>>,
        output: Result<CommandOutput, String>,
    ) -> bool {
        queried(self.spec_runner(), "systemctl"@, args, output)
    }

    /// The user's systemd was asked whether it answers.
    pub open spec fn availability_asked(self, available: bool) -> bool {
        exists|output: Result<CommandOutput, String>|
            {
                &&& #[trigger] self.asked(environment_query(), output)
                &&& available == did_succeed(output)
            }
    }

    /// The user's systemd was asked whether the service runs.
    pub open spec fn activity_asked(self, running: bool) -> bool {
        exists|output: Result<CommandOutput, String>|
            {
                &&& #[trigger] self.asked(activity_query(), output)
                &&& running == did_succeed(output)
            }
    }

    /// The login manager was asked whether the user's services run without a login.
    pub open spec fn lingering_asked(self, lingering: bool) -> bool {
        exists|output: Result<CommandOutput, String>|
            {
                &&& #[trigger] queried(
                    self.spec_runner(),
                    "loginctl"@,
                    linger_query(self.spec_uid()),
                    output,
                )
                &&& lingering == says_yes(output)
            }
    }

    /// The result is what comparing the unit file gives.
    pub open spec fn unit_compared(self, r: Result<bool, ServiceManagerError>) -> bool {
        exists|found: Result<Option<String>, String>|
            {
                &&& #[trigger] file_found(self.spec_files(), self.spec_unit_path(), found)
                &&& if self.refused() && found matches Ok(Some(_)) {
                    r matches Err(error) && error@
                        == "service arguments cannot contain control characters"@
                } else {
                    compared_file(
                        found,
                        self.unit(),
                        self.spec_unit_path(),
                        "refusing foreign systemd unit "@,
                        r,
                    )
                }
            }
    }

    /// The status is made of what was found out: a service that is not there is not asked for.
    pub open spec fn status_asked(
        self,
        available: bool,
        installed: bool,
        running: bool,
        lingering: bool,
        status: ServiceStatus,
    ) -> bool {
        &&& if available && installed {
            self.activity_asked(running)
        } else {
            !running
        }
        &&& if available {
            self.lingering_asked(lingering)
        } else {
            !lingering
        }
        &&& status.installed == installed
        &&& status.running == running
        &&& reports_service(status, available, lingering, self.spec_unit_path())
    }

    /// The result is the status of the service.
    pub open spec fn status_found(self, r: Result<ServiceStatus, ServiceManagerError>) -> bool {
        exists|available: bool, compared: Result<bool, ServiceManagerError>|
            {
                &&& #[trigger] self.availability_asked(available)
                &&& #[trigger] self.unit_compared(compared)
                &&& match compared {
                    Err(error) => r == Err::<ServiceStatus, ServiceManagerError>(error),
                    Ok(installed) => r matches Ok(status) && exists|running: bool, lingering: bool|
                        #[trigger] self.status_asked(
                            available,
                            installed,
                            running,
                            lingering,
                            status,
                        ),
                }
            }
    }

    /// The unit file is prepared: systemd answers, and none is in place.
    pub open spec fn prepares_unit(self, steps: UnitInstall<Runner, Files>) -> bool {
        steps.available && steps.compared == Ok::<bool, ServiceManagerError>(false)
    }

    /// What was prepared is discarded: the unit file cannot be written.
    pub open spec fn discards_unit(self, steps: UnitInstall<Runner, Files>) -> bool {
        self.prepares_unit(steps) && steps.prepared is Ok && self.refused()
    }

    /// The unit file is written: it was prepared, and can be written.
    pub open spec fn writes_unit(self, steps: UnitInstall<Runner, Files>) -> bool {
        self.prepares_unit(steps) && steps.prepared is Ok && !self.refused()
    }

    /// The units are read again: the unit file was written.
    pub open spec fn reloads_units(self, steps: UnitInstall<Runner, Files>) -> bool {
        self.writes_unit(steps) && steps.written is Ok
    }

    /// The service is enabled: the units were read again.
    pub open spec fn enables_unit(self, steps: UnitInstall<Runner, Files>) -> bool {
        self.reloads_units(steps) && did_succeed(steps.reload)
    }

    /// The result is what installing the service gives with the answers: a unit file in place is
    /// left alone, and one of someone else is never replaced.
    pub open spec fn install_result(
        self,
        steps: UnitInstall<Runner, Files>,
        r: Result<(), ServiceManagerError>,
    ) -> bool {
        &&& self.availability_asked(steps.available)
        &&& if !steps.available {
            r matches Err(error) && error@ == "the systemd user manager is unavailable"@
        } else {
            &&& self.unit_compared(steps.compared)
            &&& match steps.compared {
                Err(error) => r == Err::<(), ServiceManagerError>(error),
                Ok(installed) => if installed {
                    r is Ok
                } else if steps.prepared is Err {
                    r matches Err(error) && error@ == steps.prepared->Err_0@
                } else if self.refused() {
                    r matches Err(error) && error@
                        == "service arguments cannot contain control characters"@
                } else {
                    match steps.written {
                        Err(detail) => r matches Err(error) && error@ == detail@,
                        Ok(_) => if did_succeed(steps.reload) {
                            command_result("systemctl --user enable"@, steps.enable, r)
                        } else {
                            command_result("systemctl --user daemon-reload"@, steps.reload, r)
                        },
                    }
                },
            }
        }
    }

    /// The result is what uninstalling the service gives with the answers: without a unit file there
    /// is nothing to do, and one of someone else is never removed.
    pub open spec fn uninstall_result(
        self,
        steps: UnitRemoval<Runner>,
        r: Result<(), ServiceManagerError>,
    ) -> bool {
        &&& self.unit_compared(steps.compared)
        &&& match steps.compared {
            Err(error) => r == Err::<(), ServiceManagerError>(error),
            Ok(installed) => if !installed {
                r is Ok
            } else if !did_succeed(steps.disable) {
                command_result("systemctl --user disable"@, steps.disable, r)
            } else {
                match steps.removed {
                    Err(detail) => r matches Err(error) && error@ == "cannot remove "@
                        + self.spec_unit_path() + ": "@ + detail@,
                    Ok(_) => command_result("systemctl --user daemon-reload"@, steps.reload, r),
                }
            },
        }
    }

    /// The service whose unit file lies in the user's configuration directory.
    pub fn new(
        executable: String,
        state_directory: String,
        runtime_directory: String,
        config_home: &str,
        uid: u32,
        runner: Runner,
        files: Files,
    ) -> (r: SystemdUserService<Runner, Files>)
        ensures
            r.spec_executable() == executable@,
            r.spec_state_directory() == state_directory@,
            r.spec_runtime_directory() == runtime_directory@,
            r.spec_unit_path() == path_join(
                path_join(config_home@, "systemd/user"@),
                "atx.service"@,
            ),
            r.spec_uid() == uid,
            r.spec_runner() == runner,
            r.spec_files() == files,
    {
        let directory: String = join_path(config_home, "systemd/user");
        let unit_path: String = join_path(directory.as_str(), "atx.service");
        SystemdUserService {
            executable,
            state_directory,
            runtime_directory,
            unit_path,
            uid,
            runner,
            files,
        }
    }

    /// The service with the given unit file.
    pub fn with_runner(
        executable: String,
        state_directory: String,
        runtime_directory: String,
        unit_path: String,
        uid: u32,
        runner: Runner,
        files: Files,
    ) -> (r: SystemdUserService<Runner, Files>)
        ensures
            r.spec_executable() == executable@,
            r.spec_state_directory() == state_directory@,
            r.spec_runtime_directory() == runtime_directory@,
            r.spec_unit_path() == unit_path@,
            r.spec_uid() == uid,
            r.spec_runner() == runner,
            r.spec_files() == files,
    {
        SystemdUserService {
            executable,
            state_directory,
            runtime_directory,
            unit_path,
            uid,
            runner,
            files,
        }
    }

    /// What the unit file is to hold.
    pub fn expected_unit(&self) -> (r: Result<String, ServiceManagerError>)
        ensures
            if self.refused() {
                r matches Err(error) && error@
                    == "service arguments cannot contain control characters"@
            } else {
                r matches Ok(unit) && unit@ == self.unit()
            },
    {
        render_unit(
            self.executable.as_str(),
            self.state_directory.as_str(),
            self.runtime_directory.as_str(),
        )
    }

    /// Whether the unit file is in place; one that was written by someone else is an error.
    pub fn installed(&self) -> (r: Result<bool, ServiceManagerError>)
        ensures
            self.unit_compared(r),
    {
        let found: Result<Option<String>, String> = self.files.read(self.unit_path.as_str());
        assert(file_found(self.spec_files(), self.spec_unit_path(), found));
        match found {
            Ok(Some(contents)) => match self.expected_unit() {
                Ok(unit) => own_file(
                    Ok(Some(contents)),
                    unit.as_str(),
                    self.unit_path.as_str(),
                    "refusing foreign systemd unit ",
                ),
                Err(error) => Err(error),
            },
            other => own_file(
                other,
                "",
                self.unit_path.as_str(),
                "refusing foreign systemd unit ",
            ),
        }
    }

    fn systemctl(&self, args: &[&str]) -> (r: Result<CommandOutput, String>)
        requires
            systemctl_query(borrowed_texts(args@)),
        ensures
            self.asked(borrowed_texts(args@), r),
    {
        self.runner.query("systemctl", &arguments(args))
    }

    /// Whether the user's systemd answers.
    pub fn manager_available(&self) -> (r: bool)
        ensures
            self.availability_asked(r),
    {
        let args: [&str; 2] = ["--user", "show-environment"];
        assert(borrowed_texts(args@) =~= environment_query());
        succeeded(&self.systemctl(args.as_slice()))
    }

    /// Whether the service runs.
    fn service_active(&self) -> (r: bool)
        ensures
            self.activity_asked(r),
    {
        let args: [&str; 4] = ["--user", "is-active", "--quiet", "atx.service"];
        assert(borrowed_texts(args@) =~= activity_query());
        succeeded(&self.systemctl(args.as_slice()))
    }

    /// Whether the user's services run without a login.
    pub fn lingering_enabled(&self) -> (r: bool)
        ensures
            self.lingering_asked(r),
    {
        let mut uid: String = String::new();
        push_decimal(&mut uid, self.uid as u64);
        let args: [&str; 4] = ["show-user", uid.as_str(), "--property=Linger", "--value"];
        assert(uid@ =~= decimal(self.uid as nat));
        assert(borrowed_texts(args@) =~= linger_query(self.uid));
        let output: Result<CommandOutput, String> = self.runner.query(
            "loginctl",
            &arguments(args.as_slice()),
        );
        assert(queried(
            self.spec_runner(),
            "loginctl"@,
            linger_query(self.spec_uid()),
            output,
        ));
        answers_yes(&output)
    }

    /// Asks systemctl to change something.
    fn request(&mut self, args: &[&str]) -> (r: Result<CommandOutput, String>)
        requires
            systemctl_request(borrowed_texts(args@)),
        ensures
            final(self).same_as(*old(self)),
            final(self).spec_files() == old(self).spec_files(),
            exists|at: &mut Runner, program: &str, list: &Vec<String>|
                {
                    &&& #[trigger] call_ensures(Runner::run, (at, program, list), r)
                    &&& program@ == "systemctl"@
                    &&& texts(list@) == borrowed_texts(args@)
                    &&& *at == old(self).spec_runner()
                    &&& *final(at) == final(self).spec_runner()
                },
    {
        self.runner.run("systemctl", &arguments(args))
    }

    fn reload_units(&mut self) -> (r: Result<CommandOutput, String>)
        ensures
            final(self).same_as(*old(self)),
            final(self).spec_files() == old(self).spec_files(),
            exists|at: &mut Runner, program: &str, list: &Vec<String>|
                {
                    &&& #[trigger] call_ensures(Runner::run, (at, program, list), r)
                    &&& program@ == "systemctl"@
                    &&& texts(list@) == reload_request()
                    &&& *at == old(self).spec_runner()
                    &&& *final(at) == final(self).spec_runner()
                },
    {
        let args: [&str; 2] = ["--user", "daemon-reload"];
        assert(borrowed_texts(args@) =~= reload_request());
        self.request(args.as_slice())
    }
}

/// What a command that has to succeed gives.
pub fn succeed(command: &str, output: Result<CommandOutput, String>) -> (r: Result<
    (),
    ServiceManagerError,
>)
    ensures
        command_result(command@, output, r),
{
    match output {
        Ok(done) => require_success(command, &done),
        Err(detail) => Err(ServiceManagerError::new(detail)),
    }
}

impl<Runner: CommandRunner, Files: ServiceFiles> ServiceManager for SystemdUserService<
    Runner,
    Files,
> {
    fn status(&self) -> (r: Result<ServiceStatus, ServiceManagerError>)
        ensures
            self.status_found(r),
    {
        let available: bool = self.manager_available();
        assert(self.availability_asked(available));
        let compared: Result<bool, ServiceManagerError> = self.installed();
        assert(self.unit_compared(compared));
        let installed: bool = match compared {
            Ok(installed) => installed,
            Err(error) => {
                return Err(error);
            },
        };
        let running: bool = available && installed && self.service_active();
        let lingering: bool = available && self.lingering_enabled();
        let status: ServiceStatus = systemd_status(
            available,
            installed,
            running,
            lingering,
            self.unit_path.as_str(),
        );
        assert(self.status_asked(available, installed, running, lingering, status));
        Ok(status)
    }

    fn install(&mut self) -> (r: Result<(), ServiceManagerError>)
        ensures
            final(self).same_as(*old(self)),
            exists|steps: UnitInstall<Runner, Files>|
                {
                    &&& #[trigger] old(self).install_result(steps, r)
                    &&& if old(self).prepares_unit(steps) {
                        exists|at: &mut Files, path: &str|
                            {
                                &&& #[trigger] call_ensures(
                                    Files::prepare,
                                    (at, path),
                                    steps.prepared,
                                )
                                &&& path@ == old(self).spec_unit_path()
                                &&& *at == old(self).spec_files()
                                &&& *final(at) == steps.ready
                            }
                    } else {
                        steps.ready == old(self).spec_files()
                    }
                    &&& if old(self).writes_unit(steps) {
                        exists|at: &mut Files, path: &str, contents: &str|
                            {
                                &&& #[trigger] call_ensures(
                                    Files::install,
                                    (at, path, contents),
                                    steps.written,
                                )
                                &&& path@ == old(self).spec_unit_path()
                                &&& contents@ == old(self).unit()
                                &&& *at == steps.ready
                                &&& *final(at) == final(self).spec_files()
                            }
                    } else if old(self).discards_unit(steps) {
                        exists|at: &mut Files, path: &str|
                            {
                                &&& #[trigger] call_ensures(Files::discard, (at, path), ())
                                &&& path@ == old(self).spec_unit_path()
                                &&& *at == steps.ready
                                &&& *final(at) == final(self).spec_files()
                            }
                    } else {
                        final(self).spec_files() == steps.ready
                    }
                    &&& if old(self).reloads_units(steps) {
                        exists|at: &mut Runner, program: &str, list: &Vec<String>|
                            {
                                &&& #[trigger] call_ensures(Runner::run, (at, program, list), steps.reload)
                                &&& program@ == "systemctl"@
                                &&& texts(list@) == reload_request()
                                &&& *at == old(self).spec_runner()
                                &&& *final(at) == steps.reloaded
                            }
                    } else {
                        steps.reloaded == old(self).spec_runner()
                    }
                    &&& if old(self).enables_unit(steps) {
                        exists|at: &mut Runner, program: &str, list: &Vec<String>|
                            {
                                &&& #[trigger] call_ensures(Runner::run, (at, program, list), steps.enable)
                                &&& program@ == "systemctl"@
                                &&& texts(list@) == enable_request()
                                &&& *at == steps.reloaded
                                &&& *final(at) == final(self).spec_runner()
                            }
                    } else {
                        final(self).spec_runner() == steps.reloaded
                    }
                },
    {
        let ghost start = *self;
        let ghost mut steps: UnitInstall<Runner, Files> = arbitrary();
        let available: bool = self.manager_available();
        proof {
            steps.available = available;
            steps.ready = self.spec_files();
            steps.reloaded = self.spec_runner();
        }
        if !available {
            let r: Result<(), ServiceManagerError> = Err(
                ServiceManagerError::new("the systemd user manager is unavailable".to_owned()),
            );
            assert(start.install_result(steps, r));
            return r;
        }
        let compared: Result<bool, ServiceManagerError> = self.installed();
        proof {
            steps.compared = compared;
        }
        match compared {
            Ok(installed) => {
                if installed {
                    let r: Result<(), ServiceManagerError> = Ok(());
                    assert(start.install_result(steps, r));
                    return r;
                }
            },
            Err(error) => {
                let r: Result<(), ServiceManagerError> = Err(error);
                assert(start.install_result(steps, r));
                return r;
            },
        }
        let prepared: Result<(), String> = self.files.prepare(self.unit_path.as_str());
        proof {
            steps.prepared = prepared;
            steps.ready = self.spec_files();
        }
        match prepared {
            Ok(_) => {},
            Err(detail) => {
                let r: Result<(), ServiceManagerError> = Err(ServiceManagerError::new(detail));
                assert(start.install_result(steps, r));
                return r;
            },
        }
        let unit: String = match self.expected_unit() {
            Ok(unit) => unit,
            Err(error) => {
                self.files.discard(self.unit_path.as_str());
                let r: Result<(), ServiceManagerError> = Err(error);
                assert(start.install_result(steps, r));
                return r;
            },
        };
        assert(service_file(
            unit@,
            self.spec_executable(),
            self.spec_state_directory(),
            self.spec_runtime_directory(),
        ));
        let written: Result<(), String> = self.files.install(
            self.unit_path.as_str(),
            unit.as_str(),
        );
        proof {
            steps.written = written;
        }
        match written {
            Ok(_) => {},
            Err(detail) => {
                let r: Result<(), ServiceManagerError> = Err(ServiceManagerError::new(detail));
                assert(start.install_result(steps, r));
                return r;
            },
        }
        let reload: Result<CommandOutput, String> = self.reload_units();
        proof {
            steps.reload = reload;
            steps.reloaded = self.spec_runner();
        }
        if !succeeded(&reload) {
            let r: Result<(), ServiceManagerError> = succeed(
                "systemctl --user daemon-reload",
                reload,
            );
            assert(start.install_result(steps, r));
            return r;
        }
        let args: [&str; 4] = ["--user", "enable", "--now", "atx.service"];
        assert(borrowed_texts(args@) =~= enable_request());
        let enable: Result<CommandOutput, String> = self.request(args.as_slice());
        proof {
            steps.enable = enable;
        }
        let r: Result<(), ServiceManagerError> = succeed("systemctl --user enable", enable);
        assert(start.install_result(steps, r));
        r
    }

    fn uninstall(&mut self) -> (r: Result<(), ServiceManagerError>)
        ensures
            final(self).same_as(*old(self)),
            exists|steps: UnitRemoval<Runner>|
                {
                    &&& #[trigger] old(self).uninstall_result(steps, r)
                    &&& if steps.disables() {
                        exists|at: &mut Runner, program: &str, list: &Vec<String>|
                            {
                                &&& #[trigger] call_ensures(Runner::run, (at, program, list), steps.disable)
                                &&& program@ == "systemctl"@
                                &&& texts(list@) == disable_request()
                                &&& *at == old(self).spec_runner()
                                &&& *final(at) == steps.disabled
                            }
                    } else {
                        steps.disabled == old(self).spec_runner()
                    }
                    &&& if steps.removes() {
                        exists|at: &mut Files, path: &str|
                            {
                                &&& #[trigger] call_ensures(Files::remove, (at, path), steps.removed)
                                &&& path@ == old(self).spec_unit_path()
                                &&& *at == old(self).spec_files()
                                &&& *final(at) == final(self).spec_files()
                            }
                    } else {
                        final(self).spec_files() == old(self).spec_files()
                    }
                    &&& if steps.reloads() {
                        exists|at: &mut Runner, program: &str, list: &Vec<String>|
                            {
                                &&& #[trigger] call_ensures(Runner::run, (at, program, list), steps.reload)
                                &&& program@ == "systemctl"@
                                &&& texts(list@) == reload_request()
                                &&& *at == steps.disabled
                                &&& *final(at) == final(self).spec_runner()
                            }
                    } else {
                        final(self).spec_runner() == steps.disabled
                    }
                },
    {
        let ghost start = *self;
        let ghost mut steps: UnitRemoval<Runner> = arbitrary();
        let compared: Result<bool, ServiceManagerError> = self.installed();
        proof {
            steps.compared = compared;
            steps.disabled = self.spec_runner();
        }
        match compared {
            Ok(installed) => {
                if !installed {
                    let r: Result<(), ServiceManagerError> = Ok(());
                    assert(start.uninstall_result(steps, r));
                    return r;
                }
            },
            Err(error) => {
                let r: Result<(), ServiceManagerError> = Err(error);
                assert(start.uninstall_result(steps, r));
                return r;
            },
        }
        let args: [&str; 4] = ["--user", "disable", "--now", "atx.service"];
        assert(borrowed_texts(args@) =~= disable_request());
        let disable: Result<CommandOutput, String> = self.request(args.as_slice());
        proof {
            steps.disable = disable;
            steps.disabled = self.spec_runner();
        }
        if !succeeded(&disable) {
            let r: Result<(), ServiceManagerError> = succeed("systemctl --user disable", disable);
            assert(start.uninstall_result(steps, r));
            return r;
        }
        let removed: Result<(), String> = self.files.remove(self.unit_path.as_str());
        proof {
            steps.removed = removed;
        }
        match removed {
            Ok(_) => {},
            Err(detail) => {
                let r: Result<(), ServiceManagerError> = Err(
                    ServiceManagerError::new(
                        removal_failure(self.unit_path.as_str(), detail.as_str()),
                    ),
                );
                assert(start.uninstall_result(steps, r));
                return r;
            },
        }
        let reload: Result<CommandOutput, String> = self.reload_units();
        proof {
            steps.reload = reload;
        }
        let r: Result<(), ServiceManagerError> = succeed("systemctl --user daemon-reload", reload);
        assert(start.uninstall_result(steps, r));
        r
    }
}

/// The message for a file that could not be removed.
pub fn removal_failure(path: &str, detail: &str) -> (r: String)
    ensures
        r@ == "cannot remove "@ + path@ + ": "@ + detail@,
{
    let mut out: String = "cannot remove ".to_owned();
    push_text(&mut out, path);
    push_text(&mut out, ": ");
    push_text(&mut out, detail);
    out
}

} // verus!
