//! Per-user launchd service adapter.
use vstd::prelude::*;

use super::machine::{
    arguments, bootout_request, bootstrap_request, borrowed_texts, command_error, command_failure,
    command_result, compared_file, did_succeed, file_found, file_seen, kickstart_request,
    launchctl_request, launchd_domain, launchd_target, own_file, print_query, queried,
    service_file, CommandOutput, CommandRunner, ServiceFiles,
};
use super::systemd::{removal_failure, succeed, succeeded, supervisor_arguments};
use crate::application::service::{
    ServiceAvailability, ServiceManager, ServiceManagerError, ServiceStatus,
};
use crate::path_text::{join_path, path_join};
use crate::text::{chars_of, copy_text, join, joined, push_decimal, push_text, texts};

verus! {

broadcast use vstd::seq::group_seq_axioms;

// ---------------------------------------------------------------------------------------------
// The agent file
// ---------------------------------------------------------------------------------------------
/// A character as it is written in XML text.
pub open spec fn xml_spelling(c: char) -> Seq<char> {
    if c == '&' {
        "&amp;"@
    } else if c == '<' {
        "&lt;"@
    } else if c == '>' {
        "&gt;"@
    } else if c == '"' {
        "&quot;"@
    } else if c == '\'' {
        "&apos;"@
    } else {
        seq![c]
    }
}

/// A text as it is written in XML text.
pub open spec fn xml_escaped(text: Seq<char>) -> Seq<char>
    decreases text.len(),
{
    if text.len() == 0 {
        Seq::empty()
    } else {
        xml_escaped(text.drop_last()) + xml_spelling(text.last())
    }
}

/// An argument of the agent file.
pub open spec fn plist_string(text: Seq<char>) -> Seq<char> {
    "      <string>"@ + xml_escaped(text) + "</string>"@
}

/// The agent file: it runs the supervisor and keeps it alive.
pub open spec fn plist_file(
    executable: Seq<char>,
    state_directory: Seq<char>,
    runtime_directory: Seq<char>,
) -> Seq<char> {
    let log = xml_escaped(path_join(state_directory, "supervisor.log"@));
    "<?xml version=\"1.0\" encoding=\"UTF-8\"?>\n<!DOCTYPE plist PUBLIC \"-//Apple//DTD PLIST 1.0//EN\" \"http://www.apple.com/DTDs/PropertyList-1.0.dtd\">\n<plist version=\"1.0\">\n  <dict>\n    <key>Label</key>\n    <string>io.github.jsugg.atx</string>\n    <key>ProgramArguments</key>\n    <array>\n"@
        + joined(
        supervisor_arguments(executable, state_directory, runtime_directory).map_values(
            |argument: Seq<char>| plist_string(argument),
        ),
        "\n"@,
    )
        + "\n    </array>\n    <key>RunAtLoad</key>\n    <true/>\n    <key>KeepAlive</key>\n    <true/>\n    <key>ProcessType</key>\n    <string>Background</string>\n    <key>StandardOutPath</key>\n    <string>"@
        + log + "</string>\n    <key>StandardErrorPath</key>\n    <string>"@ + log
        + "</string>\n  </dict>\n</plist>\n"@
}

/// A text as it is written in XML text.
pub fn xml_escape(value: &str) -> (r: String)
    ensures
        r@ == xml_escaped(value@),
{
    let chars: Vec<char> = chars_of(value);
    let mut out: String = String::new();
    let mut index: usize = 0;
    assert(value@.take(0) =~= Seq::<char>::empty());
    while index < chars.len()
        invariant
            index <= chars@.len(),
            chars@ == value@,
            out@ == xml_escaped(value@.take(index as int)),
        decreases chars@.len() - index,
    {
        let c: char = chars[index];
        let ghost before = out@;
        proof {
            let next = value@.take(index + 1);
            assert(next.drop_last() =~= value@.take(index as int));
            assert(next.last() == c);
        }
        if c == '&' {
            push_text(&mut out, "&amp;");
        } else if c == '<' {
            push_text(&mut out, "&lt;");
        } else if c == '>' {
            push_text(&mut out, "&gt;");
        } else if c == '"' {
            push_text(&mut out, "&quot;");
        } else if c == '\'' {
            push_text(&mut out, "&apos;");
        } else {
            out.push(c);
        }
        assert(out@ =~= before + xml_spelling(c));
        index += 1;
    }
    assert(value@.take(value@.len() as int) =~= value@);
    out
}

/// Renders the agent file.
pub fn render_plist(executable: &str, state_directory: &str, runtime_directory: &str) -> (r: String)
    ensures
        r@ == plist_file(executable@, state_directory@, runtime_directory@),
{
    let parts: [&str; 7] = [
        executable,
        "__supervisor",
        "--state-dir",
        state_directory,
        "--runtime-dir",
        runtime_directory,
        "--service-managed",
    ];
    let ghost all = supervisor_arguments(executable@, state_directory@, runtime_directory@);
    let ghost strings = all.map_values(|argument: Seq<char>| plist_string(argument));
    let mut lines: Vec<String> = Vec::new();
    let mut index: usize = 0;
    proof {
        assert(forall|i: int| 0 <= i < 7 ==> (#[trigger] parts@[i])@ == all[i]);
        assert(texts(lines@) =~= strings.take(0));
    }
    while index < 7
        invariant
            index <= 7,
            parts@.len() == 7,
            all == supervisor_arguments(executable@, state_directory@, runtime_directory@),
            forall|i: int| 0 <= i < 7 ==> (#[trigger] parts@[i])@ == all[i],
            strings == all.map_values(|argument: Seq<char>| plist_string(argument)),
            texts(lines@) == strings.take(index as int),
        decreases 7 - index,
    {
        let mut line: String = "      <string>".to_owned();
        push_text(&mut line, xml_escape(parts[index]).as_str());
        push_text(&mut line, "</string>");
        proof {
            assert(parts@[index as int]@ == all[index as int]);
            assert(texts(lines@.push(line)) =~= texts(lines@).push(line@));
            assert(strings.take(index + 1) =~= strings.take(index as int).push(
                strings[index as int],
            ));
        }
        lines.push(line);
        index += 1;
    }
    assert(strings.take(7) =~= strings);
    let log: String = xml_escape(join_path(state_directory, "supervisor.log").as_str());
    let mut out: String =
        "<?xml version=\"1.0\" encoding=\"UTF-8\"?>\n<!DOCTYPE plist PUBLIC \"-//Apple//DTD PLIST 1.0//EN\" \"http://www.apple.com/DTDs/PropertyList-1.0.dtd\">\n<plist version=\"1.0\">\n  <dict>\n    <key>Label</key>\n    <string>io.github.jsugg.atx</string>\n    <key>ProgramArguments</key>\n    <array>\n".to_owned();
    push_text(&mut out, join(&lines, "\n").as_str());
    push_text(
        &mut out,
        "\n    </array>\n    <key>RunAtLoad</key>\n    <true/>\n    <key>KeepAlive</key>\n    <true/>\n    <key>ProcessType</key>\n    <string>Background</string>\n    <key>StandardOutPath</key>\n    <string>",
    );
    push_text(&mut out, log.as_str());
    push_text(&mut out, "</string>\n    <key>StandardErrorPath</key>\n    <string>");
    push_text(&mut out, log.as_str());
    push_text(&mut out, "</string>\n  </dict>\n</plist>\n");
    out
}

// ---------------------------------------------------------------------------------------------
// The service
// ---------------------------------------------------------------------------------------------
/// The supervisor as an agent of the user's launchd.
pub struct LaunchdService<Runner, Files> {
    executable: String,
    state_directory: String,
    runtime_directory: String,
    agent_path: String,
    uid: u32,
    runner: Runner,
    files: Files,
}

/// The status of the agent in words.
pub open spec fn agent_detail(available: bool, installed: bool, running: bool) -> Seq<char> {
    if !available {
        "launchctl is unavailable"@
    } else if running {
        "launch agent is loaded and running"@
    } else if installed {
        "launch agent is installed but not running"@
    } else {
        "launch agent is not installed"@
    }
}

/// The status is that of an agent; it runs only where it is installed and launchd is there.
pub open spec fn reports_agent(status: ServiceStatus, agent_path: Seq<char>) -> bool {
    let available = status.availability == ServiceAvailability::Available;
    &&& status.manager@ == "launchd"@
    &&& status.running ==> available && status.installed
    &&& texts(status.files@) == seq![agent_path]
    &&& status.guarantee@ == "restarts after crashes and when this user's launchd domain starts"@
    &&& status.detail@ == agent_detail(available, status.installed, status.running)
}

/// The status made of what was found out.
pub fn launchd_status(available: bool, installed: bool, running: bool, agent_path: &str) -> (r:
    ServiceStatus)
    ensures
        r.manager@ == "launchd"@,
        (r.availability == ServiceAvailability::Available) == available,
        r.installed == installed,
        r.running == running,
        texts(r.files@) == seq![agent_path@],
        r.guarantee@ == "restarts after crashes and when this user's launchd domain starts"@,
        r.detail@ == agent_detail(available, installed, running),
{
    let detail: String = if !available {
        "launchctl is unavailable".to_owned()
    } else if running {
        "launch agent is loaded and running".to_owned()
    } else if installed {
        "launch agent is installed but not running".to_owned()
    } else {
        "launch agent is not installed".to_owned()
    };
    let mut files: Vec<String> = Vec::new();
    files.push(copy_text(agent_path));
    assert(texts(files@) =~= seq![agent_path@]);
    ServiceStatus {
        manager: "launchd".to_owned(),
        availability: if available {
            ServiceAvailability::Available
        } else {
            ServiceAvailability::Unavailable
        },
        installed,
        running,
        files,
        guarantee: "restarts after crashes and when this user's launchd domain starts".to_owned(),
        detail,
    }
}

/// What came back while the agent is installed, the files once its file was prepared, and the runner
/// once the agent was loaded.
pub struct AgentInstall<Runner, Files> {
    pub compared: Result<bool, ServiceManagerError>,
    pub prepared: Result<(), String>,
    pub ready: Files,
    pub written: Result<(), String>,
    pub load: Result<CommandOutput, String>,
    pub loaded: Runner,
    pub kickstart: Result<CommandOutput, String>,
}

impl<Runner: CommandRunner, Files: ServiceFiles> AgentInstall<Runner, Files> {
    /// The agent file is prepared: none is in place.
    pub open spec fn prepares(self) -> bool {
        self.compared == Ok::<bool, ServiceManagerError>(false)
    }

    /// The agent file is written: it was prepared.
    pub open spec fn writes(self) -> bool {
        self.prepares() && self.prepared is Ok
    }

    /// The agent is loaded: its file was written.
    pub open spec fn loads(self) -> bool {
        self.writes() && self.written is Ok
    }

    /// The agent is started: it was loaded.
    pub open spec fn starts(self) -> bool {
        self.loads() && did_succeed(self.load)
    }
}

/// What came back while the agent is uninstalled, and the agent once it was asked to be unloaded.
pub struct AgentRemoval<Runner, Files> {
    pub compared: Result<bool, ServiceManagerError>,
    pub unload: Result<CommandOutput, String>,
    pub unloaded: LaunchdService<Runner, Files>,
    pub found: Result<ServiceStatus, ServiceManagerError>,
    pub removed: Result<(), String>,
}

impl<Runner: CommandRunner, Files: ServiceFiles> AgentRemoval<Runner, Files> {
    /// The agent is unloaded: its file is in place.
    pub open spec fn unloads(self) -> bool {
        self.compared == Ok::<bool, ServiceManagerError>(true)
    }

    /// The agent file is removed: the agent was unloaded, or does not run.
    pub open spec fn removes(self) -> bool {
        self.unloads() && (self.unload matches Ok(done) && (done.success || (self.found matches Ok(
            status,
        ) && !status.running)))
    }
}

impl<Runner: CommandRunner, Files: ServiceFiles> LaunchdService<Runner, Files> {
    pub closed spec fn spec_executable(self) -> Seq<char> {
        self.executable@
    }

    pub closed spec fn spec_state_directory(self) -> Seq<char> {
        self.state_directory@
    }

    pub closed spec fn spec_runtime_directory(self) -> Seq<char> {
        self.runtime_directory@
    }

    pub closed spec fn spec_agent_path(self) -> Seq<char> {
        self.agent_path@
    }

    pub closed spec fn spec_uid(self) -> u32 {
        self.uid
    }

    pub closed spec fn spec_runner(self) -> Runner {
        self.runner
    }

    pub closed spec fn spec_files(self) -> Files {
        self.files
    }

    /// What the agent file is to hold.
    pub open spec fn plist(self) -> Seq<char> {
        plist_file(
            self.spec_executable(),
            self.spec_state_directory(),
            self.spec_runtime_directory(),
        )
    }

    /// The agent differs at most in what it uses of the machine.
    pub open spec fn same_as(self, other: LaunchdService<Runner, Files>) -> bool {
        &&& self.spec_executable() == other.spec_executable()
        &&& self.spec_state_directory() == other.spec_state_directory()
        &&& self.spec_runtime_directory() == other.spec_runtime_directory()
        &&& self.spec_agent_path() == other.spec_agent_path()
        &&& self.spec_uid() == other.spec_uid()
    }

    /// launchctl was asked, with this answer.
    pub open spec fn asked(
        self,
        args: Seq<Seq<char>>,
        output: Result<CommandOutput, String>,
    ) -> bool {
        queried(self.spec_runner(), "/bin/launchctl"@, args, output)
    }

    /// The result is what comparing the agent file gives.
    pub open spec fn agent_compared(self, r: Result<bool, ServiceManagerError>) -> bool {
        exists|found: Result<Option<String>, String>|
            {
                &&& #[trigger] file_found(self.spec_files(), self.spec_agent_path(), found)
                &&& compared_file(
                    found,
                    self.plist(),
                    self.spec_agent_path(),
                    "refusing foreign launchd file "@,
                    r,
                )
            }
    }

    /// launchd was asked whether the agent runs.
    pub open spec fn activity_asked(self, running: bool) -> bool {
        exists|output: Result<CommandOutput, String>|
            #[trigger] self.asked(print_query(self.spec_uid()), output) && running == did_succeed(
                output,
            )
    }

    /// The status is made of what was found out: an agent that is not there is not asked for.
    pub open spec fn status_asked(
        self,
        available: bool,
        installed: bool,
        status: ServiceStatus,
    ) -> bool {
        &&& if available && installed {
            self.activity_asked(status.running)
        } else {
            !status.running
        }
        &&& (status.availability == ServiceAvailability::Available) == available
        &&& status.installed == installed
        &&& reports_agent(status, self.spec_agent_path())
    }

    /// The result is the status of the agent.
    pub open spec fn status_found(self, r: Result<ServiceStatus, ServiceManagerError>) -> bool {
        exists|available: bool, compared: Result<bool, ServiceManagerError>|
            {
                &&& #[trigger] file_seen(self.spec_files(), "/bin/launchctl"@, available)
                &&& #[trigger] self.agent_compared(compared)
                &&& match compared {
                    Err(error) => r == Err::<ServiceStatus, ServiceManagerError>(error),
                    Ok(installed) => r matches Ok(status) && self.status_asked(
                        available,
                        installed,
                        status,
                    ),
                }
            }
    }

    /// The result is what installing the agent gives with the answers: an agent file in place is
    /// left alone, and one of someone else is never replaced.
    pub open spec fn install_result(
        self,
        steps: AgentInstall<Runner, Files>,
        r: Result<(), ServiceManagerError>,
    ) -> bool {
        &&& self.agent_compared(steps.compared)
        &&& match steps.compared {
            Err(error) => r == Err::<(), ServiceManagerError>(error),
            Ok(installed) => if installed {
                r is Ok
            } else if steps.prepared is Err {
                r matches Err(error) && error@ == steps.prepared->Err_0@
            } else {
                match steps.written {
                    Err(detail) => r matches Err(error) && error@ == detail@,
                    Ok(_) => if did_succeed(steps.load) {
                        command_result("launchctl kickstart"@, steps.kickstart, r)
                    } else {
                        command_result("launchctl bootstrap"@, steps.load, r)
                    },
                }
            },
        }
    }

    /// The result is what uninstalling the agent gives with the answers: without an agent file there
    /// is nothing to do, and one of someone else is never removed. Where launchd refuses to unload
    /// the agent, it is looked at again, and removed only if it does not run.
    pub open spec fn uninstall_result(
        self,
        steps: AgentRemoval<Runner, Files>,
        r: Result<(), ServiceManagerError>,
    ) -> bool {
        &&& self.agent_compared(steps.compared)
        &&& match steps.compared {
            Err(error) => r == Err::<(), ServiceManagerError>(error),
            Ok(installed) => if !installed {
                r is Ok
            } else {
                match steps.unload {
                    Err(detail) => r matches Err(error) && error@ == detail@,
                    Ok(done) => {
                        &&& !done.success ==> steps.unloaded.status_found(steps.found)
                        &&& if !done.success && steps.found is Err {
                            r == Err::<(), ServiceManagerError>(steps.found->Err_0)
                        } else if !done.success && steps.found->Ok_0.running {
                            r matches Err(error) && error@ == command_failure(
                                "launchctl bootout"@,
                                done.stderr@,
                            )
                        } else {
                            match steps.removed {
                                Ok(_) => r is Ok,
                                Err(detail) => r matches Err(error) && error@ == "cannot remove "@
                                    + self.spec_agent_path() + ": "@ + detail@,
                            }
                        }
                    },
                }
            },
        }
    }

    /// The agent whose file lies in the user's library.
    pub fn new(
        executable: String,
        state_directory: String,
        runtime_directory: String,
        home: &str,
        uid: u32,
        runner: Runner,
        files: Files,
    ) -> (r: LaunchdService<Runner, Files>)
        ensures
            r.spec_executable() == executable@,
            r.spec_state_directory() == state_directory@,
            r.spec_runtime_directory() == runtime_directory@,
            r.spec_agent_path() == path_join(
                path_join(path_join(home@, "Library"@), "LaunchAgents"@),
                "io.github.jsugg.atx.plist"@,
            ),
            r.spec_uid() == uid,
            r.spec_runner() == runner,
            r.spec_files() == files,
    {
        let library: String = join_path(home, "Library");
        let agents: String = join_path(library.as_str(), "LaunchAgents");
        let agent_path: String = join_path(agents.as_str(), "io.github.jsugg.atx.plist");
        LaunchdService {
            executable,
            state_directory,
            runtime_directory,
            agent_path,
            uid,
            runner,
            files,
        }
    }

    /// The agent with the given file.
    pub fn with_runner(
        executable: String,
        state_directory: String,
        runtime_directory: String,
        agent_path: String,
        uid: u32,
        runner: Runner,
        files: Files,
    ) -> (r: LaunchdService<Runner, Files>)
        ensures
            r.spec_executable() == executable@,
            r.spec_state_directory() == state_directory@,
            r.spec_runtime_directory() == runtime_directory@,
            r.spec_agent_path() == agent_path@,
            r.spec_uid() == uid,
            r.spec_runner() == runner,
            r.spec_files() == files,
    {
        LaunchdService {
            executable,
            state_directory,
            runtime_directory,
            agent_path,
            uid,
            runner,
            files,
        }
    }

    /// What the agent file is to hold.
    pub fn expected_plist(&self) -> (r: String)
        ensures
            r@ == self.plist(),
    {
        render_plist(
            self.executable.as_str(),
            self.state_directory.as_str(),
            self.runtime_directory.as_str(),
        )
    }

    /// The launchd domain of the user.
    pub fn domain(&self) -> (r: String)
        ensures
            r@ == launchd_domain(self.spec_uid()),
    {
        let mut out: String = "gui/".to_owned();
        push_decimal(&mut out, self.uid as u64);
        out
    }

    /// The agent in the launchd domain of the user.
    pub fn service_target(&self) -> (r: String)
        ensures
            r@ == launchd_target(self.spec_uid()),
    {
        let mut out: String = self.domain();
        push_text(&mut out, "/");
        push_text(&mut out, "io.github.jsugg.atx");
        out
    }

    /// Whether the agent file is in place; one that was written by someone else is an error.
    pub fn installed(&self) -> (r: Result<bool, ServiceManagerError>)
        ensures
            self.agent_compared(r),
    {
        let found: Result<Option<String>, String> = self.files.read(self.agent_path.as_str());
        assert(file_found(self.spec_files(), self.spec_agent_path(), found));
        let expected: String = self.expected_plist();
        own_file(
            found,
            expected.as_str(),
            self.agent_path.as_str(),
            "refusing foreign launchd file ",
        )
    }

    /// Asks launchctl to change something.
    fn request(&mut self, args: &[&str]) -> (r: Result<CommandOutput, String>)
        requires
            launchctl_request(
                borrowed_texts(args@),
                old(self).spec_uid(),
                old(self).spec_agent_path(),
            ),
        ensures
            final(self).same_as(*old(self)),
            final(self).spec_files() == old(self).spec_files(),
            exists|at: &mut Runner, program: &str, list: &Vec<String>|
                {
                    &&& #[trigger] call_ensures(Runner::run, (at, program, list), r)
                    &&& program@ == "/bin/launchctl"@
                    &&& texts(list@) == borrowed_texts(args@)
                    &&& *at == old(self).spec_runner()
                    &&& *final(at) == final(self).spec_runner()
                },
    {
        self.runner.run("/bin/launchctl", &arguments(args))
    }

    /// Whether the agent runs.
    fn agent_active(&self) -> (r: bool)
        ensures
            self.activity_asked(r),
    {
        let target: String = self.service_target();
        let args: [&str; 2] = ["print", target.as_str()];
        assert(borrowed_texts(args@) =~= print_query(self.spec_uid()));
        let output: Result<CommandOutput, String> = self.runner.query(
            "/bin/launchctl",
            &arguments(args.as_slice()),
        );
        assert(self.asked(print_query(self.spec_uid()), output));
        succeeded(&output)
    }
}

impl<Runner: CommandRunner, Files: ServiceFiles> ServiceManager for LaunchdService<Runner, Files> {
    fn status(&self) -> (r: Result<ServiceStatus, ServiceManagerError>)
        ensures
            self.status_found(r),
    {
        let available: bool = self.files.is_file("/bin/launchctl");
        assert(file_seen(self.spec_files(), "/bin/launchctl"@, available));
        let compared: Result<bool, ServiceManagerError> = self.installed();
        assert(self.agent_compared(compared));
        let installed: bool = match compared {
            Ok(installed) => installed,
            Err(error) => {
                return Err(error);
            },
        };
        let running: bool = available && installed && self.agent_active();
        Ok(launchd_status(available, installed, running, self.agent_path.as_str()))
    }

    fn install(&mut self) -> (r: Result<(), ServiceManagerError>)
        ensures
            final(self).same_as(*old(self)),
            exists|steps: AgentInstall<Runner, Files>|
                {
                    &&& #[trigger] old(self).install_result(steps, r)
                    &&& if steps.prepares() {
                        exists|at: &mut Files, path: &str|
                            {
                                &&& #[trigger] call_ensures(
                                    Files::prepare,
                                    (at, path),
                                    steps.prepared,
                                )
                                &&& path@ == old(self).spec_agent_path()
                                &&& *at == old(self).spec_files()
                                &&& *final(at) == steps.ready
                            }
                    } else {
                        steps.ready == old(self).spec_files()
                    }
                    &&& if steps.writes() {
                        exists|at: &mut Files, path: &str, contents: &str|
                            {
                                &&& #[trigger] call_ensures(
                                    Files::install,
                                    (at, path, contents),
                                    steps.written,
                                )
                                &&& path@ == old(self).spec_agent_path()
                                &&& contents@ == old(self).plist()
                                &&& *at == steps.ready
                                &&& *final(at) == final(self).spec_files()
                            }
                    } else {
                        final(self).spec_files() == steps.ready
                    }
                    &&& if steps.loads() {
                        exists|at: &mut Runner, program: &str, list: &Vec<String>|
                            {
                                &&& #[trigger] call_ensures(Runner::run, (at, program, list), steps.load)
                                &&& program@ == "/bin/launchctl"@
                                &&& texts(list@) == bootstrap_request(
                                old(self).spec_uid(),
                                old(self).spec_agent_path(),
                            )
                                &&& *at == old(self).spec_runner()
                                &&& *final(at) == steps.loaded
                            }
                    } else {
                        steps.loaded == old(self).spec_runner()
                    }
                    &&& if steps.starts() {
                        exists|at: &mut Runner, program: &str, list: &Vec<String>|
                            {
                                &&& #[trigger] call_ensures(Runner::run, (at, program, list), steps.kickstart)
                                &&& program@ == "/bin/launchctl"@
                                &&& texts(list@) == kickstart_request(old(self).spec_uid())
                                &&& *at == steps.loaded
                                &&& *final(at) == final(self).spec_runner()
                            }
                    } else {
                        final(self).spec_runner() == steps.loaded
                    }
                },
    {
        let ghost start = *self;
        let ghost mut steps: AgentInstall<Runner, Files> = arbitrary();
        let compared: Result<bool, ServiceManagerError> = self.installed();
        proof {
            steps.compared = compared;
            steps.ready = self.spec_files();
            steps.loaded = self.spec_runner();
        }
        match compared {
            Ok(installed) => {
                if installed {
                    let r: Result<(), ServiceManagerError> = Ok(());
                    assert(start.install_result(steps, r));
                    return r;
                }
            },
            Err(error) => {
                let r: Result<(), ServiceManagerError> = Err(error);
                assert(start.install_result(steps, r));
                return r;
            },
        }
        let prepared: Result<(), String> = self.files.prepare(self.agent_path.as_str());
        proof {
            steps.prepared = prepared;
            steps.ready = self.spec_files();
        }
        match prepared {
            Ok(_) => {},
            Err(detail) => {
                let r: Result<(), ServiceManagerError> = Err(ServiceManagerError::new(detail));
                assert(start.install_result(steps, r));
                return r;
            },
        }
        let plist: String = self.expected_plist();
        assert(service_file(
            plist@,
            self.spec_executable(),
            self.spec_state_directory(),
            self.spec_runtime_directory(),
        ));
        let written: Result<(), String> = self.files.install(
            self.agent_path.as_str(),
            plist.as_str(),
        );
        proof {
            steps.written = written;
        }
        match written {
            Ok(_) => {},
            Err(detail) => {
                let r: Result<(), ServiceManagerError> = Err(ServiceManagerError::new(detail));
                assert(start.install_result(steps, r));
                return r;
            },
        }
        let domain: String = self.domain();
        let agent: String = copy_text(self.agent_path.as_str());
        let bootstrap: [&str; 3] = ["bootstrap", domain.as_str(), agent.as_str()];
        assert(borrowed_texts(bootstrap@) =~= bootstrap_request(
            self.spec_uid(),
            self.spec_agent_path(),
        ));
        let load: Result<CommandOutput, String> = self.request(bootstrap.as_slice());
        proof {
            steps.load = load;
            steps.loaded = self.spec_runner();
        }
        if !succeeded(&load) {
            let r: Result<(), ServiceManagerError> = succeed("launchctl bootstrap", load);
            assert(start.install_result(steps, r));
            return r;
        }
        let target: String = self.service_target();
        let kickstart: [&str; 3] = ["kickstart", "-k", target.as_str()];
        assert(borrowed_texts(kickstart@) =~= kickstart_request(self.spec_uid()));
        let started: Result<CommandOutput, String> = self.request(kickstart.as_slice());
        proof {
            steps.kickstart = started;
        }
        let r: Result<(), ServiceManagerError> = succeed("launchctl kickstart", started);
        assert(start.install_result(steps, r));
        r
    }

    fn uninstall(&mut self) -> (r: Result<(), ServiceManagerError>)
        ensures
            final(self).same_as(*old(self)),
            exists|steps: AgentRemoval<Runner, Files>|
                {
                    &&& #[trigger] old(self).uninstall_result(steps, r)
                    &&& steps.unloaded.same_as(*old(self))
                    &&& steps.unloaded.spec_files() == old(self).spec_files()
                    &&& final(self).spec_runner() == steps.unloaded.spec_runner()
                    &&& if steps.unloads() {
                        exists|at: &mut Runner, program: &str, list: &Vec<String>|
                            {
                                &&& #[trigger] call_ensures(Runner::run, (at, program, list), steps.unload)
                                &&& program@ == "/bin/launchctl"@
                                &&& texts(list@) == bootout_request(old(self).spec_uid())
                                &&& *at == old(self).spec_runner()
                                &&& *final(at) == steps.unloaded.spec_runner()
                            }
                    } else {
                        steps.unloaded.spec_runner() == old(self).spec_runner()
                    }
                    &&& if steps.removes() {
                        exists|at: &mut Files, path: &str|
                            {
                                &&& #[trigger] call_ensures(Files::remove, (at, path), steps.removed)
                                &&& path@ == old(self).spec_agent_path()
                                &&& *at == old(self).spec_files()
                                &&& *final(at) == final(self).spec_files()
                            }
                    } else {
                        final(self).spec_files() == old(self).spec_files()
                    }
                },
    {
        let ghost start = *self;
        let ghost mut steps: AgentRemoval<Runner, Files> = arbitrary();
        let compared: Result<bool, ServiceManagerError> = self.installed();
        proof {
            steps.compared = compared;
            steps.unloaded = *self;
        }
        match compared {
            Ok(installed) => {
                if !installed {
                    let r: Result<(), ServiceManagerError> = Ok(());
                    assert(start.uninstall_result(steps, r));
                    return r;
                }
            },
            Err(error) => {
                let r: Result<(), ServiceManagerError> = Err(error);
                assert(start.uninstall_result(steps, r));
                return r;
            },
        }
        let target: String = self.service_target();
        let bootout: [&str; 2] = ["bootout", target.as_str()];
        assert(borrowed_texts(bootout@) =~= bootout_request(self.spec_uid()));
        let unload: Result<CommandOutput, String> = self.request(bootout.as_slice());
        proof {
            steps.unload = unload;
            steps.unloaded = *self;
        }
        let done: CommandOutput = match unload {
            Ok(done) => done,
            Err(detail) => {
                let r: Result<(), ServiceManagerError> = Err(ServiceManagerError::new(detail));
                assert(start.uninstall_result(steps, r));
                return r;
            },
        };
        if !done.success {
            let found: Result<ServiceStatus, ServiceManagerError> = self.status();
            proof {
                steps.found = found;
            }
            match found {
                Ok(status) => {
                    if status.running {
                        let r: Result<(), ServiceManagerError> = Err(
                            command_error("launchctl bootout", &done),
                        );
                        assert(start.uninstall_result(steps, r));
                        return r;
                    }
                },
                Err(error) => {
                    let r: Result<(), ServiceManagerError> = Err(error);
                    assert(start.uninstall_result(steps, r));
                    return r;
                },
            }
        }
        let removed: Result<(), String> = self.files.remove(self.agent_path.as_str());
        proof {
            steps.removed = removed;
        }
        let r: Result<(), ServiceManagerError> = match removed {
            Ok(_) => Ok(()),
            Err(detail) => Err(
                ServiceManagerError::new(
                    removal_failure(self.agent_path.as_str(), detail.as_str()),
                ),
            ),
        };
        assert(start.uninstall_result(steps, r));
        r
    }
}

} // verus!
