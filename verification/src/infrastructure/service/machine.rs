//! What the service adapters need of the machine.
use vstd::prelude::*;

use super::macos::plist_file;
use super::systemd::{unit_file, unit_refused};
use crate::application::service::ServiceManagerError;
use crate::text::{copy_text, decimal, push_text, text_eq, text_of, texts, trim, trimmed};

verus! {

/// How a command ended, with what it printed.
#[derive(Debug, PartialEq, Eq)]
pub struct CommandOutput {
    pub success: bool,
    pub stdout: Vec<u8>,
    pub stderr: String,
}

/// Asks the user's systemd for its environment.
pub open spec fn environment_query() -> Seq<Seq<char>> {
    seq!["--user"@, "show-environment"@]
}

/// Asks the user's systemd whether the service runs.
pub open spec fn activity_query() -> Seq<Seq<char>> {
    seq!["--user"@, "is-active"@, "--quiet"@, "atx.service"@]
}

/// Makes the user's systemd read its unit files again.
pub open spec fn reload_request() -> Seq<Seq<char>> {
    seq!["--user"@, "daemon-reload"@]
}

/// Enables and starts the service.
pub open spec fn enable_request() -> Seq<Seq<char>> {
    seq!["--user"@, "enable"@, "--now"@, "atx.service"@]
}

/// Disables and stops the service.
pub open spec fn disable_request() -> Seq<Seq<char>> {
    seq!["--user"@, "disable"@, "--now"@, "atx.service"@]
}

/// What systemctl is asked without changing anything.
pub open spec fn systemctl_query(args: Seq<Seq<char>>) -> bool {
    args == environment_query() || args == activity_query()
}

/// What systemctl is asked to change.
pub open spec fn systemctl_request(args: Seq<Seq<char>>) -> bool {
    args == reload_request() || args == enable_request() || args == disable_request()
}

/// What loginctl is asked: whether the user's services run without a login.
pub open spec fn linger_query(uid: u32) -> Seq<Seq<char>> {
    seq!["show-user"@, decimal(uid as nat), "--property=Linger"@, "--value"@]
}

/// The launchd domain of a user.
pub open spec fn launchd_domain(uid: u32) -> Seq<char> {
    "gui/"@ + decimal(uid as nat)
}

/// The agent in the launchd domain of a user.
pub open spec fn launchd_target(uid: u32) -> Seq<char> {
    launchd_domain(uid) + "/"@ + "io.github.jsugg.atx"@
}

/// Asks launchd for the agent.
pub open spec fn print_query(uid: u32) -> Seq<Seq<char>> {
    seq!["print"@, launchd_target(uid)]
}

/// Loads the agent with a file.
pub open spec fn bootstrap_request(uid: u32, agent: Seq<char>) -> Seq<Seq<char>> {
    seq!["bootstrap"@, launchd_domain(uid), agent]
}

/// Starts the agent.
pub open spec fn kickstart_request(uid: u32) -> Seq<Seq<char>> {
    seq!["kickstart"@, "-k"@, launchd_target(uid)]
}

/// Unloads the agent.
pub open spec fn bootout_request(uid: u32) -> Seq<Seq<char>> {
    seq!["bootout"@, launchd_target(uid)]
}

/// What launchctl is asked to change about the agent with a file.
pub open spec fn launchctl_request(args: Seq<Seq<char>>, uid: u32, agent: Seq<char>) -> bool {
    ||| args == bootstrap_request(uid, agent)
    ||| args == kickstart_request(uid)
    ||| args == bootout_request(uid)
}

/// The command is one of those by which a user's service is looked at.
pub open spec fn service_query(program: Seq<char>, args: Seq<Seq<char>>) -> bool {
    ||| program == "systemctl"@ && systemctl_query(args)
    ||| program == "loginctl"@ && exists|uid: u32| args == linger_query(uid)
    ||| program == "/bin/launchctl"@ && exists|uid: u32| args == print_query(uid)
}

/// The command is one of those by which a user's service is started and stopped.
pub open spec fn service_request(program: Seq<char>, args: Seq<Seq<char>>) -> bool {
    ||| program == "systemctl"@ && systemctl_request(args)
    ||| program == "/bin/launchctl"@ && exists|uid: u32, agent: Seq<char>|
        launchctl_request(args, uid, agent)
}

/// The contents are those of a service file that starts the supervisor.
pub open spec fn service_file(
    contents: Seq<char>,
    executable: Seq<char>,
    state_directory: Seq<char>,
    runtime_directory: Seq<char>,
) -> bool {
    ||| contents == unit_file(executable, state_directory, runtime_directory) && !unit_refused(
        executable,
        state_directory,
        runtime_directory,
    )
    ||| contents == plist_file(executable, state_directory, runtime_directory)
}

/// Runs commands of the service manager, and no others.
pub trait CommandRunner {
    /// Runs a command that only looks at a service.
    fn query(&self, program: &str, args: &Vec<String>) -> Result<CommandOutput, String>
        requires
            service_query(program@, texts(args@)),
    ;

    /// Runs a command that changes a service.
    fn run(&mut self, program: &str, args: &Vec<String>) -> Result<CommandOutput, String>
        requires
            service_request(program@, texts(args@)),
    ;
}

/// Reads and writes the files of a service.
pub trait ServiceFiles {
    /// Whether the path is a regular file.
    fn is_file(&self, path: &str) -> bool;

    /// The contents of a file, if it exists.
    fn read(&self, path: &str) -> Result<Option<String>, String>;

    /// Makes the directory of a service file, and an empty file beside it that will take its place.
    fn prepare(&mut self, path: &str) -> Result<(), String>;

    /// Removes the file that would have taken the place of a service file.
    fn discard(&mut self, path: &str);

    /// Fills the file that was prepared and puts it in place, readable by its owner only.
    fn install(&mut self, path: &str, contents: &str) -> Result<(), String>
        requires
            exists|executable: Seq<char>, state_directory: Seq<char>, runtime_directory: Seq<char>|
                service_file(contents@, executable, state_directory, runtime_directory),
    ;

    /// Removes a file.
    fn remove(&mut self, path: &str) -> Result<(), String>;
}

/// The command was asked, with this answer.
pub open spec fn queried<Runner: CommandRunner>(
    runner: Runner,
    program: Seq<char>,
    args: Seq<Seq<char>>,
    output: Result<CommandOutput, String>,
) -> bool {
    exists|program_text: &str, list: &Vec<String>|
        {
            &&& #[trigger] call_ensures(Runner::query, (&runner, program_text, list), output)
            &&& program_text@ == program
            &&& texts(list@) == args
        }
}

/// Whether a file is at the path was asked, with this answer.
pub open spec fn file_seen<Files: ServiceFiles>(files: Files, path: Seq<char>, seen: bool) -> bool {
    exists|text: &str| #[trigger] call_ensures(Files::is_file, (&files, text), seen) && text@ == path
}

/// The contents of the file were asked for, with this answer.
pub open spec fn file_found<Files: ServiceFiles>(
    files: Files,
    path: Seq<char>,
    found: Result<Option<String>, String>,
) -> bool {
    exists|text: &str| #[trigger] call_ensures(Files::read, (&files, text), found) && text@ == path
}

/// The command ran and succeeded.
pub open spec fn did_succeed(output: Result<CommandOutput, String>) -> bool {
    output matches Ok(done) && done.success
}

/// The result is what a command that has to succeed gives.
pub open spec fn command_result(
    command: Seq<char>,
    output: Result<CommandOutput, String>,
    r: Result<(), ServiceManagerError>,
) -> bool {
    match output {
        Ok(done) => if done.success {
            r is Ok
        } else {
            r matches Err(error) && error@ == command_failure(command, done.stderr@)
        },
        Err(detail) => r matches Err(error) && error@ == detail@,
    }
}

/// The message for a command that failed.
pub open spec fn command_failure(command: Seq<char>, stderr: Seq<char>) -> Seq<char> {
    command + " failed: "@ + trimmed(stderr)
}

/// The error of a command that failed.
pub fn command_error(command: &str, output: &CommandOutput) -> (r: ServiceManagerError)
    ensures
        r@ == command_failure(command@, output.stderr@),
{
    let mut out: String = copy_text(command);
    push_text(&mut out, " failed: ");
    let detail: String = text_of(&trim(output.stderr.as_str()));
    push_text(&mut out, detail.as_str());
    ServiceManagerError::new(out)
}

/// Checks that a command succeeded.
pub fn require_success(command: &str, output: &CommandOutput) -> (r: Result<
    (),
    ServiceManagerError,
>)
    ensures
        if output.success {
            r is Ok
        } else {
            r matches Err(error) && error@ == command_failure(command@, output.stderr@)
        },
{
    if output.success {
        Ok(())
    } else {
        Err(command_error(command, output))
    }
}

/// The result is what a service file holds, compared with what it should hold: `true` for the same,
/// `false` for no file, and an error for a file of someone else.
pub open spec fn compared_file(
    found: Result<Option<String>, String>,
    expected: Seq<char>,
    path: Seq<char>,
    foreign: Seq<char>,
    r: Result<bool, ServiceManagerError>,
) -> bool {
    match found {
        Ok(None) => r == Ok::<bool, ServiceManagerError>(false),
        Ok(Some(contents)) => if contents@ == expected {
            r == Ok::<bool, ServiceManagerError>(true)
        } else {
            r matches Err(error) && error@ == foreign + path
        },
        Err(detail) => r matches Err(error) && error@ == "cannot read "@ + path + ": "@ + detail@,
    }
}

/// What a service file holds, compared with what it should hold: `true` for the same, `false` for
/// no file. A file with other contents is not touched.
pub fn own_file(
    found: Result<Option<String>, String>,
    expected: &str,
    path: &str,
    foreign: &str,
) -> (r: Result<bool, ServiceManagerError>)
    ensures
        compared_file(found, expected@, path@, foreign@, r),
{
    match found {
        Ok(None) => Ok(false),
        Ok(Some(contents)) => {
            if text_eq(contents.as_str(), expected) {
                return Ok(true);
            }
            let mut out: String = copy_text(foreign);
            push_text(&mut out, path);
            Err(ServiceManagerError::new(out))
        },
        Err(detail) => {
            let mut out: String = "cannot read ".to_owned();
            push_text(&mut out, path);
            push_text(&mut out, ": ");
            push_text(&mut out, detail.as_str());
            Err(ServiceManagerError::new(out))
        },
    }
}

/// The texts of a list of borrowed texts.
pub open spec fn borrowed_texts(parts: Seq<&str>) -> Seq<Seq<char>> {
    Seq::new(parts.len(), |i: int| parts[i]@)
}

/// The arguments of a command as owned texts.
pub fn arguments(parts: &[&str]) -> (r: Vec<String>)
    ensures
        texts(r@) == borrowed_texts(parts@),
{
    let mut out: Vec<String> = Vec::new();
    let mut index: usize = 0;
    while index < parts.len()
        invariant
            index <= parts@.len(),
            out@.len() == index,
            forall|i: int| 0 <= i < index ==> (#[trigger] out@[i])@ == parts@[i]@,
        decreases parts@.len() - index,
    {
        out.push(copy_text(parts[index]));
        index += 1;
    }
    assert(texts(out@) =~= borrowed_texts(parts@));
    out
}

} // verus!
