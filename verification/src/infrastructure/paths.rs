//! Where files are kept, and which of them are trusted.
use vstd::prelude::*;

use crate::path_text::{is_absolute, is_leaf, join_path, path_is_absolute, path_is_leaf, path_join};
use crate::text::{copy_text, decimal, push_decimal, push_text};

verus! {

/// A supported platform.
#[derive(Clone, Copy, Debug, PartialEq, Eq, Structural)]
pub enum Platform {
    Linux,
    MacOs,
}

/// The directories that the environment names.
#[derive(Debug, Default, PartialEq, Eq)]
pub struct PathEnvironment {
    pub home: Option<String>,
    pub xdg_state_home: Option<String>,
    pub xdg_runtime_dir: Option<String>,
    pub temporary_directory: Option<String>,
}

/// The directories that are used.
#[derive(Debug, PartialEq, Eq)]
pub struct PlatformPaths {
    state_dir: String,
    runtime_dir: String,
    runtime_uses_fallback: bool,
}

/// Directories with their paths as character sequences.
pub struct PathsModel {
    pub state_dir: Seq<char>,
    pub runtime_dir: Seq<char>,
    pub runtime_uses_fallback: bool,
}

impl View for PlatformPaths {
    type V = PathsModel;

    closed spec fn view(&self) -> PathsModel {
        PathsModel {
            state_dir: self.state_dir@,
            runtime_dir: self.runtime_dir@,
            runtime_uses_fallback: self.runtime_uses_fallback,
        }
    }
}

/// Why a path was refused.
#[derive(Debug, PartialEq, Eq)]
pub enum PathError {
    MissingHome,
    MissingRuntimeRoot,
    RelativePath,
    InvalidLeafName,
    Insecure(&'static str),
    Io(String),
    System(String),
}

/// The message of a path error.
pub open spec fn path_error_message(error: PathError) -> Seq<char> {
    match error {
        PathError::MissingHome => "home directory is unavailable"@,
        PathError::MissingRuntimeRoot => "secure runtime root is unavailable"@,
        PathError::RelativePath => "path must be absolute"@,
        PathError::InvalidLeafName => "path must be one normal relative component"@,
        PathError::Insecure(detail) => "insecure filesystem object: "@ + detail@,
        PathError::Io(detail) => "filesystem operation failed: "@ + detail@,
        PathError::System(detail) => "system call failed: "@ + detail@,
    }
}

impl PathError {
    /// The error as a message.
    pub fn to_string(&self) -> (text: String)
        ensures
            text@ == path_error_message(*self),
    {
        match self {
            PathError::MissingHome => "home directory is unavailable".to_owned(),
            PathError::MissingRuntimeRoot => "secure runtime root is unavailable".to_owned(),
            PathError::RelativePath => "path must be absolute".to_owned(),
            PathError::InvalidLeafName => "path must be one normal relative component".to_owned(),
            PathError::Insecure(detail) => {
                let mut out: String = "insecure filesystem object: ".to_owned();
                push_text(&mut out, detail);
                out
            },
            PathError::Io(detail) => {
                let mut out: String = "filesystem operation failed: ".to_owned();
                push_text(&mut out, detail.as_str());
                out
            },
            PathError::System(detail) => {
                let mut out: String = "system call failed: ".to_owned();
                push_text(&mut out, detail.as_str());
                out
            },
        }
    }
}

// ---------------------------------------------------------------------------------------------
// Locations
// ---------------------------------------------------------------------------------------------
/// The directory for runtime files where the platform offers none: one of the user's own among
/// the temporary files.
pub open spec fn fallback_location(environment: PathEnvironment, uid: u32) -> Option<Seq<char>> {
    match environment.temporary_directory {
        Some(root) => Some(path_join(root@, "atx-"@ + decimal(uid as nat))),
        None => None,
    }
}

/// The state directory of a platform.
pub open spec fn state_location(platform: Platform, environment: PathEnvironment) -> Option<
    Seq<char>,
> {
    match platform {
        Platform::Linux => match environment.xdg_state_home {
            Some(root) => Some(path_join(root@, "atx"@)),
            None => match environment.home {
                Some(home) => Some(path_join(home@, ".local/state/atx"@)),
                None => None,
            },
        },
        Platform::MacOs => match environment.home {
            Some(home) => Some(path_join(home@, "Library/Application Support/atx"@)),
            None => None,
        },
    }
}

/// The runtime directory of a platform, and whether it is the fallback.
pub open spec fn runtime_location(
    platform: Platform,
    environment: PathEnvironment,
    uid: u32,
) -> Option<(Seq<char>, bool)> {
    let fallback = match fallback_location(environment, uid) {
        Some(path) => Some((path, true)),
        None => None,
    };
    match platform {
        Platform::Linux => match environment.xdg_runtime_dir {
            Some(root) => Some((path_join(root@, "atx"@), false)),
            None => fallback,
        },
        Platform::MacOs => fallback,
    }
}

/// The directories to use, or why there are none. An explicit state directory holds the runtime
/// directory too.
pub open spec fn locations(
    platform: Platform,
    environment: PathEnvironment,
    state_override: Option<Seq<char>>,
    uid: u32,
) -> Result<PathsModel, PathError> {
    match state_override {
        Some(state_dir) => if is_absolute(state_dir) {
            Ok(
                PathsModel {
                    state_dir,
                    runtime_dir: path_join(state_dir, "runtime"@),
                    runtime_uses_fallback: true,
                },
            )
        } else {
            Err(PathError::RelativePath)
        },
        None => match state_location(platform, environment) {
            None => Err(PathError::MissingHome),
            Some(state_dir) => if !is_absolute(state_dir) {
                Err(PathError::RelativePath)
            } else {
                match runtime_location(platform, environment, uid) {
                    None => Err(PathError::MissingRuntimeRoot),
                    Some((runtime_dir, runtime_uses_fallback)) => if !is_absolute(runtime_dir) {
                        Err(PathError::RelativePath)
                    } else {
                        Ok(PathsModel { state_dir, runtime_dir, runtime_uses_fallback })
                    },
                }
            },
        },
    }
}

impl PlatformPaths {
    /// The directory of the database, the logs and the configuration.
    pub fn state_dir(&self) -> (r: &str)
        ensures
            r@ == self@.state_dir,
    {
        self.state_dir.as_str()
    }

    /// The directory of the supervisor's lock and socket.
    pub fn runtime_dir(&self) -> (r: &str)
        ensures
            r@ == self@.runtime_dir,
    {
        self.runtime_dir.as_str()
    }

    /// Whether the runtime directory is not the platform's own.
    pub fn runtime_uses_fallback(&self) -> (r: bool)
        ensures
            r == self@.runtime_uses_fallback,
    {
        self.runtime_uses_fallback
    }
}

/// Checks that a path starts at the root.
pub fn require_absolute(path: &str) -> (r: Result<(), PathError>)
    ensures
        r == if is_absolute(path@) {
            Ok::<(), PathError>(())
        } else {
            Err(PathError::RelativePath)
        },
{
    if path_is_absolute(path) {
        Ok(())
    } else {
        Err(PathError::RelativePath)
    }
}

/// The directory for runtime files among the temporary files.
pub fn fallback_runtime(environment: &PathEnvironment, uid: u32) -> (r: Result<String, PathError>)
    ensures
        match fallback_location(*environment, uid) {
            Some(path) => r matches Ok(found) && found@ == path,
            None => r matches Err(error) && error == PathError::MissingRuntimeRoot,
        },
{
    match &environment.temporary_directory {
        Some(root) => {
            let mut leaf: String = "atx-".to_owned();
            push_decimal(&mut leaf, uid as u64);
            Ok(join_path(root.as_str(), leaf.as_str()))
        },
        None => Err(PathError::MissingRuntimeRoot),
    }
}

/// Chooses the directories to use.
pub fn resolve_paths(
    platform: Platform,
    environment: &PathEnvironment,
    state_override: Option<&str>,
    uid: u32,
) -> (r: Result<PlatformPaths, PathError>)
    ensures
        match locations(
            platform,
            *environment,
            match state_override {
                Some(path) => Some(path@),
                None => None,
            },
            uid,
        ) {
            Ok(model) => r matches Ok(paths) && paths@ == model,
            Err(error) => r == Err::<PlatformPaths, PathError>(error),
        },
{
    match state_override {
        Some(state_dir) => {
            match require_absolute(state_dir) {
                Ok(_) => {},
                Err(error) => {
                    return Err(error);
                },
            }
            return Ok(
                PlatformPaths {
                    state_dir: copy_text(state_dir),
                    runtime_dir: join_path(state_dir, "runtime"),
                    runtime_uses_fallback: true,
                },
            );
        },
        None => {},
    }
    let state_dir: String = match platform {
        Platform::Linux => match &environment.xdg_state_home {
            Some(root) => join_path(root.as_str(), "atx"),
            None => match &environment.home {
                Some(home) => join_path(home.as_str(), ".local/state/atx"),
                None => {
                    return Err(PathError::MissingHome);
                },
            },
        },
        Platform::MacOs => match &environment.home {
            Some(home) => join_path(home.as_str(), "Library/Application Support/atx"),
            None => {
                return Err(PathError::MissingHome);
            },
        },
    };
    match require_absolute(state_dir.as_str()) {
        Ok(_) => {},
        Err(error) => {
            return Err(error);
        },
    }
    let mut runtime_uses_fallback: bool = true;
    let runtime_dir: String = match (platform, &environment.xdg_runtime_dir) {
        (Platform::Linux, Some(root)) => {
            runtime_uses_fallback = false;
            join_path(root.as_str(), "atx")
        },
        _ => match fallback_runtime(environment, uid) {
            Ok(path) => path,
            Err(error) => {
                return Err(error);
            },
        },
    };
    match require_absolute(runtime_dir.as_str()) {
        Ok(_) => {},
        Err(error) => {
            return Err(error);
        },
    }
    Ok(PlatformPaths { state_dir, runtime_dir, runtime_uses_fallback })
}

// ---------------------------------------------------------------------------------------------
// Trust
// ---------------------------------------------------------------------------------------------
/// What the file system says of an entry, links not followed.
#[derive(Clone, Copy, Debug, PartialEq, Eq, Structural)]
pub struct EntryFacts {
    pub is_symlink: bool,
    pub is_directory: bool,
    pub is_file: bool,
    pub is_socket: bool,
    pub owner: u32,
    pub mode: u32,
}

/// What is wrong with a directory that should be the user's own, if anything.
pub open spec fn private_directory_fault(entry: EntryFacts, uid: u32) -> Option<PathError> {
    if entry.is_symlink || !entry.is_directory {
        Some(PathError::Insecure("path is not a real directory"))
    } else if entry.owner != uid {
        Some(PathError::Insecure("directory has the wrong owner"))
    } else if entry.mode & 0o777 != 0o700 {
        Some(PathError::Insecure("directory mode must be 0700"))
    } else {
        None
    }
}

/// The entry is a regular file that only its owner, the user, may use.
pub open spec fn is_private_file(entry: EntryFacts, uid: u32) -> bool {
    &&& entry.owner == uid
    &&& entry.mode & 0o777 == 0o600
    &&& entry.is_file
}

/// Checks that a directory is real, owned by the user and closed to others.
pub fn validate_private_dir_for_uid(entry: EntryFacts, expected_uid: u32) -> (r: Result<
    (),
    PathError,
>)
    ensures
        r == match private_directory_fault(entry, expected_uid) {
            None => Ok::<(), PathError>(()),
            Some(error) => Err(error),
        },
{
    if entry.is_symlink || !entry.is_directory {
        return Err(PathError::Insecure("path is not a real directory"));
    }
    if entry.owner != expected_uid {
        return Err(PathError::Insecure("directory has the wrong owner"));
    }
    if entry.mode & 0o777 != 0o700 {
        return Err(PathError::Insecure("directory mode must be 0700"));
    }
    Ok(())
}

/// Checks that an opened file is regular, owned by the user and closed to others.
pub fn validate_private_file(entry: EntryFacts, expected_uid: u32) -> (r: Result<(), PathError>)
    ensures
        r == if is_private_file(entry, expected_uid) {
            Ok::<(), PathError>(())
        } else {
            Err(
                PathError::Insecure("file must be regular, owner-only, and owned by this user"),
            )
        },
{
    if entry.owner != expected_uid || entry.mode & 0o777 != 0o600 || !entry.is_file {
        return Err(
            PathError::Insecure("file must be regular, owner-only, and owned by this user"),
        );
    }
    Ok(())
}

/// Checks that an opened log is regular, owned by the user and closed to others.
pub fn validate_private_log(entry: EntryFacts, expected_uid: u32) -> (r: Result<(), PathError>)
    ensures
        r == if is_private_file(entry, expected_uid) {
            Ok::<(), PathError>(())
        } else {
            Err(
                PathError::Insecure("log must be a regular, owner-only file owned by this user"),
            )
        },
{
    if entry.owner != expected_uid || entry.mode & 0o777 != 0o600 || !entry.is_file {
        return Err(
            PathError::Insecure("log must be a regular, owner-only file owned by this user"),
        );
    }
    Ok(())
}

/// Checks that a name is that of an entry directly in a directory.
pub fn validate_leaf_name(name: &str) -> (r: Result<(), PathError>)
    ensures
        r == if is_leaf(name@) {
            Ok::<(), PathError>(())
        } else {
            Err(PathError::InvalidLeafName)
        },
{
    if path_is_leaf(name) {
        Ok(())
    } else {
        Err(PathError::InvalidLeafName)
    }
}

} // verus!
