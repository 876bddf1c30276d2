//! The service manager of the platform.
use vstd::prelude::*;

use super::macos::LaunchdService;
use super::machine::{CommandRunner, ServiceFiles};
use super::systemd::SystemdUserService;
use crate::application::service::{ServiceManager, ServiceManagerError, ServiceStatus};
use crate::infrastructure::paths::Platform;
use crate::path_text::{join_path, path_join};

verus! {

/// The service manager of the platform.
pub enum NativeServiceManager<Runner, Files> {
    Launchd(LaunchdService<Runner, Files>),
    Systemd(SystemdUserService<Runner, Files>),
}

/// The directory of the user's configuration files.
pub open spec fn config_location(xdg_config_home: Option<String>, home: Seq<char>) -> Seq<char> {
    match xdg_config_home {
        Some(path) => path@,
        None => path_join(home, ".config"@),
    }
}

impl<Runner: CommandRunner, Files: ServiceFiles> NativeServiceManager<Runner, Files> {
    /// The service manager of the platform: launchd on macOS, systemd on Linux.
    #[allow(clippy::too_many_arguments)]
    pub fn detect(
        platform: Platform,
        executable: String,
        state_directory: String,
        runtime_directory: String,
        home: &str,
        xdg_config_home: Option<String>,
        uid: u32,
        runner: Runner,
        files: Files,
    ) -> (r: NativeServiceManager<Runner, Files>)
        ensures
            match platform {
                Platform::MacOs => r matches NativeServiceManager::Launchd(service) && {
                    &&& service.spec_executable() == executable@
                    &&& service.spec_state_directory() == state_directory@
                    &&& service.spec_runtime_directory() == runtime_directory@
                    &&& service.spec_agent_path() == path_join(
                        path_join(path_join(home@, "Library"@), "LaunchAgents"@),
                        "io.github.jsugg.atx.plist"@,
                    )
                    &&& service.spec_uid() == uid
                    &&& service.spec_runner() == runner
                    &&& service.spec_files() == files
                },
                Platform::Linux => r matches NativeServiceManager::Systemd(service) && {
                    &&& service.spec_executable() == executable@
                    &&& service.spec_state_directory() == state_directory@
                    &&& service.spec_runtime_directory() == runtime_directory@
                    &&& service.spec_unit_path() == path_join(
                        path_join(config_location(xdg_config_home, home@), "systemd/user"@),
                        "atx.service"@,
                    )
                    &&& service.spec_uid() == uid
                    &&& service.spec_runner() == runner
                    &&& service.spec_files() == files
                },
            },
    {
        match platform {
            Platform::MacOs => NativeServiceManager::Launchd(
                LaunchdService::new(
                    executable,
                    state_directory,
                    runtime_directory,
                    home,
                    uid,
                    runner,
                    files,
                ),
            ),
            Platform::Linux => {
                let config_home: String = match xdg_config_home {
                    Some(path) => path,
                    None => join_path(home, ".config"),
                };
                NativeServiceManager::Systemd(
                    SystemdUserService::new(
                        executable,
                        state_directory,
                        runtime_directory,
                        config_home.as_str(),
                        uid,
                        runner,
                        files,
                    ),
                )
            },
        }
    }
}

impl<Runner: CommandRunner, Files: ServiceFiles> ServiceManager for NativeServiceManager<
    Runner,
    Files,
> {
    fn status(&self) -> (r: Result<ServiceStatus, ServiceManagerError>)
        ensures
            match *self {
                NativeServiceManager::Launchd(manager) => manager.status_found(r),
                NativeServiceManager::Systemd(manager) => manager.status_found(r),
            },
    {
        match self {
            NativeServiceManager::Launchd(manager) => manager.status(),
            NativeServiceManager::Systemd(manager) => manager.status(),
        }
    }

    fn install(&mut self) -> (r: Result<(), ServiceManagerError>)
        ensures
            match *old(self) {
                NativeServiceManager::Launchd(manager) => exists|
                    at: &mut LaunchdService<Runner, Files>,
                |
                    {
                        &&& #[trigger] call_ensures(
                            LaunchdService::<Runner, Files>::install,
                            (at,),
                            r,
                        )
                        &&& *at == manager
                        &&& *final(self) == NativeServiceManager::Launchd(*final(at))
                    },
                NativeServiceManager::Systemd(manager) => exists|
                    at: &mut SystemdUserService<Runner, Files>,
                |
                    {
                        &&& #[trigger] call_ensures(
                            SystemdUserService::<Runner, Files>::install,
                            (at,),
                            r,
                        )
                        &&& *at == manager
                        &&& *final(self) == NativeServiceManager::Systemd(*final(at))
                    },
            },
    {
        match self {
            NativeServiceManager::Launchd(manager) => manager.install(),
            NativeServiceManager::Systemd(manager) => manager.install(),
        }
    }

    fn uninstall(&mut self) -> (r: Result<(), ServiceManagerError>)
        ensures
            match *old(self) {
                NativeServiceManager::Launchd(manager) => exists|
                    at: &mut LaunchdService<Runner, Files>,
                |
                    {
                        &&& #[trigger] call_ensures(
                            LaunchdService::<Runner, Files>::uninstall,
                            (at,),
                            r,
                        )
                        &&& *at == manager
                        &&& *final(self) == NativeServiceManager::Launchd(*final(at))
                    },
                NativeServiceManager::Systemd(manager) => exists|
                    at: &mut SystemdUserService<Runner, Files>,
                |
                    {
                        &&& #[trigger] call_ensures(
                            SystemdUserService::<Runner, Files>::uninstall,
                            (at,),
                            r,
                        )
                        &&& *at == manager
                        &&& *final(self) == NativeServiceManager::Systemd(*final(at))
                    },
            },
    {
        match self {
            NativeServiceManager::Launchd(manager) => manager.uninstall(),
            NativeServiceManager::Systemd(manager) => manager.uninstall(),
        }
    }
}

} // verus!
