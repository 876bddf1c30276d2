//! Durable-service lifecycle.
use vstd::prelude::*;

use crate::text::{copy_text, push_text};

verus! {

/// Whether a service manager can be used here.
#[derive(Clone, Copy, Debug, PartialEq, Eq, Structural)]
pub enum ServiceAvailability {
    Available,
    Unavailable,
}

/// What a service manager says of the service.
#[derive(Debug, PartialEq, Eq)]
pub struct ServiceStatus {
    pub manager: String,
    pub availability: ServiceAvailability,
    pub installed: bool,
    pub running: bool,
    pub files: Vec<String>,
    pub guarantee: String,
    pub detail: String,
}

/// What came of a change to the service.
#[derive(Debug, PartialEq, Eq)]
pub struct ServiceChange {
    pub changed: bool,
    pub status: ServiceStatus,
}

/// Why a service manager failed.
#[derive(Debug, PartialEq, Eq)]
pub struct ServiceManagerError {
    message: String,
}

impl View for ServiceManagerError {
    type V = Seq<char>;

    closed spec fn view(&self) -> Seq<char> {
        self.message@
    }
}

impl ServiceManagerError {
    /// An error with the given message.
    pub fn new(message: String) -> (r: ServiceManagerError)
        ensures
            r@ == message@,
    {
        ServiceManagerError { message }
    }

    /// The message.
    pub fn to_string(&self) -> (text: String)
        ensures
            text@ == self@,
    {
        copy_text(self.message.as_str())
    }
}

/// Why the service was not changed.
#[derive(Debug, PartialEq, Eq)]
pub enum ServiceLifecycleError {
    /// The manager failed.
    Manager(ServiceManagerError),
    /// The manager cannot be used here.
    Unavailable(String),
    /// The installation failed and was undone.
    Install(ServiceManagerError),
    /// The installation did not take hold and was undone.
    IncompleteInstall(String),
    /// The installation failed and could not be undone.
    InstallRollback { install: String, rollback: String },
    /// The service is still there after it was removed.
    IncompleteUninstall(String),
}

/// The message of a lifecycle error.
pub open spec fn lifecycle_message(error: ServiceLifecycleError) -> Seq<char> {
    match error {
        ServiceLifecycleError::Manager(inner) => inner@,
        ServiceLifecycleError::Unavailable(detail) => "durable service is unavailable: "@ + detail@,
        ServiceLifecycleError::Install(inner) => {
            "service installation failed and was rolled back: "@ + inner@
        },
        ServiceLifecycleError::IncompleteInstall(detail) => {
            "service installation remained incomplete and was rolled back: "@ + detail@
        },
        ServiceLifecycleError::InstallRollback { install, rollback } => {
            "service installation failed ("@ + install@ + "); rollback also failed ("@ + rollback@
                + ")"@
        },
        ServiceLifecycleError::IncompleteUninstall(detail) => {
            "service uninstall remained incomplete: "@ + detail@
        },
    }
}

impl ServiceLifecycleError {
    /// The error as a message.
    pub fn to_string(&self) -> (text: String)
        ensures
            text@ == lifecycle_message(*self),
    {
        match self {
            ServiceLifecycleError::Manager(inner) => inner.to_string(),
            ServiceLifecycleError::Unavailable(detail) => {
                let mut out: String = "durable service is unavailable: ".to_owned();
                push_text(&mut out, detail.as_str());
                out
            },
            ServiceLifecycleError::Install(inner) => {
                let mut out: String = "service installation failed and was rolled back: ".to_owned();
                push_text(&mut out, inner.to_string().as_str());
                out
            },
            ServiceLifecycleError::IncompleteInstall(detail) => {
                let mut out: String =
                    "service installation remained incomplete and was rolled back: ".to_owned();
                push_text(&mut out, detail.as_str());
                out
            },
            ServiceLifecycleError::InstallRollback { install, rollback } => {
                let mut out: String = "service installation failed (".to_owned();
                push_text(&mut out, install.as_str());
                push_text(&mut out, "); rollback also failed (");
                push_text(&mut out, rollback.as_str());
                push_text(&mut out, ")");
                out
            },
            ServiceLifecycleError::IncompleteUninstall(detail) => {
                let mut out: String = "service uninstall remained incomplete: ".to_owned();
                push_text(&mut out, detail.as_str());
                out
            },
        }
    }
}

/// A service manager of the operating system.
pub trait ServiceManager {
    fn status(&self) -> Result<ServiceStatus, ServiceManagerError>;

    fn install(&mut self) -> Result<(), ServiceManagerError>;

    fn uninstall(&mut self) -> Result<(), ServiceManagerError>;
}

// ---------------------------------------------------------------------------------------------
// Decisions
// ---------------------------------------------------------------------------------------------
/// Checks that the manager can be used here.
pub fn require_available(status: &ServiceStatus) -> (r: Result<(), ServiceLifecycleError>)
    ensures
        if status.availability == ServiceAvailability::Available {
            r is Ok
        } else {
            r matches Err(ServiceLifecycleError::Unavailable(detail)) && detail@ == status.detail@
        },
{
    if status.availability == ServiceAvailability::Available {
        Ok(())
    } else {
        Err(ServiceLifecycleError::Unavailable(copy_text(status.detail.as_str())))
    }
}

/// What follows once the manager was asked for the first time.
pub enum FirstStep {
    /// Nothing is left to do.
    Done(Result<ServiceChange, ServiceLifecycleError>),
    /// The service is to be changed.
    Change,
}

/// What follows once the manager was asked after an installation.
pub enum CheckStep {
    /// Nothing is left to do.
    Done(Result<ServiceChange, ServiceLifecycleError>),
    /// The installation is to be undone.
    RollBack(String),
}

/// The step is to end without a change, with the given status.
pub open spec fn unchanged(status: ServiceStatus) -> FirstStep {
    FirstStep::Done(Ok(ServiceChange { changed: false, status }))
}

/// The step refuses because the manager cannot be asked or used.
pub open spec fn refused(answer: Result<ServiceStatus, ServiceManagerError>, step: FirstStep) -> bool {
    match answer {
        Err(error) => step == FirstStep::Done(Err(ServiceLifecycleError::Manager(error))),
        Ok(status) => status.availability != ServiceAvailability::Available && {
            step matches FirstStep::Done(Err(ServiceLifecycleError::Unavailable(detail)))
                && detail@ == status.detail@
        },
    }
}

/// Decides whether to install: not where the service is installed and running.
pub fn before_install(answer: Result<ServiceStatus, ServiceManagerError>) -> (r: FirstStep)
    ensures
        match answer {
            Ok(status) if status.availability == ServiceAvailability::Available => if status.installed
                && status.running {
                r == unchanged(status)
            } else {
                r == FirstStep::Change
            },
            _ => refused(answer, r),
        },
{
    let status: ServiceStatus = match answer {
        Ok(status) => status,
        Err(error) => {
            return FirstStep::Done(Err(ServiceLifecycleError::Manager(error)));
        },
    };
    match require_available(&status) {
        Ok(_) => {},
        Err(error) => {
            return FirstStep::Done(Err(error));
        },
    }
    if status.installed && status.running {
        return FirstStep::Done(Ok(ServiceChange { changed: false, status }));
    }
    FirstStep::Change
}

/// Decides whether to uninstall: not where the service is not installed.
pub fn before_uninstall(answer: Result<ServiceStatus, ServiceManagerError>) -> (r: FirstStep)
    ensures
        match answer {
            Ok(status) if status.availability == ServiceAvailability::Available => if !status.installed {
                r == unchanged(status)
            } else {
                r == FirstStep::Change
            },
            _ => refused(answer, r),
        },
{
    let status: ServiceStatus = match answer {
        Ok(status) => status,
        Err(error) => {
            return FirstStep::Done(Err(ServiceLifecycleError::Manager(error)));
        },
    };
    match require_available(&status) {
        Ok(_) => {},
        Err(error) => {
            return FirstStep::Done(Err(error));
        },
    }
    if !status.installed {
        return FirstStep::Done(Ok(ServiceChange { changed: false, status }));
    }
    FirstStep::Change
}

/// The error of an installation that failed, with what came of undoing it.
pub fn failed_install(
    install: ServiceManagerError,
    rollback: Result<(), ServiceManagerError>,
) -> (r: ServiceLifecycleError)
    ensures
        match rollback {
            Ok(_) => r == ServiceLifecycleError::Install(install),
            Err(undo) => r matches ServiceLifecycleError::InstallRollback {
                install: first,
                rollback: second,
            } && first@ == install@ && second@ == undo@,
        },
{
    match rollback {
        Ok(_) => ServiceLifecycleError::Install(install),
        Err(undo) => ServiceLifecycleError::InstallRollback {
            install: install.to_string(),
            rollback: undo.to_string(),
        },
    }
}

/// The error of an installation that did not take hold, with what came of undoing it.
pub fn incomplete_install(
    detail: String,
    rollback: Result<(), ServiceManagerError>,
) -> (r: ServiceLifecycleError)
    ensures
        match rollback {
            Ok(_) => r == ServiceLifecycleError::IncompleteInstall(detail),
            Err(undo) => r matches ServiceLifecycleError::InstallRollback {
                install: first,
                rollback: second,
            } && first == detail && second@ == undo@,
        },
{
    match rollback {
        Ok(_) => ServiceLifecycleError::IncompleteInstall(detail),
        Err(undo) => ServiceLifecycleError::InstallRollback {
            install: detail,
            rollback: undo.to_string(),
        },
    }
}

/// Decides on the status after an installation: it counts only if the service runs.
pub fn after_install(answer: Result<ServiceStatus, ServiceManagerError>) -> (r: CheckStep)
    ensures
        match answer {
            Err(error) => r == CheckStep::Done(Err(ServiceLifecycleError::Manager(error))),
            Ok(status) => if status.installed && status.running {
                r == CheckStep::Done(Ok(ServiceChange { changed: true, status }))
            } else {
                r == CheckStep::RollBack(status.detail)
            },
        },
{
    match answer {
        Err(error) => CheckStep::Done(Err(ServiceLifecycleError::Manager(error))),
        Ok(status) => {
            if !status.installed || !status.running {
                return CheckStep::RollBack(status.detail);
            }
            CheckStep::Done(Ok(ServiceChange { changed: true, status }))
        },
    }
}

/// Decides on the status after an uninstallation: it counts only if nothing is left.
pub fn after_uninstall(answer: Result<ServiceStatus, ServiceManagerError>) -> (r: Result<
    ServiceChange,
    ServiceLifecycleError,
>)
    ensures
        r == match answer {
            Err(error) => Err::<ServiceChange, ServiceLifecycleError>(
                ServiceLifecycleError::Manager(error),
            ),
            Ok(status) => if status.installed || status.running {
                Err(ServiceLifecycleError::IncompleteUninstall(status.detail))
            } else {
                Ok(ServiceChange { changed: true, status })
            },
        },
{
    match answer {
        Err(error) => Err(ServiceLifecycleError::Manager(error)),
        Ok(status) => {
            if status.installed || status.running {
                return Err(ServiceLifecycleError::IncompleteUninstall(status.detail));
            }
            Ok(ServiceChange { changed: true, status })
        },
    }
}

// ---------------------------------------------------------------------------------------------
// Services
// ---------------------------------------------------------------------------------------------
/// What the manager answers while the service is installed, and the manager once it was asked to
/// install it.
pub struct InstallAnswers<Manager> {
    pub first: Result<ServiceStatus, ServiceManagerError>,
    pub installed: Result<(), ServiceManagerError>,
    pub tried: Manager,
    pub second: Result<ServiceStatus, ServiceManagerError>,
    pub undone: Result<(), ServiceManagerError>,
}

/// What the manager answers while the service is uninstalled, and the manager once it was asked to
/// uninstall it.
pub struct UninstallAnswers<Manager> {
    pub first: Result<ServiceStatus, ServiceManagerError>,
    pub uninstalled: Result<(), ServiceManagerError>,
    pub tried: Manager,
    pub second: Result<ServiceStatus, ServiceManagerError>,
}

/// The manager can be used here.
pub open spec fn is_usable(answer: Result<ServiceStatus, ServiceManagerError>) -> bool {
    answer matches Ok(status) && status.availability == ServiceAvailability::Available
}

impl<Manager: ServiceManager> InstallAnswers<Manager> {
    /// The manager is asked to install the service: it can be used, and the service is not both
    /// installed and running.
    pub open spec fn installs(self) -> bool {
        is_usable(self.first) && !(self.first->Ok_0.installed && self.first->Ok_0.running)
    }

    /// The installation is undone: it failed, or did not take hold.
    pub open spec fn undoes(self) -> bool {
        self.installs() && match self.installed {
            Err(_) => true,
            Ok(_) => self.second matches Ok(status) && !(status.installed && status.running),
        }
    }
}

impl<Manager: ServiceManager> UninstallAnswers<Manager> {
    /// The manager is asked to uninstall the service: it can be used, and the service is installed.
    pub open spec fn uninstalls(self) -> bool {
        is_usable(self.first) && self.first->Ok_0.installed
    }
}

/// The failure of an installation, with what came of undoing it.
pub open spec fn install_failed(
    install: ServiceManagerError,
    undone: Result<(), ServiceManagerError>,
    r: Result<ServiceChange, ServiceLifecycleError>,
) -> bool {
    match undone {
        Ok(_) => r == Err::<ServiceChange, ServiceLifecycleError>(
            ServiceLifecycleError::Install(install),
        ),
        Err(undo) => r matches Err(ServiceLifecycleError::InstallRollback {
            install: first,
            rollback: second,
        }) && first@ == install@ && second@ == undo@,
    }
}

/// The failure of an installation that did not take hold, with what came of undoing it.
pub open spec fn install_incomplete(
    detail: String,
    undone: Result<(), ServiceManagerError>,
    r: Result<ServiceChange, ServiceLifecycleError>,
) -> bool {
    match undone {
        Ok(_) => r == Err::<ServiceChange, ServiceLifecycleError>(
            ServiceLifecycleError::IncompleteInstall(detail),
        ),
        Err(undo) => r matches Err(ServiceLifecycleError::InstallRollback {
            install: first,
            rollback: second,
        }) && first == detail && second@ == undo@,
    }
}

/// The result is what installing the service gives with the answers: an installation that fails or
/// does not take hold is undone. The manager is asked for the status first, and again once it was
/// asked to install.
pub open spec fn install_outcome<Manager: ServiceManager>(
    manager: Manager,
    answers: InstallAnswers<Manager>,
    r: Result<ServiceChange, ServiceLifecycleError>,
) -> bool {
    &&& call_ensures(Manager::status, (&manager,), answers.first)
    &&& if !is_usable(answers.first) {
        refused(answers.first, FirstStep::Done(r))
    } else if !answers.installs() {
        r == Ok::<ServiceChange, ServiceLifecycleError>(
            ServiceChange { changed: false, status: answers.first->Ok_0 },
        )
    } else {
        match answers.installed {
            Err(error) => install_failed(error, answers.undone, r),
            Ok(_) => {
                &&& call_ensures(Manager::status, (&answers.tried,), answers.second)
                &&& match answers.second {
                    Err(error) => r == Err::<ServiceChange, ServiceLifecycleError>(
                        ServiceLifecycleError::Manager(error),
                    ),
                    Ok(status) => if status.installed && status.running {
                        r == Ok::<ServiceChange, ServiceLifecycleError>(
                            ServiceChange { changed: true, status },
                        )
                    } else {
                        install_incomplete(status.detail, answers.undone, r)
                    },
                }
            },
        }
    }
}

/// The result is what uninstalling the service gives with the answers. The manager is asked for the
/// status first, and again once it was asked to uninstall.
pub open spec fn uninstall_outcome<Manager: ServiceManager>(
    manager: Manager,
    answers: UninstallAnswers<Manager>,
    r: Result<ServiceChange, ServiceLifecycleError>,
) -> bool {
    &&& call_ensures(Manager::status, (&manager,), answers.first)
    &&& if !is_usable(answers.first) {
        refused(answers.first, FirstStep::Done(r))
    } else if !answers.uninstalls() {
        r == Ok::<ServiceChange, ServiceLifecycleError>(
            ServiceChange { changed: false, status: answers.first->Ok_0 },
        )
    } else {
        match answers.uninstalled {
            Err(error) => r == Err::<ServiceChange, ServiceLifecycleError>(
                ServiceLifecycleError::Manager(error),
            ),
            Ok(_) => {
                &&& call_ensures(Manager::status, (&answers.tried,), answers.second)
                &&& r == match answers.second {
                    Err(error) => Err::<ServiceChange, ServiceLifecycleError>(
                        ServiceLifecycleError::Manager(error),
                    ),
                    Ok(status) => if status.installed || status.running {
                        Err::<ServiceChange, ServiceLifecycleError>(
                            ServiceLifecycleError::IncompleteUninstall(status.detail),
                        )
                    } else {
                        Ok::<ServiceChange, ServiceLifecycleError>(
                            ServiceChange { changed: true, status },
                        )
                    },
                }
            },
        }
    }
}

/// Installs the service, and undoes an installation that fails or does not take hold. The manager is
/// asked to install at most once, and to undo that at most once, on what the installation left.
pub fn install_service<Manager: ServiceManager>(manager: &mut Manager) -> (r: Result<
    ServiceChange,
    ServiceLifecycleError,
>)
    ensures
        exists|answers: InstallAnswers<Manager>|
            {
                &&& #[trigger] install_outcome(*old(manager), answers, r)
                &&& if answers.installs() {
                    exists|at: &mut Manager|
                        {
                            &&& #[trigger] call_ensures(
                                Manager::install,
                                (at,),
                                answers.installed,
                            )
                            &&& *at == *old(manager)
                            &&& *final(at) == answers.tried
                        }
                } else {
                    answers.tried == *old(manager)
                }
                &&& if answers.undoes() {
                    exists|at: &mut Manager|
                        {
                            &&& #[trigger] call_ensures(
                                Manager::uninstall,
                                (at,),
                                answers.undone,
                            )
                            &&& *at == answers.tried
                            &&& *final(at) == *final(manager)
                        }
                } else {
                    *final(manager) == answers.tried
                }
            },
{
    let ghost before = *manager;
    let ghost mut answers: InstallAnswers<Manager> = arbitrary();
    let first: Result<ServiceStatus, ServiceManagerError> = manager.status();
    proof {
        answers.first = first;
        answers.tried = before;
    }
    match before_install(first) {
        FirstStep::Done(result) => {
            assert(install_outcome(before, answers, result));
            return result;
        },
        FirstStep::Change => {},
    }
    let installed: Result<(), ServiceManagerError> = manager.install();
    proof {
        answers.installed = installed;
        answers.tried = *manager;
    }
    match installed {
        Ok(_) => {},
        Err(error) => {
            let undone: Result<(), ServiceManagerError> = manager.uninstall();
            proof {
                answers.undone = undone;
            }
            let r: Result<ServiceChange, ServiceLifecycleError> = Err(
                failed_install(error, undone),
            );
            assert(install_outcome(before, answers, r));
            return r;
        },
    }
    let second: Result<ServiceStatus, ServiceManagerError> = manager.status();
    proof {
        answers.second = second;
    }
    match after_install(second) {
        CheckStep::Done(result) => {
            assert(install_outcome(before, answers, result));
            result
        },
        CheckStep::RollBack(detail) => {
            let undone: Result<(), ServiceManagerError> = manager.uninstall();
            proof {
                answers.undone = undone;
            }
            let r: Result<ServiceChange, ServiceLifecycleError> = Err(
                incomplete_install(detail, undone),
            );
            assert(install_outcome(before, answers, r));
            r
        },
    }
}

/// Uninstalls the service. The manager is asked to do so at most once.
pub fn uninstall_service<Manager: ServiceManager>(manager: &mut Manager) -> (r: Result<
    ServiceChange,
    ServiceLifecycleError,
>)
    ensures
        exists|answers: UninstallAnswers<Manager>|
            {
                &&& #[trigger] uninstall_outcome(*old(manager), answers, r)
                &&& *final(manager) == answers.tried
                &&& if answers.uninstalls() {
                    exists|at: &mut Manager|
                        {
                            &&& #[trigger] call_ensures(
                                Manager::uninstall,
                                (at,),
                                answers.uninstalled,
                            )
                            &&& *at == *old(manager)
                            &&& *final(at) == answers.tried
                        }
                } else {
                    answers.tried == *old(manager)
                }
            },
{
    let ghost before = *manager;
    let ghost mut answers: UninstallAnswers<Manager> = arbitrary();
    let first: Result<ServiceStatus, ServiceManagerError> = manager.status();
    proof {
        answers.first = first;
        answers.tried = before;
    }
    match before_uninstall(first) {
        FirstStep::Done(result) => {
            assert(uninstall_outcome(before, answers, result));
            return result;
        },
        FirstStep::Change => {},
    }
    let uninstalled: Result<(), ServiceManagerError> = manager.uninstall();
    proof {
        answers.uninstalled = uninstalled;
        answers.tried = *manager;
    }
    match uninstalled {
        Ok(_) => {},
        Err(error) => {
            let r: Result<ServiceChange, ServiceLifecycleError> = Err(
                ServiceLifecycleError::Manager(error),
            );
            assert(uninstall_outcome(before, answers, r));
            return r;
        },
    }
    let second: Result<ServiceStatus, ServiceManagerError> = manager.status();
    proof {
        answers.second = second;
    }
    let r: Result<ServiceChange, ServiceLifecycleError> = after_uninstall(second);
    assert(uninstall_outcome(before, answers, r));
    r
}

/// A service that is reported as installed runs, and one that is reported as uninstalled is gone.
pub proof fn lemma_reported_changes_hold<Manager: ServiceManager>(
    manager: Manager,
    installing: InstallAnswers<Manager>,
    uninstalling: UninstallAnswers<Manager>,
    installed: Result<ServiceChange, ServiceLifecycleError>,
    uninstalled: Result<ServiceChange, ServiceLifecycleError>,
)
    requires
        install_outcome(manager, installing, installed),
        uninstall_outcome(manager, uninstalling, uninstalled),
    ensures
        installed matches Ok(change) ==> change.status.installed && change.status.running,
        uninstalled matches Ok(change) ==> !change.status.installed && (change.changed
            ==> !change.status.running),
{
}

/// Installing again changes nothing: where the manager still answers as it did after an
/// installation that succeeded, it is not asked to install or uninstall, and the second result has
/// the same status and no change.
pub proof fn lemma_install_is_idempotent<Manager: ServiceManager>(
    before: Manager,
    one: InstallAnswers<Manager>,
    first: Result<ServiceChange, ServiceLifecycleError>,
    between: Manager,
    two: InstallAnswers<Manager>,
    second: Result<ServiceChange, ServiceLifecycleError>,
)
    requires
        install_outcome(before, one, first),
        first matches Ok(change) && two.first == Ok::<ServiceStatus, ServiceManagerError>(
            change.status,
        ),
        is_usable(two.first),
        install_outcome(between, two, second),
    ensures
        !two.installs() && !two.undoes(),
        second == Ok::<ServiceChange, ServiceLifecycleError>(
            ServiceChange { changed: false, status: first->Ok_0.status },
        ),
{
}

} // verus!
