//! Process identity and the cancellation of process groups.
use vstd::prelude::*;

use crate::application::cancel::GroupCancellation;
use crate::application::reconcile::{
    IdentityInspectionError, IdentityInspector, IdentityStatus as RecoveryIdentityStatus,
};
use crate::domain::run::{valid_identity, IdentityModel, ProcessIdentitySnapshot};
use crate::text::{
    chars_of, contains_char, copy_text, first_of, lemma_first_of_is, parse_i32, parse_unsigned,
    push_text, signed_value, split_words, text_eq, text_of, texts, trim, trimmed, unsigned_value,
    words,
};

verus! {

broadcast use vstd::seq::group_seq_axioms;

/// Whether a process is the one that an identity was taken of.
#[derive(Clone, Copy, Debug, PartialEq, Eq, Structural)]
pub enum IdentityStatus {
    Alive,
    Dead,
    Reused,
}

/// Why a process could not be looked at.
#[derive(Debug, PartialEq, Eq)]
pub enum ProcessError {
    InvalidIdentity,
    Malformed,
    PermissionDenied,
    Unsupported,
    Unavailable,
    Io(String),
}

/// The message of a process error.
pub open spec fn process_error_message(error: ProcessError) -> Seq<char> {
    match error {
        ProcessError::InvalidIdentity => {
            "process identity must include boot, PID, start token, and process group"@
        },
        ProcessError::Malformed => "process information is malformed"@,
        ProcessError::PermissionDenied => "permission denied while inspecting process"@,
        ProcessError::Unsupported => "process inspection is unsupported on this platform"@,
        ProcessError::Unavailable => "process inspection is unavailable"@,
        ProcessError::Io(detail) => "process inspection failed: "@ + detail@,
    }
}

impl ProcessError {
    /// The error as a message.
    pub fn to_string(&self) -> (text: String)
        ensures
            text@ == process_error_message(*self),
    {
        match self {
            ProcessError::InvalidIdentity => {
                "process identity must include boot, PID, start token, and process group".to_owned()
            },
            ProcessError::Malformed => "process information is malformed".to_owned(),
            ProcessError::PermissionDenied => {
                "permission denied while inspecting process".to_owned()
            },
            ProcessError::Unsupported => {
                "process inspection is unsupported on this platform".to_owned()
            },
            ProcessError::Unavailable => "process inspection is unavailable".to_owned(),
            ProcessError::Io(detail) => {
                let mut out: String = "process inspection failed: ".to_owned();
                push_text(&mut out, detail.as_str());
                out
            },
        }
    }
}

/// The error of a failed look at a process.
pub fn map_inspection_error(permission_denied: bool, detail: String) -> (r: ProcessError)
    ensures
        r == if permission_denied {
            ProcessError::PermissionDenied
        } else {
            ProcessError::Io(detail)
        },
{
    if permission_denied {
        ProcessError::PermissionDenied
    } else {
        ProcessError::Io(detail)
    }
}

// ---------------------------------------------------------------------------------------------
// Identity
// ---------------------------------------------------------------------------------------------
/// What a process that was looked at says of an expected identity.
pub open spec fn identity_status(expected: IdentityModel, current: Option<IdentityModel>) -> IdentityStatus {
    match current {
        None => IdentityStatus::Dead,
        Some(seen) => if seen == expected {
            IdentityStatus::Alive
        } else {
            IdentityStatus::Reused
        },
    }
}

/// Compares an expected identity with that of the process that has its number now.
pub fn classify_identity(
    expected: &ProcessIdentitySnapshot,
    current: Option<&ProcessIdentitySnapshot>,
) -> (r: IdentityStatus)
    ensures
        r == identity_status(
            expected@,
            match current {
                Some(seen) => Some(seen@),
                None => None,
            },
        ),
{
    match current {
        None => IdentityStatus::Dead,
        Some(seen) => {
            if seen.pid == expected.pid && seen.start_token == expected.start_token
                && seen.process_group_id == expected.process_group_id && text_eq(
                seen.boot_identity.as_str(),
                expected.boot_identity.as_str(),
            ) {
                IdentityStatus::Alive
            } else {
                IdentityStatus::Reused
            }
        },
    }
}

/// Checks that an identity is complete.
pub fn validate_snapshot(identity: &ProcessIdentitySnapshot) -> (r: Result<(), ProcessError>)
    ensures
        r == if valid_identity(identity@) {
            Ok::<(), ProcessError>(())
        } else {
            Err(ProcessError::InvalidIdentity)
        },
{
    let boot: &str = identity.boot_identity.as_str();
    if boot.unicode_len() == 0 || contains_char(boot, '\0') || identity.pid == 0
        || identity.start_token == 0 || identity.process_group_id <= 0 {
        return Err(ProcessError::InvalidIdentity);
    }
    Ok(())
}

/// The platform's view of its processes.
pub trait ProcessTable {
    /// The identity of the process with a number, if there is one.
    fn look_up(&self, pid: u32, boot_identity: &str) -> Result<
        Option<ProcessIdentitySnapshot>,
        ProcessError,
    >
        requires
            pid != 0,
    ;
}

/// Tells processes of this boot apart.
pub struct NativeProcessInspector<Table> {
    boot_identity: String,
    table: Table,
}

/// The result is what looking a process number up gives; zero is no process.
pub open spec fn process_found<Table: ProcessTable>(
    inspector: NativeProcessInspector<Table>,
    pid: u32,
    r: Result<Option<ProcessIdentitySnapshot>, ProcessError>,
) -> bool {
    if pid == 0 {
        r == Err::<Option<ProcessIdentitySnapshot>, ProcessError>(ProcessError::InvalidIdentity)
    } else {
        exists|boot: &str|
            {
                &&& #[trigger] call_ensures(
                    Table::look_up,
                    (&inspector.spec_table(), pid, boot),
                    r,
                )
                &&& boot@ == inspector.spec_boot_identity()
            }
    }
}

/// The result is what comparing an expected identity with the process of its number gives; an
/// incomplete identity is refused.
pub open spec fn classified<Table: ProcessTable>(
    inspector: NativeProcessInspector<Table>,
    expected: IdentityModel,
    r: Result<IdentityStatus, ProcessError>,
) -> bool {
    if !valid_identity(expected) {
        r == Err::<IdentityStatus, ProcessError>(ProcessError::InvalidIdentity)
    } else {
        exists|found: Result<Option<ProcessIdentitySnapshot>, ProcessError>|
            {
                &&& #[trigger] process_found(inspector, expected.pid, found)
                &&& r == match found {
                    Ok(Some(current)) => Ok::<IdentityStatus, ProcessError>(
                        identity_status(expected, Some(current@)),
                    ),
                    Ok(None) => Ok::<IdentityStatus, ProcessError>(IdentityStatus::Dead),
                    Err(error) => Err::<IdentityStatus, ProcessError>(error),
                }
            }
    }
}

impl<Table: ProcessTable> NativeProcessInspector<Table> {
    pub closed spec fn spec_boot_identity(self) -> Seq<char> {
        self.boot_identity@
    }

    pub closed spec fn spec_table(self) -> Table {
        self.table
    }

    /// An inspector for the boot with the given identity.
    pub fn new(boot_identity: String, table: Table) -> (r: NativeProcessInspector<Table>)
        ensures
            r.spec_boot_identity() == boot_identity@,
            r.spec_table() == table,
    {
        NativeProcessInspector { boot_identity, table }
    }

    /// The identity of the process with a number, if there is one; zero is no process.
    pub fn inspect(&self, pid: u32) -> (r: Result<Option<ProcessIdentitySnapshot>, ProcessError>)
        ensures
            process_found(*self, pid, r),
    {
        if pid == 0 {
            return Err(ProcessError::InvalidIdentity);
        }
        self.table.look_up(pid, self.boot_identity.as_str())
    }

    /// Whether the process with an identity is still the same; an incomplete identity is refused.
    pub fn classify_process(&self, expected: &ProcessIdentitySnapshot) -> (r: Result<
        IdentityStatus,
        ProcessError,
    >)
        ensures
            classified(*self, expected@, r),
    {
        match validate_snapshot(expected) {
            Ok(_) => {},
            Err(error) => {
                return Err(error);
            },
        }
        let found: Result<Option<ProcessIdentitySnapshot>, ProcessError> = self.inspect(
            expected.pid,
        );
        assert(process_found(*self, expected@.pid, found));
        match found {
            Ok(Some(current)) => Ok(classify_identity(expected, Some(&current))),
            Ok(None) => Ok(classify_identity(expected, None)),
            Err(error) => Err(error),
        }
    }
}

/// The status as recovery sees it.
pub fn recovery_status(status: IdentityStatus) -> (r: RecoveryIdentityStatus)
    ensures
        r == match status {
            IdentityStatus::Alive => RecoveryIdentityStatus::Alive,
            IdentityStatus::Dead => RecoveryIdentityStatus::Dead,
            IdentityStatus::Reused => RecoveryIdentityStatus::Changed,
        },
{
    match status {
        IdentityStatus::Alive => RecoveryIdentityStatus::Alive,
        IdentityStatus::Dead => RecoveryIdentityStatus::Dead,
        IdentityStatus::Reused => RecoveryIdentityStatus::Changed,
    }
}

/// The result is what a look at a process tells recovery.
pub open spec fn answers_recovery(
    answer: Result<IdentityStatus, ProcessError>,
    r: Result<RecoveryIdentityStatus, IdentityInspectionError>,
) -> bool {
    match answer {
        Ok(IdentityStatus::Alive) => r == Ok::<RecoveryIdentityStatus, IdentityInspectionError>(
            RecoveryIdentityStatus::Alive,
        ),
        Ok(IdentityStatus::Dead) => r == Ok::<RecoveryIdentityStatus, IdentityInspectionError>(
            RecoveryIdentityStatus::Dead,
        ),
        Ok(IdentityStatus::Reused) => r == Ok::<RecoveryIdentityStatus, IdentityInspectionError>(
            RecoveryIdentityStatus::Changed,
        ),
        Err(error) => r matches Err(failure) && failure.0@ == process_error_message(error),
    }
}

/// What a look at a process tells recovery.
pub fn recovery_answer(answer: Result<IdentityStatus, ProcessError>) -> (r: Result<
    RecoveryIdentityStatus,
    IdentityInspectionError,
>)
    ensures
        answers_recovery(answer, r),
{
    match answer {
        Ok(status) => Ok(recovery_status(status)),
        Err(error) => Err(IdentityInspectionError(error.to_string())),
    }
}

impl<Table: ProcessTable> IdentityInspector for NativeProcessInspector<Table> {
    /// Whether the process with an identity is still the same, as recovery sees it.
    fn classify(&self, identity: &ProcessIdentitySnapshot) -> (r: Result<
        RecoveryIdentityStatus,
        IdentityInspectionError,
    >)
        ensures
            exists|answer: Result<IdentityStatus, ProcessError>|
                {
                    &&& #[trigger] classified(*self, identity@, answer)
                    &&& answers_recovery(answer, r)
                },
    {
        recovery_answer(self.classify_process(identity))
    }
}

// ---------------------------------------------------------------------------------------------
// The process status line
// ---------------------------------------------------------------------------------------------
/// The position of the last occurrence of `c`, or -1 where there is none.
pub open spec fn last_of(text: Seq<char>, c: char) -> int
    decreases text.len(),
{
    if text.len() == 0 {
        -1
    } else if text.last() == c {
        text.len() - 1
    } else {
        last_of(text.drop_last(), c)
    }
}

/// Number, process group and start time in the kernel's status line of a process:
/// `NUMBER (NAME) FIELDS`. The name may hold anything, so it ends at the last closing
/// parenthesis. The process group is the third field after it, the start time the twentieth.
pub open spec fn stat_fields(stat: Seq<char>) -> Option<(int, int, int)> {
    let opening = first_of(stat, '(');
    let closing = last_of(stat, ')');
    let fields = words(stat.skip(closing + 1));
    if opening >= stat.len() || opening == 0 || closing <= opening || fields.len() < 20 {
        None
    } else {
        match (
            unsigned_value(trimmed(stat.take(opening))),
            signed_value(fields[2]),
            unsigned_value(fields[19]),
        ) {
            (Some(pid), Some(group), Some(start)) => if pid <= u32::MAX && i32::MIN <= group
                <= i32::MAX && start <= u64::MAX {
                Some((pid, group, start))
            } else {
                None
            },
            _ => None,
        }
    }
}

proof fn lemma_last_of_is(text: Seq<char>, c: char, at: int)
    requires
        -1 <= at < text.len(),
        at >= 0 ==> text[at] == c,
        forall|i: int| at < i < text.len() ==> text[i] != c,
    ensures
        last_of(text, c) == at,
    decreases text.len(),
{
    if at < text.len() - 1 {
        assert(text.last() != c);
        lemma_last_of_is(text.drop_last(), c, at);
    }
}

/// Reads the kernel's status line of a process.
pub fn parse_linux_stat(stat: &str, boot_identity: &str) -> (r: Result<
    ProcessIdentitySnapshot,
    ProcessError,
>)
    ensures
        match stat_fields(stat@) {
            None => r == Err::<ProcessIdentitySnapshot, ProcessError>(ProcessError::Malformed),
            Some((pid, group, start)) => {
                let identity = IdentityModel {
                    boot_identity: boot_identity@,
                    pid: pid as u32,
                    start_token: start as u64,
                    process_group_id: group as i32,
                };
                if valid_identity(identity) {
                    r matches Ok(snapshot) && snapshot@ == identity
                } else {
                    r == Err::<ProcessIdentitySnapshot, ProcessError>(
                        ProcessError::InvalidIdentity,
                    )
                }
            },
        },
{
    let chars: Vec<char> = chars_of(stat);
    let mut opening: usize = 0;
    while opening < chars.len() && chars[opening] != '('
        invariant
            opening <= chars@.len(),
            forall|i: int| 0 <= i < opening ==> chars@[i] != '(',
        decreases chars@.len() - opening,
    {
        opening += 1;
    }
    let mut after: usize = chars.len();
    while after > 0 && chars[after - 1] != ')'
        invariant
            after <= chars@.len(),
            forall|i: int| after <= i < chars@.len() ==> chars@[i] != ')',
        decreases after,
    {
        after -= 1;
    }
    proof {
        lemma_first_of_is(stat@, '(', opening as int);
        lemma_last_of_is(stat@, ')', after - 1);
    }
    if opening >= chars.len() || after == 0 {
        return Err(ProcessError::Malformed);
    }
    let closing: usize = after - 1;
    if opening == 0 || closing <= opening {
        return Err(ProcessError::Malformed);
    }
    let mut head: String = String::new();
    crate::text::push_chars(&mut head, &chars, 0, opening);
    assert(head@ =~= stat@.take(opening as int));
    let number: String = text_of(&trim(head.as_str()));
    let fields: Vec<String> = split_words(&chars, after);
    let ghost expected = words(stat@.skip(closing + 1));
    assert(texts(fields@) == expected);
    assert(fields@.len() == expected.len());
    if fields.len() < 20 {
        return Err(ProcessError::Malformed);
    }
    assert(expected[2] == fields@[2]@ && expected[19] == fields@[19]@);
    let pid: u32 = match parse_unsigned(number.as_str(), 4_294_967_295) {
        Some(pid) => pid as u32,
        None => {
            return Err(ProcessError::Malformed);
        },
    };
    let process_group_id: i32 = match parse_i32(fields[2].as_str()) {
        Some(group) => group,
        None => {
            return Err(ProcessError::Malformed);
        },
    };
    let start_token: u64 = match parse_unsigned(fields[19].as_str(), 18_446_744_073_709_551_615) {
        Some(start) => start,
        None => {
            return Err(ProcessError::Malformed);
        },
    };
    let snapshot = ProcessIdentitySnapshot {
        boot_identity: copy_text(boot_identity),
        pid,
        start_token,
        process_group_id,
    };
    match validate_snapshot(&snapshot) {
        Ok(_) => Ok(snapshot),
        Err(error) => Err(error),
    }
}

/// The identity that macOS reports of a process: it started so many seconds and microseconds after
/// the epoch.
pub open spec fn mac_identity(
    boot_identity: Seq<char>,
    pid: u32,
    started_seconds: u64,
    started_micros: u64,
    process_group_id: u32,
) -> Result<IdentityModel, ProcessError> {
    let identity = IdentityModel {
        boot_identity,
        pid,
        start_token: (started_seconds * 1_000_000 + started_micros) as u64,
        process_group_id: process_group_id as i32,
    };
    if started_seconds * 1_000_000 + started_micros > u64::MAX || process_group_id > i32::MAX {
        Err(ProcessError::Malformed)
    } else if !valid_identity(identity) {
        Err(ProcessError::InvalidIdentity)
    } else {
        Ok(identity)
    }
}

/// Reads what macOS reports of a process.
pub fn parse_mac_process(
    boot_identity: &str,
    pid: u32,
    started_seconds: u64,
    started_micros: u64,
    process_group_id: u32,
) -> (r: Result<ProcessIdentitySnapshot, ProcessError>)
    ensures
        match mac_identity(
            boot_identity@,
            pid,
            started_seconds,
            started_micros,
            process_group_id,
        ) {
            Ok(identity) => r matches Ok(snapshot) && snapshot@ == identity,
            Err(error) => r == Err::<ProcessIdentitySnapshot, ProcessError>(error),
        },
{
    let whole: u64 = match started_seconds.checked_mul(1_000_000) {
        Some(whole) => whole,
        None => {
            return Err(ProcessError::Malformed);
        },
    };
    let start_token: u64 = match whole.checked_add(started_micros) {
        Some(start_token) => start_token,
        None => {
            return Err(ProcessError::Malformed);
        },
    };
    if process_group_id > 0x7fff_ffff {
        return Err(ProcessError::Malformed);
    }
    let snapshot = ProcessIdentitySnapshot {
        boot_identity: copy_text(boot_identity),
        pid,
        start_token,
        process_group_id: process_group_id as i32,
    };
    match validate_snapshot(&snapshot) {
        Ok(_) => Ok(snapshot),
        Err(error) => Err(error),
    }
}

// ---------------------------------------------------------------------------------------------
// Cancellation
// ---------------------------------------------------------------------------------------------
/// How the cancellation of a process group ended.
#[derive(Clone, Copy, Debug, PartialEq, Eq, Structural)]
pub enum CancellationResult {
    AlreadyDead,
    IdentityChanged,
    TerminatedDuringGrace,
    KilledAfterGrace,
}

/// Where the cancellation of a process group stands.
#[derive(Clone, Copy, Debug, PartialEq, Eq, Structural)]
pub enum CancelPhase {
    /// The process was not looked at yet.
    FirstLook,
    /// The group was asked to end.
    Terminating,
    /// The group has time to end.
    Grace,
    /// The time is over and the process is looked at once more.
    LastLook,
    /// The group was killed.
    Killing,
}

/// What happened next.
#[derive(Clone, Copy, Debug, PartialEq, Eq, Structural)]
pub enum CancelEvent {
    /// The process was looked at, and the time was over or not.
    Seen { status: IdentityStatus, grace_over: bool },
    /// The signal was sent.
    Sent,
    /// There was no such group to signal.
    NoSuchGroup,
    /// The signal could not be sent.
    SendFailed,
}

/// What to do next.
#[derive(Clone, Copy, Debug, PartialEq, Eq, Structural)]
pub enum CancelAction {
    /// Ask the group to end.
    SendTerminate,
    /// Kill the group.
    SendKill,
    /// Look at the process.
    Look,
    /// Wait a little, then look at the process.
    Pause,
    /// The cancellation has ended.
    Finish(CancellationResult),
    /// The cancellation failed: a signal could not be sent, or the event does not fit the phase.
    Fail,
}

/// The next phase and what to do: the group is asked to end, then killed if it is still there when
/// the time is over. Before each signal the process must have been seen alive.
pub open spec fn cancel_next(phase: CancelPhase, event: CancelEvent) -> (CancelPhase, CancelAction) {
    match (phase, event) {
        (CancelPhase::FirstLook, CancelEvent::Seen { status, .. }) => match status {
            IdentityStatus::Alive => (CancelPhase::Terminating, CancelAction::SendTerminate),
            IdentityStatus::Dead => (phase, CancelAction::Finish(CancellationResult::AlreadyDead)),
            IdentityStatus::Reused => (
                phase,
                CancelAction::Finish(CancellationResult::IdentityChanged),
            ),
        },
        (CancelPhase::Terminating, CancelEvent::Sent) => (CancelPhase::Grace, CancelAction::Look),
        (CancelPhase::Terminating, CancelEvent::NoSuchGroup) => (
            phase,
            CancelAction::Finish(CancellationResult::AlreadyDead),
        ),
        (CancelPhase::Grace, CancelEvent::Seen { status, grace_over }) => match status {
            IdentityStatus::Alive => if grace_over {
                (CancelPhase::LastLook, CancelAction::Look)
            } else {
                (phase, CancelAction::Pause)
            },
            IdentityStatus::Dead => (
                phase,
                CancelAction::Finish(CancellationResult::TerminatedDuringGrace),
            ),
            IdentityStatus::Reused => (
                phase,
                CancelAction::Finish(CancellationResult::IdentityChanged),
            ),
        },
        (CancelPhase::LastLook, CancelEvent::Seen { status, .. }) => match status {
            IdentityStatus::Alive => (CancelPhase::Killing, CancelAction::SendKill),
            IdentityStatus::Dead => (
                phase,
                CancelAction::Finish(CancellationResult::TerminatedDuringGrace),
            ),
            IdentityStatus::Reused => (
                phase,
                CancelAction::Finish(CancellationResult::IdentityChanged),
            ),
        },
        (CancelPhase::Killing, CancelEvent::Sent) => (
            phase,
            CancelAction::Finish(CancellationResult::KilledAfterGrace),
        ),
        (CancelPhase::Killing, CancelEvent::NoSuchGroup) => (
            phase,
            CancelAction::Finish(CancellationResult::TerminatedDuringGrace),
        ),
        _ => (phase, CancelAction::Fail),
    }
}

/// A signal is only sent when the process was just seen to be the expected one, and the group is
/// only killed after the time to end by itself was over.
pub proof fn lemma_signals_follow_identity(phase: CancelPhase, event: CancelEvent)
    ensures
        cancel_next(phase, event).1 == CancelAction::SendTerminate || cancel_next(phase, event).1
            == CancelAction::SendKill ==> {
            event matches CancelEvent::Seen { status, .. } && status == IdentityStatus::Alive
        },
        cancel_next(phase, event).1 == CancelAction::SendKill ==> phase == CancelPhase::LastLook,
        cancel_next(phase, event).0 == CancelPhase::LastLook && phase != CancelPhase::LastLook ==> {
            &&& phase == CancelPhase::Grace
            &&& event matches CancelEvent::Seen { grace_over, .. } && grace_over
        },
        cancel_next(phase, event).0 == CancelPhase::Grace && phase != CancelPhase::Grace ==> {
            &&& phase == CancelPhase::Terminating
            &&& event == CancelEvent::Sent
        },
{
}

/// Decides the next step of a cancellation.
pub fn cancel_validated_group(phase: CancelPhase, event: CancelEvent) -> (r: (
    CancelPhase,
    CancelAction,
))
    ensures
        r == cancel_next(phase, event),
{
    match phase {
        CancelPhase::FirstLook => match event {
            CancelEvent::Seen { status, .. } => match status {
                IdentityStatus::Alive => (CancelPhase::Terminating, CancelAction::SendTerminate),
                IdentityStatus::Dead => (
                    phase,
                    CancelAction::Finish(CancellationResult::AlreadyDead),
                ),
                IdentityStatus::Reused => (
                    phase,
                    CancelAction::Finish(CancellationResult::IdentityChanged),
                ),
            },
            _ => (phase, CancelAction::Fail),
        },
        CancelPhase::Terminating => match event {
            CancelEvent::Sent => (CancelPhase::Grace, CancelAction::Look),
            CancelEvent::NoSuchGroup => (
                phase,
                CancelAction::Finish(CancellationResult::AlreadyDead),
            ),
            _ => (phase, CancelAction::Fail),
        },
        CancelPhase::Grace => match event {
            CancelEvent::Seen { status, grace_over } => match status {
                IdentityStatus::Alive => {
                    if grace_over {
                        (CancelPhase::LastLook, CancelAction::Look)
                    } else {
                        (phase, CancelAction::Pause)
                    }
                },
                IdentityStatus::Dead => (
                    phase,
                    CancelAction::Finish(CancellationResult::TerminatedDuringGrace),
                ),
                IdentityStatus::Reused => (
                    phase,
                    CancelAction::Finish(CancellationResult::IdentityChanged),
                ),
            },
            _ => (phase, CancelAction::Fail),
        },
        CancelPhase::LastLook => match event {
            CancelEvent::Seen { status, .. } => match status {
                IdentityStatus::Alive => (CancelPhase::Killing, CancelAction::SendKill),
                IdentityStatus::Dead => (
                    phase,
                    CancelAction::Finish(CancellationResult::TerminatedDuringGrace),
                ),
                IdentityStatus::Reused => (
                    phase,
                    CancelAction::Finish(CancellationResult::IdentityChanged),
                ),
            },
            _ => (phase, CancelAction::Fail),
        },
        CancelPhase::Killing => match event {
            CancelEvent::Sent => (
                phase,
                CancelAction::Finish(CancellationResult::KilledAfterGrace),
            ),
            CancelEvent::NoSuchGroup => (
                phase,
                CancelAction::Finish(CancellationResult::TerminatedDuringGrace),
            ),
            _ => (phase, CancelAction::Fail),
        },
    }
}

/// The end of a cancellation as the application sees it.
pub fn group_cancellation(result: CancellationResult) -> (r: GroupCancellation)
    ensures
        r == match result {
            CancellationResult::AlreadyDead => GroupCancellation::AlreadyDead,
            CancellationResult::IdentityChanged => GroupCancellation::IdentityChanged,
            CancellationResult::TerminatedDuringGrace => GroupCancellation::TerminatedDuringGrace,
            CancellationResult::KilledAfterGrace => GroupCancellation::KilledAfterGrace,
        },
{
    match result {
        CancellationResult::AlreadyDead => GroupCancellation::AlreadyDead,
        CancellationResult::IdentityChanged => GroupCancellation::IdentityChanged,
        CancellationResult::TerminatedDuringGrace => GroupCancellation::TerminatedDuringGrace,
        CancellationResult::KilledAfterGrace => GroupCancellation::KilledAfterGrace,
    }
}

} // verus!
