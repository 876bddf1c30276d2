//! How processes are told apart, started and stopped.
use crate::application::cancel::GroupCancellation;
use crate::domain::execution::{ExecutionMode, ExecutionSpec};
use crate::domain::run::ProcessIdentitySnapshot;
use crate::infrastructure::process::{
    cancel_validated_group, classify_identity, group_cancellation, last_of, parse_linux_stat,
    parse_mac_process, recovery_status, CancelAction, CancelEvent, CancelPhase, CancellationResult,
    IdentityStatus, NativeProcessInspector, ProcessError, ProcessTable,
};
use crate::infrastructure::spawn::{accept_child, command_line, CommandLine, SpawnError};
use crate::text::{
    all_digits, lemma_digits_value_bounds, lemma_first_of_is, signed_value, texts, trimmed,
    unsigned_value, words,
};
use crate::application::reconcile::IdentityStatus as RecoveryIdentityStatus;
use super::lifecycle::names_a_process;
use vstd::prelude::*;

verus! {

broadcast use vstd::seq::group_seq_axioms;

// ---------------------------------------------------------------------------------------------
// Identity
// ---------------------------------------------------------------------------------------------
/// A process is the expected one only where boot, number, start and group are all the same; without a
/// process it is dead, and any other process has taken its number.
pub proof fn lemma_process_is_told_from_others(
    expected: &ProcessIdentitySnapshot,
    current: Option<&ProcessIdentitySnapshot>,
    r: IdentityStatus,
)
    requires
        call_ensures(classify_identity, (expected, current), r),
    ensures
        r == IdentityStatus::Dead <==> current is None,
        r == IdentityStatus::Alive <==> (current matches Some(seen) && seen.boot_identity@
            == expected.boot_identity@ && seen.pid == expected.pid && seen.start_token
            == expected.start_token && seen.process_group_id == expected.process_group_id),
{
}

/// Recovery sees a reused number as a changed process.
pub proof fn lemma_reused_numbers_are_changed_processes(
    status: IdentityStatus,
    r: RecoveryIdentityStatus,
)
    requires
        call_ensures(recovery_status, (status,), r),
    ensures
        status == IdentityStatus::Alive <==> r == RecoveryIdentityStatus::Alive,
        status == IdentityStatus::Dead <==> r == RecoveryIdentityStatus::Dead,
        status == IdentityStatus::Reused <==> r == RecoveryIdentityStatus::Changed,
{
}

/// The status line of a process gives its number before the name, its group as the third word behind it
/// and its start as the twentieth. The name may hold anything, parentheses and spaces too.
pub proof fn lemma_name_of_a_process_does_not_matter(
    stat: &str,
    boot: &str,
    number: Seq<char>,
    name: Seq<char>,
    rest: Seq<char>,
    r: Result<ProcessIdentitySnapshot, ProcessError>,
)
    requires
        call_ensures(parse_linux_stat, (stat, boot), r),
        stat@ == number + seq!['('] + name + seq![')'] + rest,
        number.len() > 0,
        !number.contains('('),
        !rest.contains(')'),
    ensures
        match r {
            Ok(identity) => {
                &&& names_a_process(identity)
                &&& identity.boot_identity@ == boot@
                &&& unsigned_value(trimmed(number)) == Some(identity.pid as int)
                &&& words(rest).len() >= 20
                &&& signed_value(words(rest)[2]) == Some(identity.process_group_id as int)
                &&& unsigned_value(words(rest)[19]) == Some(identity.start_token as int)
            },
            Err(error) => error == ProcessError::Malformed || error
                == ProcessError::InvalidIdentity,
        },
        r == Err::<ProcessIdentitySnapshot, ProcessError>(ProcessError::Malformed) <==> !{
            &&& words(rest).len() >= 20
            &&& unsigned_value(trimmed(number)) matches Some(pid) && pid <= u32::MAX
            &&& signed_value(words(rest)[2]) matches Some(group) && i32::MIN <= group <= i32::MAX
            &&& unsigned_value(words(rest)[19]) matches Some(start) && start <= u64::MAX
        },
{
    let line = stat@;
    let opening = number.len() as int;
    let closing = (number + seq!['('] + name).len() as int;
    assert(line[opening] == '(');
    assert forall|i: int| 0 <= i < opening implies line[i] != '(' by {
        assert(line[i] == number[i]);
    }
    lemma_first_of_is(line, '(', opening);
    assert(line[closing] == ')');
    assert forall|i: int| closing < i < line.len() implies line[i] != ')' by {
        assert(line[i] == rest[i - closing - 1]);
    }
    lemma_last_of_is(line, ')', closing);
    assert(line.take(opening) =~= number);
    assert(line.skip(closing + 1) =~= rest);
    lemma_numbers_are_not_negative(trimmed(number));
    if words(rest).len() >= 20 {
        lemma_numbers_are_not_negative(words(rest)[19]);
    }
}

proof fn lemma_numbers_are_not_negative(text: Seq<char>)
    ensures
        unsigned_value(text) matches Some(number) ==> number >= 0,
{
    if text.len() > 0 && text[0] == '+' {
        if all_digits(text.drop_first()) {
            lemma_digits_value_bounds(text.drop_first());
        }
    } else if all_digits(text) {
        lemma_digits_value_bounds(text);
    }
}

proof fn lemma_last_of_is(text: Seq<char>, c: char, at: int)
    requires
        0 <= at < text.len(),
        text[at] == c,
        forall|i: int| at < i < text.len() ==> text[i] != c,
    ensures
        last_of(text, c) == at,
    decreases text.len(),
{
    if at < text.len() - 1 {
        assert(text.last() != c);
        lemma_last_of_is(text.drop_last(), c, at);
    }
}

/// A process of macOS is told by the microsecond at which it started.
pub proof fn lemma_start_is_counted_in_microseconds(
    boot: &str,
    pid: u32,
    seconds: u64,
    micros: u64,
    group: u32,
    r: Result<ProcessIdentitySnapshot, ProcessError>,
)
    requires
        call_ensures(parse_mac_process, (boot, pid, seconds, micros, group), r),
    ensures
        r matches Ok(identity) ==> {
            &&& names_a_process(identity)
            &&& identity.boot_identity@ == boot@
            &&& identity.pid == pid
            &&& identity.start_token == seconds * 1_000_000 + micros
            &&& identity.process_group_id == group
        },
        r is Ok <==> boot@.len() > 0 && !boot@.contains('\0') && pid > 0 && 0 < group <= i32::MAX
            && 0 < seconds * 1_000_000 + micros <= u64::MAX,
{
}

// ---------------------------------------------------------------------------------------------
// Starting
// ---------------------------------------------------------------------------------------------
/// A command is started with exactly its arguments, which no shell sees; only a command for a shell is
/// handed to one, as a single text.
pub proof fn lemma_arguments_reach_the_command(
    execution: &ExecutionSpec,
    r: Result<CommandLine, SpawnError>,
)
    requires
        call_ensures(command_line, (execution,), r),
    ensures
        r is Ok,
        execution@.mode == ExecutionMode::Direct ==> (seq![r->Ok_0.program@] + texts(
            r->Ok_0.arguments@,
        )) == execution@.argv,
        execution@.mode == ExecutionMode::Shell ==> {
            &&& execution@.shell_path == Some(r->Ok_0.program@)
            &&& texts(r->Ok_0.arguments@) == seq!["-c"@, execution@.argv[0]]
        },
{
    let line = r->Ok_0;
    if execution@.mode == ExecutionMode::Direct {
        assert((seq![line.program@] + texts(line.arguments@)) =~= execution@.argv);
    }
}

/// A command that was started has to lead a process group of its own.
pub proof fn lemma_commands_lead_their_group(
    inspected: Result<Option<ProcessIdentitySnapshot>, ProcessError>,
    r: Result<ProcessIdentitySnapshot, SpawnError>,
)
    requires
        call_ensures(accept_child, (inspected,), r),
    ensures
        match r {
            Ok(identity) => inspected == Ok::<Option<ProcessIdentitySnapshot>, ProcessError>(
                Some(identity),
            ) && identity.pid == identity.process_group_id,
            Err(SpawnError::ProcessGroupSetup) => inspected matches Ok(Some(identity))
                && identity.pid != identity.process_group_id,
            Err(SpawnError::ExitedBeforeInspection) => inspected == Ok::<
                Option<ProcessIdentitySnapshot>,
                ProcessError,
            >(None),
            Err(SpawnError::Inspection(error)) => inspected == Err::<
                Option<ProcessIdentitySnapshot>,
                ProcessError,
            >(error),
            Err(_) => false,
        },
{
}

// ---------------------------------------------------------------------------------------------
// Stopping
// ---------------------------------------------------------------------------------------------
/// A group is asked to end at the first look, and killed at the last, only where the process was just seen
/// to be the expected one. A process that is gone or was replaced is never signalled.
pub proof fn lemma_only_the_expected_process_is_signalled(
    phase: CancelPhase,
    event: CancelEvent,
    r: (CancelPhase, CancelAction),
)
    requires
        call_ensures(cancel_validated_group, (phase, event), r),
    ensures
        r.1 == CancelAction::SendTerminate <==> phase == CancelPhase::FirstLook && (event matches
            CancelEvent::Seen { status, .. } && status == IdentityStatus::Alive),
        r.1 == CancelAction::SendKill <==> phase == CancelPhase::LastLook && (event matches
            CancelEvent::Seen { status, .. } && status == IdentityStatus::Alive),
        r.1 == CancelAction::Pause <==> phase == CancelPhase::Grace && (event matches
            CancelEvent::Seen { status, grace_over } && status == IdentityStatus::Alive
            && !grace_over),
        r.0 == CancelPhase::LastLook && phase != CancelPhase::LastLook <==> phase
            == CancelPhase::Grace && (event matches CancelEvent::Seen { status, grace_over }
            && status == IdentityStatus::Alive && grace_over),
        event matches CancelEvent::Seen { status, .. } ==> phase == CancelPhase::FirstLook || phase
            == CancelPhase::Grace || phase == CancelPhase::LastLook ==> {
            &&& status == IdentityStatus::Reused <==> r.1 == CancelAction::Finish(
                CancellationResult::IdentityChanged,
            )
            &&& status == IdentityStatus::Dead ==> r.1 == CancelAction::Finish(
                if phase == CancelPhase::FirstLook {
                    CancellationResult::AlreadyDead
                } else {
                    CancellationResult::TerminatedDuringGrace
                },
            )
        },
        r.1 == CancelAction::Finish(CancellationResult::KilledAfterGrace) <==> phase
            == CancelPhase::Killing && event == CancelEvent::Sent,
        event == CancelEvent::SendFailed ==> r.1 == CancelAction::Fail,
        r.1 == CancelAction::SendTerminate ==> r.0 == CancelPhase::Terminating,
        r.1 == CancelAction::SendKill ==> r.0 == CancelPhase::Killing,
        phase == CancelPhase::Terminating && event == CancelEvent::Sent ==> r == (
            CancelPhase::Grace,
            CancelAction::Look,
        ),
        phase == CancelPhase::Terminating && event == CancelEvent::NoSuchGroup ==> r.1
            == CancelAction::Finish(CancellationResult::AlreadyDead),
        phase == CancelPhase::Killing && event == CancelEvent::NoSuchGroup ==> r.1
            == CancelAction::Finish(CancellationResult::TerminatedDuringGrace),
{
}

/// The end of a cancellation is reported as it was.
pub proof fn lemma_end_of_a_cancellation_is_reported(
    result: CancellationResult,
    r: GroupCancellation,
)
    requires
        call_ensures(group_cancellation, (result,), r),
    ensures
        result == CancellationResult::AlreadyDead <==> r == GroupCancellation::AlreadyDead,
        result == CancellationResult::IdentityChanged <==> r == GroupCancellation::IdentityChanged,
        result == CancellationResult::TerminatedDuringGrace <==> r
            == GroupCancellation::TerminatedDuringGrace,
        result == CancellationResult::KilledAfterGrace <==> r
            == GroupCancellation::KilledAfterGrace,
{
}

/// A process is looked at by its number and compared with what was expected; an incomplete identity is
/// refused.
pub proof fn lemma_expected_process_is_looked_at<Table: ProcessTable>(
    inspector: &NativeProcessInspector<Table>,
    expected: &ProcessIdentitySnapshot,
    r: Result<IdentityStatus, ProcessError>,
)
    requires
        call_ensures(NativeProcessInspector::<Table>::classify_process, (inspector, expected), r),
    ensures
        !names_a_process(*expected) ==> r == Err::<IdentityStatus, ProcessError>(
            ProcessError::InvalidIdentity,
        ),
        names_a_process(*expected) ==> exists|
            boot: &str,
            found: Result<Option<ProcessIdentitySnapshot>, ProcessError>,
        |
            {
                &&& #[trigger] call_ensures(
                    Table::look_up,
                    (&inspector.spec_table(), expected.pid, boot),
                    found,
                )
                &&& boot@ == inspector.spec_boot_identity()
                &&& r == Ok::<IdentityStatus, ProcessError>(IdentityStatus::Alive) <==> (found
                    matches Ok(Some(current)) && current@ == expected@)
                &&& r == Ok::<IdentityStatus, ProcessError>(IdentityStatus::Dead) <==> (found
                    matches Ok(None))
                &&& r is Err <==> found is Err
            },
{
}

} // verus!
