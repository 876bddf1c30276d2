//! The names under which states and policies are stored.
use vstd::prelude::*;

use crate::domain::schedule::{MissedPolicy, RuntimeTier};
use crate::domain::state::{JobState, RunState};
use crate::domain::transition::TransitionActor;
use crate::text::text_eq;

verus! {

/// The stored name of a job state.
pub open spec fn job_state_name(state: JobState) -> Seq<char> {
    match state {
        JobState::Scheduled => "scheduled"@,
        JobState::Waiting => "waiting"@,
        JobState::Starting => "starting"@,
        JobState::Running => "running"@,
        JobState::CancelRequested => "cancel_requested"@,
        JobState::Succeeded => "succeeded"@,
        JobState::Failed => "failed"@,
        JobState::Cancelled => "cancelled"@,
        JobState::Interrupted => "interrupted"@,
        JobState::Missed => "missed"@,
    }
}

/// The job state with a stored name.
pub open spec fn job_state_named(name: Seq<char>) -> Option<JobState> {
    if name == "scheduled"@ {
        Some(JobState::Scheduled)
    } else if name == "waiting"@ {
        Some(JobState::Waiting)
    } else if name == "starting"@ {
        Some(JobState::Starting)
    } else if name == "running"@ {
        Some(JobState::Running)
    } else if name == "cancel_requested"@ {
        Some(JobState::CancelRequested)
    } else if name == "succeeded"@ {
        Some(JobState::Succeeded)
    } else if name == "failed"@ {
        Some(JobState::Failed)
    } else if name == "cancelled"@ {
        Some(JobState::Cancelled)
    } else if name == "interrupted"@ {
        Some(JobState::Interrupted)
    } else if name == "missed"@ {
        Some(JobState::Missed)
    } else {
        None
    }
}

/// The stored name of a run state.
pub open spec fn run_state_name(state: RunState) -> Seq<char> {
    match state {
        RunState::Starting => "starting"@,
        RunState::Running => "running"@,
        RunState::CancelRequested => "cancel_requested"@,
        RunState::Succeeded => "succeeded"@,
        RunState::Failed => "failed"@,
        RunState::Cancelled => "cancelled"@,
        RunState::Interrupted => "interrupted"@,
    }
}

/// The run state with a stored name.
pub open spec fn run_state_named(name: Seq<char>) -> Option<RunState> {
    if name == "starting"@ {
        Some(RunState::Starting)
    } else if name == "running"@ {
        Some(RunState::Running)
    } else if name == "cancel_requested"@ {
        Some(RunState::CancelRequested)
    } else if name == "succeeded"@ {
        Some(RunState::Succeeded)
    } else if name == "failed"@ {
        Some(RunState::Failed)
    } else if name == "cancelled"@ {
        Some(RunState::Cancelled)
    } else if name == "interrupted"@ {
        Some(RunState::Interrupted)
    } else {
        None
    }
}

/// The stored name of a runtime tier.
pub open spec fn tier_name(tier: RuntimeTier) -> Seq<char> {
    match tier {
        RuntimeTier::Session => "session"@,
        RuntimeTier::Durable => "durable"@,
    }
}

/// The runtime tier with a stored name.
pub open spec fn tier_named(name: Seq<char>) -> Option<RuntimeTier> {
    if name == "session"@ {
        Some(RuntimeTier::Session)
    } else if name == "durable"@ {
        Some(RuntimeTier::Durable)
    } else {
        None
    }
}

/// The stored name of a missed policy.
pub open spec fn policy_name(policy: MissedPolicy) -> Seq<char> {
    match policy {
        MissedPolicy::Hold => "hold"@,
        MissedPolicy::RunLatest => "run_latest"@,
        MissedPolicy::Skip => "skip"@,
    }
}

/// The missed policy with a stored name.
pub open spec fn policy_named(name: Seq<char>) -> Option<MissedPolicy> {
    if name == "hold"@ {
        Some(MissedPolicy::Hold)
    } else if name == "run_latest"@ {
        Some(MissedPolicy::RunLatest)
    } else if name == "skip"@ {
        Some(MissedPolicy::Skip)
    } else {
        None
    }
}

/// The stored name of an actor.
pub open spec fn actor_name(actor: TransitionActor) -> Seq<char> {
    match actor {
        TransitionActor::Cli => "cli"@,
        TransitionActor::Supervisor => "supervisor"@,
        TransitionActor::Monitor => "monitor"@,
        TransitionActor::Recovery => "recovery"@,
        TransitionActor::Retention => "retention"@,
    }
}

/// Every stored name of a job state, run state, tier or policy names that value and no other.
pub proof fn lemma_names_read_back(
    job: JobState,
    run: RunState,
    tier: RuntimeTier,
    policy: MissedPolicy,
)
    ensures
        job_state_named(job_state_name(job)) == Some(job),
        run_state_named(run_state_name(run)) == Some(run),
        tier_named(tier_name(tier)) == Some(tier),
        policy_named(policy_name(policy)) == Some(policy),
{
    lemma_lengths();
    reveal_strlit("scheduled");
    reveal_strlit("succeeded");
    reveal_strlit("cancelled");
    reveal_strlit("waiting");
    reveal_strlit("running");
    reveal_strlit("failed");
    reveal_strlit("missed");
    reveal_strlit("hold");
    reveal_strlit("skip");
    assert("scheduled"@[1] == 'c' && "succeeded"@[1] == 'u' && "cancelled"@[1] == 'a');
    assert("waiting"@[0] == 'w' && "running"@[0] == 'r');
    assert("failed"@[0] == 'f' && "missed"@[0] == 'm');
    assert("hold"@[0] == 'h' && "skip"@[0] == 's');
    reveal_strlit("session");
    reveal_strlit("durable");
    assert("session"@[0] == 's' && "durable"@[0] == 'd');
}

proof fn lemma_lengths()
    ensures
        "scheduled"@.len() == 9,
        "waiting"@.len() == 7,
        "starting"@.len() == 8,
        "running"@.len() == 7,
        "cancel_requested"@.len() == 16,
        "succeeded"@.len() == 9,
        "failed"@.len() == 6,
        "cancelled"@.len() == 9,
        "interrupted"@.len() == 11,
        "missed"@.len() == 6,
        "hold"@.len() == 4,
        "run_latest"@.len() == 10,
        "skip"@.len() == 4,
{
    reveal_strlit("scheduled");
    reveal_strlit("waiting");
    reveal_strlit("starting");
    reveal_strlit("running");
    reveal_strlit("cancel_requested");
    reveal_strlit("succeeded");
    reveal_strlit("failed");
    reveal_strlit("cancelled");
    reveal_strlit("interrupted");
    reveal_strlit("missed");
    reveal_strlit("hold");
    reveal_strlit("run_latest");
    reveal_strlit("skip");
}

/// The stored name of a job state.
pub fn encode_job_state(state: JobState) -> (r: &'static str)
    ensures
        r@ == job_state_name(state),
{
    match state {
        JobState::Scheduled => "scheduled",
        JobState::Waiting => "waiting",
        JobState::Starting => "starting",
        JobState::Running => "running",
        JobState::CancelRequested => "cancel_requested",
        JobState::Succeeded => "succeeded",
        JobState::Failed => "failed",
        JobState::Cancelled => "cancelled",
        JobState::Interrupted => "interrupted",
        JobState::Missed => "missed",
    }
}

/// The job state with a stored name.
pub fn decode_job_state(value: &str) -> (r: Option<JobState>)
    ensures
        r == job_state_named(value@),
{
    if text_eq(value, "scheduled") {
        Some(JobState::Scheduled)
    } else if text_eq(value, "waiting") {
        Some(JobState::Waiting)
    } else if text_eq(value, "starting") {
        Some(JobState::Starting)
    } else if text_eq(value, "running") {
        Some(JobState::Running)
    } else if text_eq(value, "cancel_requested") {
        Some(JobState::CancelRequested)
    } else if text_eq(value, "succeeded") {
        Some(JobState::Succeeded)
    } else if text_eq(value, "failed") {
        Some(JobState::Failed)
    } else if text_eq(value, "cancelled") {
        Some(JobState::Cancelled)
    } else if text_eq(value, "interrupted") {
        Some(JobState::Interrupted)
    } else if text_eq(value, "missed") {
        Some(JobState::Missed)
    } else {
        None
    }
}

/// The stored name of a run state.
pub fn encode_run_state(state: RunState) -> (r: &'static str)
    ensures
        r@ == run_state_name(state),
{
    match state {
        RunState::Starting => "starting",
        RunState::Running => "running",
        RunState::CancelRequested => "cancel_requested",
        RunState::Succeeded => "succeeded",
        RunState::Failed => "failed",
        RunState::Cancelled => "cancelled",
        RunState::Interrupted => "interrupted",
    }
}

/// The stored name of a runtime tier.
pub fn encode_tier(tier: RuntimeTier) -> (r: &'static str)
    ensures
        r@ == tier_name(tier),
{
    match tier {
        RuntimeTier::Session => "session",
        RuntimeTier::Durable => "durable",
    }
}

/// The runtime tier with a stored name.
pub fn decode_tier(value: &str) -> (r: Option<RuntimeTier>)
    ensures
        r == tier_named(value@),
{
    if text_eq(value, "session") {
        Some(RuntimeTier::Session)
    } else if text_eq(value, "durable") {
        Some(RuntimeTier::Durable)
    } else {
        None
    }
}

/// The stored name of a missed policy.
pub fn encode_policy(policy: MissedPolicy) -> (r: &'static str)
    ensures
        r@ == policy_name(policy),
{
    match policy {
        MissedPolicy::Hold => "hold",
        MissedPolicy::RunLatest => "run_latest",
        MissedPolicy::Skip => "skip",
    }
}

/// The missed policy with a stored name.
pub fn decode_policy(value: &str) -> (r: Option<MissedPolicy>)
    ensures
        r == policy_named(value@),
{
    if text_eq(value, "hold") {
        Some(MissedPolicy::Hold)
    } else if text_eq(value, "run_latest") {
        Some(MissedPolicy::RunLatest)
    } else if text_eq(value, "skip") {
        Some(MissedPolicy::Skip)
    } else {
        None
    }
}

/// The stored name of an actor.
pub fn encode_actor(actor: TransitionActor) -> (r: &'static str)
    ensures
        r@ == actor_name(actor),
{
    match actor {
        TransitionActor::Cli => "cli",
        TransitionActor::Supervisor => "supervisor",
        TransitionActor::Monitor => "monitor",
        TransitionActor::Recovery => "recovery",
        TransitionActor::Retention => "retention",
    }
}

} // verus!
