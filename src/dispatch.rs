//! Routing of admitted events: cache updates for pushes, and the per-run lifecycle
//! that posts a message when a run starts and edits it when the run ends.

use vstd::prelude::*;
use crate::cache::{resolved, CommitCache, RunCorrelator};
use crate::config::{is_tracked, RepoSettings};
use crate::duration::{duration_text, format_duration};
use crate::error::Error;
use crate::event::{PushEvent, RunAction, WorkflowRunEvent};
use crate::text::{contains, text_contains};
use crate::ttl_map::expiry;

verus! {

/// A head-commit message carrying one of these markers is not cached.
pub open spec fn is_skip_text(message: Seq<char>) -> bool {
    text_contains(message, "[skip ci]"@) || text_contains(message, "[ci skip]"@)
        || text_contains(message, "[no ci]"@) || text_contains(message, "[skip actions]"@)
        || text_contains(message, "[actions skip]"@)
}

/// Whether a commit message asks CI to skip it (markers are case-sensitive).
pub fn is_skip_message(message: &str) -> (r: bool)
    ensures
        r == is_skip_text(message@),
{
    contains(message, "[skip ci]") || contains(message, "[ci skip]") || contains(message, "[no ci]")
        || contains(message, "[skip actions]") || contains(message, "[actions skip]")
}

/// Handles a push: caches its commits under the head SHA, unless the head commit
/// asks to skip CI. A push without a head commit is an error and changes nothing.
pub fn handle_push(cache: &mut CommitCache, push: PushEvent, now: u64) -> (r: Result<(), Error>)
    requires
        old(cache).wf(),
    ensures
        final(cache).wf(),
        final(cache).ttl_spec() == old(cache).ttl_spec(),
        push.head_commit_message is None ==> r == Err::<(), Error>(Error::FailedToUnwrapValue)
            && final(cache)@ == old(cache)@,
        push.head_commit_message is Some && is_skip_text(push.head_commit_message.unwrap()@) ==> r
            == Ok::<(), Error>(()) && final(cache)@ == old(cache)@,
        push.head_commit_message is Some && !is_skip_text(push.head_commit_message.unwrap()@) ==> r
            == Ok::<(), Error>(()) && final(cache)@ == old(cache)@.insert(
            push.after@,
            (push.commits@, expiry(now, old(cache).ttl_spec())),
        ),
{
    let skip = match &push.head_commit_message {
        None => {
            return Err(Error::FailedToUnwrapValue);
        },
        Some(m) => is_skip_message(m.as_str()),
    };
    if !skip {
        cache.put(push.after, push.commits, now);
    }
    Ok(())
}

/// What to do with a workflow-run delivery.
#[derive(Debug, Clone, Copy, PartialEq, Eq, Structural)]
pub enum RunStep {
    /// Not a tracked workflow, or a transition that is not acted on.
    Ignore,
    /// Post a new message for the run, then record it.
    Announce,
    /// Edit the run's message, then forget the run.
    Update { message_id: u64 },
}

/// The step for a delivery of `action` on run `run_id`, given whether its workflow
/// is tracked and the correlations at `now`.
pub open spec fn run_step(
    watched: bool,
    action: RunAction,
    correlations: Map<u64, (u64, u64)>,
    run_id: u64,
    now: u64,
) -> Result<RunStep, Error> {
    if !watched {
        Ok(RunStep::Ignore)
    } else {
        match action {
            RunAction::InProgress => Ok(RunStep::Announce),
            RunAction::Completed => match resolved(correlations, run_id, now) {
                Some(m) => Ok(RunStep::Update { message_id: m }),
                None => Err(Error::CannotFindMessage),
            },
            _ => Ok(RunStep::Ignore),
        }
    }
}

/// Decides what a workflow-run delivery leads to. A completed run with no live
/// correlation is a miss.
pub fn plan_run(
    settings: &RepoSettings,
    run: &WorkflowRunEvent,
    correlator: &RunCorrelator,
    now: u64,
) -> (r: Result<RunStep, Error>)
    requires
        correlator.wf(),
    ensures
        r == run_step(
            is_tracked(settings.workflows@, run.path@),
            run.action,
            correlator@,
            run.run_id,
            now,
        ),
{
    if !settings.tracks(run.path.as_str()) {
        return Ok(RunStep::Ignore);
    }
    match run.action {
        RunAction::InProgress => Ok(RunStep::Announce),
        RunAction::Completed => match correlator.resolve(run.run_id, now) {
            Some(m) => Ok(RunStep::Update { message_id: m }),
            None => Err(Error::CannotFindMessage),
        },
        _ => Ok(RunStep::Ignore),
    }
}

/// Records the message posted for a run; a failed post records nothing.
pub fn record_announcement(
    correlator: &mut RunCorrelator,
    run_id: u64,
    sent: Option<u64>,
    now: u64,
) -> (r: Result<(), Error>)
    requires
        old(correlator).wf(),
    ensures
        final(correlator).wf(),
        final(correlator).ttl_spec() == old(correlator).ttl_spec(),
        sent is None ==> r == Err::<(), Error>(Error::FailedToSendMessage) && final(correlator)@
            == old(correlator)@,
        sent is Some ==> r == Ok::<(), Error>(()) && final(correlator)@ == old(correlator)@.insert(
            run_id,
            (sent.unwrap(), expiry(now, old(correlator).ttl_spec())),
        ),
{
    match sent {
        None => Err(Error::FailedToSendMessage),
        Some(m) => {
            correlator.record(run_id, m, now);
            Ok(())
        },
    }
}

/// Ends a run's lifecycle after its edit was attempted, whatever came of the edit.
pub fn finish_run(correlator: &mut RunCorrelator, run_id: u64)
    requires
        old(correlator).wf(),
    ensures
        final(correlator).wf(),
        final(correlator).ttl_spec() == old(correlator).ttl_spec(),
        final(correlator)@ == old(correlator)@.remove(run_id),
{
    correlator.forget(run_id);
}

/// The time between a run's creation and its last update, clamped to the range of `i64`.
pub open spec fn elapsed_seconds(created_at: i64, updated_at: i64) -> int {
    let d = updated_at - created_at;
    if d > i64::MAX {
        i64::MAX as int
    } else if d < i64::MIN {
        i64::MIN as int
    } else {
        d
    }
}

/// How long a run took, in words.
pub fn run_time_taken(run: &WorkflowRunEvent) -> (r: String)
    ensures
        r@ == duration_text(elapsed_seconds(run.created_at, run.updated_at)),
{
    let d: i128 = run.updated_at as i128 - run.created_at as i128;
    let clamped: i64 = if d > i64::MAX as i128 {
        i64::MAX
    } else if d < i64::MIN as i128 {
        i64::MIN
    } else {
        d as i64
    };
    format_duration(clamped)
}

/// A tracked run's start posts one message and adds exactly one correlation; its
/// completion, within the time-to-live, edits that message; once the run is
/// forgotten, another completion is a miss and posts nothing.
pub proof fn lemma_run_lifecycle(
    correlations: Map<u64, (u64, u64)>,
    ttl: u64,
    run_id: u64,
    message_id: u64,
    started: u64,
    completed: u64,
    again: u64,
)
    requires
        completed < expiry(started, ttl),
    ensures
        run_step(true, RunAction::InProgress, correlations, run_id, started) == Ok::<RunStep, Error>(
            RunStep::Announce,
        ),
        correlations.insert(run_id, (message_id, expiry(started, ttl))).dom() == correlations.dom().insert(
            run_id,
        ),
        run_step(
            true,
            RunAction::Completed,
            correlations.insert(run_id, (message_id, expiry(started, ttl))),
            run_id,
            completed,
        ) == Ok::<RunStep, Error>(RunStep::Update { message_id }),
        run_step(
            true,
            RunAction::Completed,
            correlations.insert(run_id, (message_id, expiry(started, ttl))).remove(run_id),
            run_id,
            again,
        ) == Err::<RunStep, Error>(Error::CannotFindMessage),
{
    assert(correlations.insert(run_id, (message_id, expiry(started, ttl))).dom() =~= correlations.dom().insert(run_id));
}

} // verus!
