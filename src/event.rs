//! Typed webhook events and the authentication pipeline that admits them.

use vstd::prelude::*;
use crate::cache::CommitRecord;
use crate::compose::RunConclusion;
use crate::config::{opt_view, ConfigStore, RepoAuth, RepoSettings};
use crate::error::Error;
use crate::signature::{signature_outcome, verify_signature};
use crate::text::{has_prefix, starts_with};

verus! {

/// A push: the ref pushed to, the commit it now points at, and its commits.
pub struct PushEvent {
    pub git_ref: String,
    pub after: String,
    pub head_commit_message: Option<String>,
    pub commits: Vec<CommitRecord>,
}

/// The transition a workflow-run delivery reports.
#[derive(Debug, Clone, Copy, PartialEq, Eq, Structural)]
pub enum RunAction {
    Requested,
    InProgress,
    Completed,
    Other,
}

/// A workflow-run delivery, with the run fields that the notification reads.
/// Instants are Unix seconds.
pub struct WorkflowRunEvent {
    pub action: RunAction,
    pub run_id: u64,
    pub run_number: u64,
    pub path: String,
    pub head_sha: String,
    pub head_branch: Option<String>,
    pub html_url: String,
    pub conclusion: Option<RunConclusion>,
    pub run_started_at: i64,
    pub created_at: i64,
    pub updated_at: i64,
}

/// The event kinds that are acted on, and a catch-all that is accepted and ignored.
pub enum EventPayload {
    Push(PushEvent),
    WorkflowRun(WorkflowRunEvent),
    Other,
}

/// The first step of admission: the event-kind header must be present.
pub fn check_event_header(header: Option<&str>) -> (r: Result<(), Error>)
    ensures
        r is Ok <==> header is Some,
        header is None ==> r == Err::<(), Error>(Error::InvalidHeader),
{
    match header {
        Some(_) => Ok(()),
        None => Err(Error::InvalidHeader),
    }
}

/// The outcome of admitting a parsed event: repository known, configured, and the
/// signature header present, well-formed and matching the configured secret.
pub open spec fn admission(
    store: Seq<RepoAuth>,
    repository_url: Option<Seq<char>>,
    signature_header: Option<Seq<char>>,
    body: Seq<u8>,
) -> Result<RepoAuth, Error> {
    match repository_url {
        None => Err(Error::InvalidRepository),
        Some(url) => match crate::config::last_for(store, url) {
            None => Err(Error::InvalidConfig),
            Some(auth) => match signature_header {
                None => Err(Error::MissingSignatureHeader),
                Some(h) => match signature_outcome(body, auth.webhook_secret@, h) {
                    Err(e) => Err(e),
                    Ok(false) => Err(Error::InvalidSignature),
                    Ok(true) => Ok(auth),
                },
            },
        },
    }
}

/// Admits a parsed event: finds the repository's configuration and checks the
/// body's signature against its secret, stopping at the first failure.
pub fn authenticate<'a>(
    store: &'a ConfigStore,
    repository_url: Option<&str>,
    signature_header: Option<&str>,
    body: &[u8],
) -> (r: Result<&'a RepoAuth, Error>)
    ensures
        (match r {
            Ok(a) => admission(
                store@,
                match repository_url {
                    Some(u) => Some(u@),
                    None => None,
                },
                match signature_header {
                    Some(h) => Some(h@),
                    None => None,
                },
                body@,
            ) == Ok::<RepoAuth, Error>(*a),
            Err(e) => admission(
                store@,
                match repository_url {
                    Some(u) => Some(u@),
                    None => None,
                },
                match signature_header {
                    Some(h) => Some(h@),
                    None => None,
                },
                body@,
            ) == Err::<RepoAuth, Error>(e),
        }),
{
    let url = match repository_url {
        Some(u) => u,
        None => {
            return Err(Error::InvalidRepository);
        },
    };
    let auth = match store.get(url) {
        Some(a) => a,
        None => {
            return Err(Error::InvalidConfig);
        },
    };
    let header = match signature_header {
        Some(h) => h,
        None => {
            return Err(Error::MissingSignatureHeader);
        },
    };
    match verify_signature(body, auth.webhook_secret.as_str(), header) {
        Err(e) => Err(e),
        Ok(false) => Err(Error::InvalidSignature),
        Ok(true) => Ok(auth),
    }
}

/// The branch named by a full ref, if it is a branch ref.
pub open spec fn branch_of_ref(r: Seq<char>) -> Option<Seq<char>> {
    if has_prefix(r, "refs/heads/"@) {
        Some(r.skip("refs/heads/"@.len() as int))
    } else {
        None
    }
}

/// Strips `refs/heads/` from a ref; other refs name no branch.
pub fn branch_from_ref(r: &str) -> (b: Option<String>)
    ensures
        opt_view(b) == branch_of_ref(r@),
{
    let prefix = "refs/heads/";
    if starts_with(r, prefix) {
        let n = r.unicode_len();
        let m = prefix.unicode_len();
        let rest = r.substring_char(m, n);
        assert(rest@ =~= r@.skip(prefix@.len() as int));
        Some(String::from_str(rest))
    } else {
        None
    }
}

/// The branch that triggered an event: the pushed branch, the run's head branch, or none.
pub open spec fn event_branch_spec(p: EventPayload) -> Option<Seq<char>> {
    match p {
        EventPayload::Push(push) => branch_of_ref(push.git_ref@),
        EventPayload::WorkflowRun(run) => opt_view(run.head_branch),
        EventPayload::Other => None,
    }
}

/// Derives the triggering branch of an event.
pub fn event_branch(p: &EventPayload) -> (r: Option<String>)
    ensures
        opt_view(r) == event_branch_spec(*p),
{
    match p {
        EventPayload::Push(push) => branch_from_ref(push.git_ref.as_str()),
        EventPayload::WorkflowRun(run) => match &run.head_branch {
            Some(b) => Some(b.clone()),
            None => None,
        },
        EventPayload::Other => None,
    }
}

/// The branch shown in a notification, or a placeholder when none was derived.
pub fn branch_label(branch: &Option<String>) -> (r: String)
    ensures
        r@ == (match *branch {
            Some(b) => b@,
            None => "[Unknown Branch]"@,
        }),
{
    match branch {
        Some(b) => b.clone(),
        None => String::from_str("[Unknown Branch]"),
    }
}

/// Attaches fetched preview settings to an event. A workflow run cannot be handled
/// without them; a push and other events go on without.
pub fn attach_settings(p: &EventPayload, fetched: Option<RepoSettings>) -> (r: Result<
    Option<RepoSettings>,
    Error,
>)
    ensures
        (p is WorkflowRun && fetched is None) ==> r == Err::<Option<RepoSettings>, Error>(
            Error::FailedToGetRepoConfig,
        ),
        !(p is WorkflowRun && fetched is None) ==> r == Ok::<Option<RepoSettings>, Error>(fetched),
{
    match p {
        EventPayload::WorkflowRun(_) => match fetched {
            None => Err(Error::FailedToGetRepoConfig),
            Some(s) => Ok(Some(s)),
        },
        _ => Ok(fetched),
    }
}

} // verus!
