use ci_preview::cache::RunCorrelator;
use ci_preview::compose::RunConclusion;
use ci_preview::config::{ConfigStore, ModVersionVariable, RepoAuth, RepoSettings};
use ci_preview::dispatch::{finish_run, plan_run, record_announcement, run_time_taken, RunStep};
use ci_preview::error::Error;
use ci_preview::event::{
    attach_settings, authenticate, branch_from_ref, branch_label, check_event_header, event_branch,
    EventPayload, PushEvent, RunAction, WorkflowRunEvent,
};

fn store() -> ConfigStore {
    ConfigStore::from_entries(vec![
        RepoAuth {
            repository_url: "https://github.com/o/r".to_string(),
            webhook_secret: "old".to_string(),
            channel_id: 1,
        },
        RepoAuth {
            repository_url: "https://github.com/o/other".to_string(),
            webhook_secret: "x".to_string(),
            channel_id: 2,
        },
        RepoAuth {
            repository_url: "https://github.com/o/r".to_string(),
            webhook_secret: "s3cret".to_string(),
            channel_id: 3,
        },
    ])
}

fn sign(body: &[u8], secret: &str) -> String {
    format!("sha256={}", hex::encode(hmac_sha256::HMAC::mac(body, secret.as_bytes())))
}

fn settings() -> RepoSettings {
    RepoSettings {
        minecraft_version: "1.20.1".to_string(),
        workflows: vec![".github/workflows/build.yml".to_string()],
        mod_version: ModVersionVariable {
            path: "gradle.properties".to_string(),
            regex: "v=(.*)".to_string(),
            group: 1,
            format: None,
        },
        buttons: Vec::new(),
    }
}

fn run(action: RunAction, path: &str) -> WorkflowRunEvent {
    WorkflowRunEvent {
        action,
        run_id: 555,
        run_number: 8,
        path: path.to_string(),
        head_sha: "abc".to_string(),
        head_branch: Some("dev".to_string()),
        html_url: "https://github.com/o/r/actions/runs/555".to_string(),
        conclusion: Some(RunConclusion::Success),
        run_started_at: 100,
        created_at: 100,
        updated_at: 161,
    }
}

#[test]
fn config_lookup_prefers_last_entry() {
    let s = store();
    assert_eq!(s.get("https://github.com/o/r").unwrap().channel_id, 3);
    assert_eq!(s.get("https://github.com/o/other").unwrap().channel_id, 2);
    assert!(s.get("https://github.com/o/none").is_none());
}

#[test]
fn authenticate_accepts_signed_body() {
    let s = store();
    let body = b"{}";
    let h = sign(body, "s3cret");
    let auth = authenticate(&s, Some("https://github.com/o/r"), Some(&h), body).unwrap();
    assert_eq!(auth.channel_id, 3);
}

#[test]
fn authenticate_errors_in_order() {
    let s = store();
    let body = b"{}";
    let good = sign(body, "s3cret");
    assert_eq!(authenticate(&s, None, Some(&good), body).err(), Some(Error::InvalidRepository));
    assert_eq!(
        authenticate(&s, Some("https://github.com/o/none"), None, body).err(),
        Some(Error::InvalidConfig)
    );
    assert_eq!(
        authenticate(&s, Some("https://github.com/o/r"), None, body).err(),
        Some(Error::MissingSignatureHeader)
    );
    assert_eq!(
        authenticate(&s, Some("https://github.com/o/r"), Some("md5=00"), body).err(),
        Some(Error::MissingSignaturePrefix)
    );
    assert_eq!(
        authenticate(&s, Some("https://github.com/o/r"), Some("sha256=xyz0"), body).err(),
        Some(Error::InvalidSignatureHex)
    );
    let stale = sign(body, "old");
    assert_eq!(
        authenticate(&s, Some("https://github.com/o/r"), Some(&stale), body).err(),
        Some(Error::InvalidSignature)
    );
}

#[test]
fn event_header_required() {
    assert_eq!(check_event_header(None), Err(Error::InvalidHeader));
    assert_eq!(check_event_header(Some("push")), Ok(()));
}

#[test]
fn branch_derivation() {
    assert_eq!(branch_from_ref("refs/heads/feature/x"), Some("feature/x".to_string()));
    assert_eq!(branch_from_ref("refs/tags/v1"), None);
    let p = EventPayload::Push(PushEvent {
        git_ref: "refs/heads/main".to_string(),
        after: "a".to_string(),
        head_commit_message: None,
        commits: Vec::new(),
    });
    assert_eq!(event_branch(&p), Some("main".to_string()));
    let w = EventPayload::WorkflowRun(run(RunAction::InProgress, "p"));
    assert_eq!(event_branch(&w), Some("dev".to_string()));
    assert_eq!(event_branch(&EventPayload::Other), None);
    assert_eq!(branch_label(&None), "[Unknown Branch]");
    assert_eq!(branch_label(&Some("dev".to_string())), "dev");
}

#[test]
fn settings_required_only_for_workflow_runs() {
    let w = EventPayload::WorkflowRun(run(RunAction::InProgress, "p"));
    assert_eq!(attach_settings(&w, None).err(), Some(Error::FailedToGetRepoConfig));
    assert!(attach_settings(&w, Some(settings())).unwrap().is_some());
    let p = EventPayload::Push(PushEvent {
        git_ref: "refs/heads/main".to_string(),
        after: "a".to_string(),
        head_commit_message: Some("m".to_string()),
        commits: Vec::new(),
    });
    assert!(attach_settings(&p, None).unwrap().is_none());
    assert!(attach_settings(&EventPayload::Other, None).unwrap().is_none());
}

#[test]
fn untracked_and_other_actions_are_ignored() {
    let c = RunCorrelator::new(60);
    let s = settings();
    assert_eq!(plan_run(&s, &run(RunAction::InProgress, "other.yml"), &c, 0), Ok(RunStep::Ignore));
    assert_eq!(
        plan_run(&s, &run(RunAction::Requested, ".github/workflows/build.yml"), &c, 0),
        Ok(RunStep::Ignore)
    );
    assert_eq!(
        plan_run(&s, &run(RunAction::Other, ".github/workflows/build.yml"), &c, 0),
        Ok(RunStep::Ignore)
    );
}

#[test]
fn run_lifecycle_end_to_end() {
    let mut c = RunCorrelator::new(3600);
    let s = settings();
    let path = ".github/workflows/build.yml";
    let start = run(RunAction::InProgress, path);
    assert_eq!(plan_run(&s, &start, &c, 10), Ok(RunStep::Announce));
    assert_eq!(record_announcement(&mut c, start.run_id, Some(4242), 10), Ok(()));
    assert_eq!(c.resolve(555, 11), Some(4242));
    let done = run(RunAction::Completed, path);
    assert_eq!(plan_run(&s, &done, &c, 500), Ok(RunStep::Update { message_id: 4242 }));
    finish_run(&mut c, done.run_id);
    assert_eq!(c.resolve(555, 501), None);
    assert_eq!(plan_run(&s, &done, &c, 502), Err(Error::CannotFindMessage));
}

#[test]
fn failed_announcement_records_nothing() {
    let mut c = RunCorrelator::new(3600);
    assert_eq!(record_announcement(&mut c, 9, None, 0), Err(Error::FailedToSendMessage));
    assert_eq!(c.resolve(9, 1), None);
}

#[test]
fn completed_before_start_is_a_miss() {
    let c = RunCorrelator::new(3600);
    let done = run(RunAction::Completed, ".github/workflows/build.yml");
    assert_eq!(plan_run(&settings(), &done, &c, 0), Err(Error::CannotFindMessage));
}

#[test]
fn time_taken_text() {
    assert_eq!(run_time_taken(&run(RunAction::Completed, "p")), "1 minute and 1 second");
    let mut r = run(RunAction::Completed, "p");
    r.created_at = i64::MIN;
    r.updated_at = i64::MAX;
    assert_eq!(run_time_taken(&r), "2562047788015215 hours, 30 minutes and 7 seconds");
}

#[test]
fn error_messages() {
    assert_eq!(Error::InvalidSignature.message(), "Invalid Signature");
    assert_eq!(Error::CannotFindMessage.message(), "Cannot find message");
    assert_eq!(Error::MissingSignaturePrefix.message(), "Signature prefix is missing");
}
