//! The two payloads of a run's lifecycle: the card posted when it starts and the
//! edit applied when it finishes.

use vstd::prelude::*;
use crate::compose::{
    author_title, button_url_text, compose_description, description_text,
    finished_status, finished_status_text, logs_line, logs_line_text, outcome_label,
    outcome_label_text, render_buttons, running_status, running_status_text, tone_of, tone_spec,
    RunConclusion, Tone,
};
use crate::config::{drawn_as, opt_view, ButtonPlan, RepoSettings};
use crate::dispatch::{elapsed_seconds, run_time_taken};
use crate::duration::duration_text;
use crate::event::WorkflowRunEvent;

verus! {

/// A status card: header, body, colour and any buttons.
pub struct Notification {
    pub author: String,
    pub description: String,
    pub tone: Tone,
    pub buttons: Vec<ButtonPlan>,
}

/// The card posted when a run starts: running status, neutral colour, no buttons.
pub fn running_notification(
    run: &WorkflowRunEvent,
    repo_name: &str,
    branch: &str,
    version: &str,
    emoji: &str,
    commits: &str,
) -> (r: Notification)
    ensures
        r.author@ == repo_name@ + "/"@ + branch@,
        r.description@ == description_text(
            run.run_started_at as int,
            running_status_text(run.run_number as nat, emoji@),
            version@,
            Seq::empty(),
            commits@,
        ),
        r.tone == Tone::Neutral,
        r.buttons@.len() == 0,
{
    let status = running_status(run.run_number, emoji);
    let description = compose_description(run.run_started_at, status.as_str(), version, "", commits);
    proof {
        reveal_strlit("");
    }
    Notification {
        author: author_title(repo_name, branch),
        description,
        tone: Tone::Neutral,
        buttons: Vec::new(),
    }
}

/// The extra line of a finished run: the logs link after a failure, else nothing.
pub open spec fn finished_extra(c: Option<RunConclusion>, job_url: Option<Seq<char>>) -> Seq<char> {
    if c == Some(RunConclusion::Failure) {
        logs_line_text(job_url)
    } else {
        Seq::empty()
    }
}

/// The edit applied when a run finishes: outcome, time taken, outcome colour; the
/// configured buttons after a success, and a logs link after a failure.
pub fn finished_notification(
    run: &WorkflowRunEvent,
    repo_name: &str,
    branch: &str,
    settings: &RepoSettings,
    version: &str,
    mod_version: &str,
    emoji: &str,
    job_url: Option<&str>,
    commits: &str,
) -> (r: Notification)
    ensures
        r.author@ == repo_name@ + "/"@ + branch@,
        r.description@ == description_text(
            run.run_started_at as int,
            finished_status_text(
                outcome_label_text(run.conclusion, emoji@),
                run.run_number as nat,
                duration_text(elapsed_seconds(run.created_at, run.updated_at)),
            ),
            version@,
            finished_extra(
                run.conclusion,
                match job_url {
                    Some(u) => Some(u@),
                    None => None,
                },
            ),
            commits@,
        ),
        r.tone == tone_spec(run.conclusion),
        run.conclusion != Some(RunConclusion::Success) ==> r.buttons@.len() == 0,
        run.conclusion == Some(RunConclusion::Success) ==> {
            &&& r.buttons@.len() == settings.buttons@.len()
            &&& forall|i: int|
                0 <= i < r.buttons@.len() ==> drawn_as(
                    #[trigger] r.buttons@[i],
                    settings.buttons@[i].1,
                    settings.buttons@[i].0@,
                    button_url_text(
                        opt_view(settings.buttons@[i].1.url),
                        version@,
                        mod_version@,
                        settings.minecraft_version@,
                        run.run_number as nat,
                    ),
                )
        },
{
    let label = outcome_label(run.conclusion, emoji);
    let time_taken = run_time_taken(run);
    let status = finished_status(label.as_str(), run.run_number, time_taken.as_str());
    let is_failure = match run.conclusion {
        Some(RunConclusion::Failure) => true,
        _ => false,
    };
    let is_success = match run.conclusion {
        Some(RunConclusion::Success) => true,
        _ => false,
    };
    let extra = if is_failure {
        logs_line(job_url)
    } else {
        String::new()
    };
    let buttons = if is_success {
        render_buttons(
            &settings.buttons,
            version,
            mod_version,
            settings.minecraft_version.as_str(),
            run.run_number,
        )
    } else {
        Vec::new()
    };
    let description = compose_description(
        run.run_started_at,
        status.as_str(),
        version,
        extra.as_str(),
        commits,
    );
    Notification {
        author: author_title(repo_name, branch),
        description,
        tone: tone_of(run.conclusion),
        buttons,
    }
}

} // verus!
