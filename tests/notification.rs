use ci_preview::compose::{RunConclusion, Tone};
use ci_preview::config::{Button, ButtonStyle, ModVersionVariable, RepoSettings};
use ci_preview::event::{RunAction, WorkflowRunEvent};
use ci_preview::notification::{finished_notification, running_notification};

fn run(conclusion: Option<RunConclusion>) -> WorkflowRunEvent {
    WorkflowRunEvent {
        action: RunAction::Completed,
        run_id: 1,
        run_number: 4,
        path: "b.yml".to_string(),
        head_sha: "abc".to_string(),
        head_branch: Some("main".to_string()),
        html_url: "https://github.com/o/r/actions/runs/1".to_string(),
        conclusion,
        run_started_at: 50,
        created_at: 0,
        updated_at: 3661,
    }
}

fn settings() -> RepoSettings {
    RepoSettings {
        minecraft_version: "1.21".to_string(),
        workflows: vec!["b.yml".to_string()],
        mod_version: ModVersionVariable {
            path: "p".to_string(),
            regex: "(.*)".to_string(),
            group: 1,
            format: None,
        },
        buttons: vec![(
            "dl".to_string(),
            Button {
                style: ButtonStyle::Link,
                url: Some("https://x/${build_number}".to_string()),
                label: None,
                emoji: None,
                disabled: false,
            },
        )],
    }
}

fn pad() -> String {
    " ".repeat(24)
}

#[test]
fn running_card() {
    let n = running_notification(&run(None), "repo", "main", "1.0", "<a:r:1>", "C");
    assert_eq!(n.author, "repo/main");
    assert_eq!(n.tone, Tone::Neutral);
    assert!(n.buttons.is_empty());
    let p = pad();
    assert_eq!(
        n.description,
        format!("\n{p}## Build <t:50:R>\n{p}Status: Build is running for **#4** <a:r:1>\n{p}Version: **1.0**\n{p}C")
    );
}

#[test]
fn finished_success_card_has_buttons() {
    let n = finished_notification(
        &run(Some(RunConclusion::Success)),
        "repo",
        "main",
        &settings(),
        "1.0",
        "1.0",
        "<:ok:2>",
        Some("https://logs"),
        "C",
    );
    assert_eq!(n.tone, Tone::Success);
    assert_eq!(n.buttons.len(), 1);
    assert_eq!(n.buttons[0].url.as_deref(), Some("https://x/4"));
    let p = pad();
    assert_eq!(
        n.description,
        format!("\n{p}## Build <t:50:R>\n{p}Status: **<:ok:2> Success #4** in 1 hour, 1 minute and 1 second\n{p}Version: **1.0**\n{p}C")
    );
}

#[test]
fn finished_failure_card_has_logs() {
    let n = finished_notification(
        &run(Some(RunConclusion::Failure)),
        "repo",
        "main",
        &settings(),
        "1.0",
        "1.0",
        "<:no:3>",
        Some("https://logs/1"),
        "C",
    );
    assert_eq!(n.tone, Tone::Failure);
    assert!(n.buttons.is_empty());
    assert!(n.description.ends_with("Logs: [Run Logs](https://logs/1)\nC"));
    assert!(n.description.contains("**<:no:3> Failed #4** in"));
}

#[test]
fn finished_other_card_is_neutral() {
    let n = finished_notification(
        &run(Some(RunConclusion::Other)),
        "repo",
        "main",
        &settings(),
        "1.0",
        "1.0",
        "",
        Some("https://logs/1"),
        "C",
    );
    assert_eq!(n.tone, Tone::Neutral);
    assert!(n.buttons.is_empty());
    assert!(n.description.contains("Status: ** #4** in"));
    assert!(!n.description.contains("Logs"));
}
