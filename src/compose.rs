//! The text of a build notification: version, status lines, buttons and layout.

use vstd::prelude::*;
use crate::config::{drawn_as, Button, ButtonPlan, ModVersionVariable, opt_view};
use crate::error::Error;
use crate::text::{decimal, decimal_string, replace, replace_all, signed_decimal, signed_decimal_string};

verus! {

/// The text of capture group `group` of the first match of the regular expression
/// `pattern` in `text`; none when the pattern does not compile, does not match, or
/// the group did not take part in the match.
pub uninterp spec fn regex_group(pattern: Seq<char>, text: Seq<char>, group: nat) -> Option<
    Seq<char>,
>;

/// Relies on regex::Regex::new, Regex::captures and Captures::get: the capture group
/// of the leftmost match, if the pattern compiles and the group matched.
#[verifier::external_body]
fn capture_group(pattern: &str, text: &str, group: usize) -> (r: Option<String>)
    ensures
        (match r {
            Some(s) => regex_group(pattern@, text@, group as nat) == Some(s@),
            None => regex_group(pattern@, text@, group as nat) is None,
        }),
{
    let re = regex::Regex::new(pattern).ok()?;
    let caps = re.captures(text)?;
    let m = caps.get(group)?;
    Some(m.as_str().to_string())
}

/// Reads the mod version out of the version file's content with the configured pattern.
pub fn extract_mod_version(rule: &ModVersionVariable, content: Option<&str>) -> (r: Result<
    String,
    Error,
>)
    ensures
        content is None ==> r == Err::<String, Error>(Error::FailedToUnwrapValue),
        content is Some ==> (match regex_group(rule.regex@, content.unwrap()@, rule.group as nat) {
            Some(v) => r is Ok && r.unwrap()@ == v,
            None => r == Err::<String, Error>(Error::FailedToUnwrapValue),
        }),
{
    match content {
        None => Err(Error::FailedToUnwrapValue),
        Some(text) => match capture_group(rule.regex.as_str(), text, rule.group) {
            Some(v) => Ok(v),
            None => Err(Error::FailedToUnwrapValue),
        },
    }
}

/// `${mod_version}`, `${minecraft_version}` and `${build_number}` substituted, in that order.
pub open spec fn fill_placeholders(t: Seq<char>, mod_version: Seq<char>, minecraft_version: Seq<char>, build_number: nat) -> Seq<char> {
    replace_all(
        replace_all(replace_all(t, "${mod_version}"@, mod_version), "${minecraft_version}"@, minecraft_version),
        "${build_number}"@,
        decimal(build_number),
    )
}

/// The displayed version: the template if there is one, else the raw version, with
/// the placeholders filled.
pub open spec fn version_text(
    format: Option<Seq<char>>,
    mod_version: Seq<char>,
    minecraft_version: Seq<char>,
    build_number: nat,
) -> Seq<char> {
    fill_placeholders(
        match format {
            Some(f) => f,
            None => mod_version,
        },
        mod_version,
        minecraft_version,
        build_number,
    )
}

fn fill(t: &str, mod_version: &str, minecraft_version: &str, build_number: u64) -> (r: String)
    ensures
        r@ == fill_placeholders(t@, mod_version@, minecraft_version@, build_number as nat),
{
    let a = replace(t, "${mod_version}", mod_version);
    let b = replace(a.as_str(), "${minecraft_version}", minecraft_version);
    let n = decimal_string(build_number);
    replace(b.as_str(), "${build_number}", n.as_str())
}

/// Builds the displayed version from the configured template.
pub fn format_version(
    format: &Option<String>,
    mod_version: &str,
    minecraft_version: &str,
    build_number: u64,
) -> (r: String)
    ensures
        r@ == version_text(opt_view(*format), mod_version@, minecraft_version@, build_number as nat),
{
    match format {
        Some(f) => fill(f.as_str(), mod_version, minecraft_version, build_number),
        None => fill(mod_version, mod_version, minecraft_version, build_number),
    }
}

/// A button's URL: its template with `${version}` and the other placeholders filled,
/// or empty without a template.
pub open spec fn button_url_text(
    template: Option<Seq<char>>,
    version: Seq<char>,
    mod_version: Seq<char>,
    minecraft_version: Seq<char>,
    build_number: nat,
) -> Seq<char> {
    match template {
        Some(t) => fill_placeholders(
            replace_all(t, "${version}"@, version),
            mod_version,
            minecraft_version,
            build_number,
        ),
        None => Seq::empty(),
    }
}

/// Builds a button's URL from its template.
pub fn button_url(
    template: &Option<String>,
    version: &str,
    mod_version: &str,
    minecraft_version: &str,
    build_number: u64,
) -> (r: String)
    ensures
        r@ == button_url_text(opt_view(*template), version@, mod_version@, minecraft_version@, build_number as nat),
{
    match template {
        Some(t) => {
            let v = replace(t.as_str(), "${version}", version);
            fill(v.as_str(), mod_version, minecraft_version, build_number)
        },
        None => String::new(),
    }
}

/// Draws every configured button, in order, with its URL filled in.
pub fn render_buttons(
    buttons: &Vec<(String, Button)>,
    version: &str,
    mod_version: &str,
    minecraft_version: &str,
    build_number: u64,
) -> (r: Vec<ButtonPlan>)
    ensures
        r@.len() == buttons@.len(),
        forall|i: int|
            0 <= i < r@.len() ==> drawn_as(
                #[trigger] r@[i],
                buttons@[i].1,
                buttons@[i].0@,
                button_url_text(
                    opt_view(buttons@[i].1.url),
                    version@,
                    mod_version@,
                    minecraft_version@,
                    build_number as nat,
                ),
            ),
{
    let mut out: Vec<ButtonPlan> = Vec::new();
    let mut i: usize = 0;
    while i < buttons.len()
        invariant
            i <= buttons@.len(),
            out@.len() == i,
            forall|j: int|
                0 <= j < i ==> drawn_as(
                    #[trigger] out@[j],
                    buttons@[j].1,
                    buttons@[j].0@,
                    button_url_text(
                        opt_view(buttons@[j].1.url),
                        version@,
                        mod_version@,
                        minecraft_version@,
                        build_number as nat,
                    ),
                ),
        decreases buttons@.len() - i,
    {
        let (id, button) = &buttons[i];
        let url = button_url(&button.url, version, mod_version, minecraft_version, build_number);
        out.push(button.convert(id.as_str(), url.as_str()));
        i = i + 1;
    }
    out
}

/// How a workflow run ended, as far as the notification distinguishes.
#[derive(Debug, Clone, Copy, PartialEq, Eq, Structural)]
pub enum RunConclusion {
    Success,
    Failure,
    Other,
}

/// The colour family of a notification.
#[derive(Debug, Clone, Copy, PartialEq, Eq, Structural)]
pub enum Tone {
    Neutral,
    Success,
    Failure,
}

pub open spec fn tone_spec(c: Option<RunConclusion>) -> Tone {
    match c {
        Some(RunConclusion::Success) => Tone::Success,
        Some(RunConclusion::Failure) => Tone::Failure,
        _ => Tone::Neutral,
    }
}

/// The colour of a finished run: success, failure, or neutral for anything else.
pub fn tone_of(c: Option<RunConclusion>) -> (r: Tone)
    ensures
        r == tone_spec(c),
{
    match c {
        Some(RunConclusion::Success) => Tone::Success,
        Some(RunConclusion::Failure) => Tone::Failure,
        _ => Tone::Neutral,
    }
}

pub open spec fn outcome_label_text(c: Option<RunConclusion>, emoji: Seq<char>) -> Seq<char> {
    match c {
        Some(RunConclusion::Success) => emoji + " Success"@,
        Some(RunConclusion::Failure) => emoji + " Failed"@,
        _ => Seq::empty(),
    }
}

/// The outcome label of a finished run, after the outcome's emoji; empty when neutral.
pub fn outcome_label(c: Option<RunConclusion>, emoji: &str) -> (r: String)
    ensures
        r@ == outcome_label_text(c, emoji@),
{
    match c {
        Some(RunConclusion::Success) => String::from_str(emoji).concat(" Success"),
        Some(RunConclusion::Failure) => String::from_str(emoji).concat(" Failed"),
        _ => String::new(),
    }
}

pub open spec fn running_status_text(run_number: nat, emoji: Seq<char>) -> Seq<char> {
    "Build is running for **#"@ + decimal(run_number) + "** "@ + emoji
}

/// The status line of a run that has started.
pub fn running_status(run_number: u64, emoji: &str) -> (r: String)
    ensures
        r@ == running_status_text(run_number as nat, emoji@),
{
    let mut out = String::from_str("Build is running for **#");
    out.append(decimal_string(run_number).as_str());
    out.append("** ");
    out.append(emoji);
    assert(out@ =~= running_status_text(run_number as nat, emoji@));
    out
}

pub open spec fn finished_status_text(label: Seq<char>, run_number: nat, time_taken: Seq<char>) -> Seq<char> {
    "**"@ + label + " #"@ + decimal(run_number) + "** in "@ + time_taken
}

/// The status line of a run that has finished.
pub fn finished_status(label: &str, run_number: u64, time_taken: &str) -> (r: String)
    ensures
        r@ == finished_status_text(label@, run_number as nat, time_taken@),
{
    let mut out = String::from_str("**");
    out.append(label);
    out.append(" #");
    out.append(decimal_string(run_number).as_str());
    out.append("** in ");
    out.append(time_taken);
    assert(out@ =~= finished_status_text(label@, run_number as nat, time_taken@));
    out
}

pub open spec fn logs_line_text(job_url: Option<Seq<char>>) -> Seq<char> {
    match job_url {
        Some(u) => "Logs: [Run Logs]("@ + u + ")\n"@,
        None => Seq::empty(),
    }
}

/// The logs line of a failed run, linking its first job; empty without one.
pub fn logs_line(job_url: Option<&str>) -> (r: String)
    ensures
        r@ == logs_line_text(
            match job_url {
                Some(u) => Some(u@),
                None => None,
            },
        ),
{
    match job_url {
        Some(u) => {
            let mut out = String::from_str("Logs: [Run Logs](");
            out.append(u);
            out.append(")\n");
            out
        },
        None => String::new(),
    }
}

pub open spec fn description_text(
    started_at: int,
    status: Seq<char>,
    version: Seq<char>,
    extra: Seq<char>,
    commits: Seq<char>,
) -> Seq<char> {
    "\n                        ## Build <t:"@ + signed_decimal(started_at)
        + ":R>\n                        Status: "@ + status
        + "\n                        Version: **"@ + version + "**\n                        "@
        + extra + commits
}

/// The body of a notification: start time, status, version, any extra line and the commits.
pub fn compose_description(
    started_at: i64,
    status: &str,
    version: &str,
    extra: &str,
    commits: &str,
) -> (r: String)
    ensures
        r@ == description_text(started_at as int, status@, version@, extra@, commits@),
{
    let mut out = String::from_str("\n                        ## Build <t:");
    out.append(signed_decimal_string(started_at).as_str());
    out.append(":R>\n                        Status: ");
    out.append(status);
    out.append("\n                        Version: **");
    out.append(version);
    out.append("**\n                        ");
    out.append(extra);
    out.append(commits);
    assert(out@ =~= description_text(started_at as int, status@, version@, extra@, commits@));
    out
}

/// The header of a notification: repository name and branch.
pub fn author_title(repo_name: &str, branch: &str) -> (r: String)
    ensures
        r@ == repo_name@ + "/"@ + branch@,
{
    let mut out = String::from_str(repo_name);
    out.append("/");
    out.append(branch);
    out
}

} // verus!
