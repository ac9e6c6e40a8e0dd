//! The commit list shown under a build: one markdown line per commit, or a
//! single link to the commit view when the list would be too long.

use vstd::prelude::*;
use crate::cache::CommitRecord;
use crate::text::{first_line, first_line_of, occurs_at, replace, replace_all, text_contains};

verus! {

/// Longest commit list, in characters, shown verbatim.
pub const COMMIT_LIST_LIMIT: usize = 3072;

/// The first line of a commit message, with `#` escaped so it does not link an issue.
pub open spec fn commit_title(message: Seq<char>) -> Seq<char> {
    replace_all(first_line(message), "#"@, "\\#"@)
}

/// The markdown line of one commit: a link to it, its title, and its author.
pub open spec fn commit_line(c: CommitRecord) -> Seq<char> {
    "[\u{27a4}]("@ + c.commit_url@ + ") "@ + commit_title(c.message@) + " - ["@
        + c.author_username@ + "](https://github.com/"@ + c.author_username@ + ")"@
}

/// The lines of `cs`, in order, separated by line breaks.
pub open spec fn joined_lines(cs: Seq<CommitRecord>) -> Seq<char>
    decreases cs.len(),
{
    if cs.len() == 0 {
        Seq::empty()
    } else if cs.len() == 1 {
        commit_line(cs[0])
    } else {
        joined_lines(cs.drop_last()) + "\n"@ + commit_line(cs.last())
    }
}

/// The link shown in place of a list that is too long.
pub open spec fn fallback_line(html_url: Seq<char>, head_sha: Seq<char>) -> Seq<char> {
    "Commit list is too long to display, please look [here]("@ + html_url + "/commits/"@ + head_sha
        + ") instead."@
}

/// The commit block of a notification.
pub open spec fn commit_summary(
    commits: Option<Seq<CommitRecord>>,
    html_url: Seq<char>,
    head_sha: Seq<char>,
) -> Seq<char> {
    if commits is Some && commits.unwrap().len() > 0 {
        let j = joined_lines(commits.unwrap());
        if j.len() > COMMIT_LIST_LIMIT {
            fallback_line(html_url, head_sha)
        } else {
            j
        }
    } else {
        "No commits found"@
    }
}

/// Renders the markdown line of one commit.
pub fn render_commit_line(c: &CommitRecord) -> (r: String)
    ensures
        r@ == commit_line(*c),
{
    let title = replace(first_line_of(c.message.as_str()), "#", "\\#");
    let mut out = String::from_str("[\u{27a4}](");
    out.append(c.commit_url.as_str());
    out.append(") ");
    out.append(title.as_str());
    out.append(" - [");
    out.append(c.author_username.as_str());
    out.append("](https://github.com/");
    out.append(c.author_username.as_str());
    out.append(")");
    assert(out@ =~= commit_line(*c));
    out
}

/// Renders the commit block: every cached commit on its own line, the fallback link
/// when that exceeds the limit, and a notice when nothing was cached.
pub fn render_commit_summary(
    commits: Option<&Vec<CommitRecord>>,
    html_url: &str,
    head_sha: &str,
) -> (r: String)
    ensures
        r@ == commit_summary(
            match commits {
                Some(v) => Some(v@),
                None => None,
            },
            html_url@,
            head_sha@,
        ),
{
    let cs = match commits {
        Some(v) => v,
        None => {
            return String::from_str("No commits found");
        },
    };
    if cs.len() == 0 {
        return String::from_str("No commits found");
    }
    let mut out = render_commit_line(&cs[0]);
    assert(cs@.subrange(0, 1) =~= seq![cs@[0]]);
    let mut i: usize = 1;
    while i < cs.len()
        invariant
            1 <= i <= cs@.len(),
            out@ == joined_lines(cs@.subrange(0, i as int)),
        decreases cs@.len() - i,
    {
        let line = render_commit_line(&cs[i]);
        out.append("\n");
        out.append(line.as_str());
        assert(cs@.subrange(0, i + 1).drop_last() =~= cs@.subrange(0, i as int));
        i = i + 1;
    }
    assert(cs@.subrange(0, i as int) =~= cs@);
    if out.as_str().unicode_len() > COMMIT_LIST_LIMIT {
        let mut fallback = String::from_str(
            "Commit list is too long to display, please look [here](",
        );
        fallback.append(html_url);
        fallback.append("/commits/");
        fallback.append(head_sha);
        fallback.append(") instead.");
        assert(fallback@ =~= fallback_line(html_url@, head_sha@));
        fallback
    } else {
        out
    }
}

/// Each commit's line occurs in the joined list.
pub proof fn lemma_joined_contains_each(cs: Seq<CommitRecord>)
    ensures
        forall|i: int| 0 <= i < cs.len() ==> text_contains(joined_lines(cs), #[trigger] commit_line(cs[i])),
    decreases cs.len(),
{
    if cs.len() == 1 {
        let l = commit_line(cs[0]);
        assert(l.subrange(0, l.len() as int) =~= l);
        assert(occurs_at(l, l, 0));
    } else if cs.len() > 1 {
        let front = cs.drop_last();
        lemma_joined_contains_each(front);
        let head = joined_lines(front);
        let whole = joined_lines(cs);
        let last = commit_line(cs.last());
        reveal_strlit("\n");
        assert(whole == head + "\n"@ + last);
        assert forall|i: int| 0 <= i < cs.len() implies text_contains(whole, #[trigger] commit_line(cs[i])) by {
            let l = commit_line(cs[i]);
            if i < cs.len() - 1 {
                assert(front[i] == cs[i]);
                let k = choose|k: int| occurs_at(head, l, k);
                assert(whole.subrange(k, k + l.len()) =~= head.subrange(k, k + l.len()));
                assert(occurs_at(whole, l, k));
            } else {
                let k: int = head.len() as int + 1;
                assert(whole.subrange(k, k + l.len()) =~= last);
                assert(occurs_at(whole, l, k));
            }
        }
    }
}

/// A non-empty list within the limit is shown whole, every commit's line in it; one
/// over the limit is replaced by exactly the fallback link.
pub proof fn lemma_summary_whole_or_fallback(
    cs: Seq<CommitRecord>,
    html_url: Seq<char>,
    head_sha: Seq<char>,
)
    requires
        cs.len() > 0,
    ensures
        joined_lines(cs).len() <= COMMIT_LIST_LIMIT ==> {
            &&& commit_summary(Some(cs), html_url, head_sha) == joined_lines(cs)
            &&& forall|i: int|
                0 <= i < cs.len() ==> text_contains(
                    commit_summary(Some(cs), html_url, head_sha),
                    #[trigger] commit_line(cs[i]),
                )
        },
        joined_lines(cs).len() > COMMIT_LIST_LIMIT ==> commit_summary(Some(cs), html_url, head_sha)
            == fallback_line(html_url, head_sha),
{
    lemma_joined_contains_each(cs);
}

} // verus!
