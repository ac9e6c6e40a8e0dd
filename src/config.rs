//! Repository configuration: the per-repository secret and channel, and the
//! preview settings that a repository keeps at a pinned ref.

use vstd::prelude::*;
use crate::text::same_text;

verus! {

/// Credentials and target channel of one configured repository.
#[derive(Debug, Clone)]
pub struct RepoAuth {
    pub repository_url: String,
    pub webhook_secret: String,
    pub channel_id: u64,
}

/// The entry for `url` in `s`: the last one that names it.
pub open spec fn last_for(s: Seq<RepoAuth>, url: Seq<char>) -> Option<RepoAuth>
    decreases s.len(),
{
    if s.len() == 0 {
        None
    } else if s.last().repository_url@ == url {
        Some(s.last())
    } else {
        last_for(s.drop_last(), url)
    }
}

/// A snapshot of the configured repositories, looked up by repository URL.
/// A snapshot is never changed in place: a reload builds a new one.
pub struct ConfigStore {
    entries: Vec<RepoAuth>,
}

impl View for ConfigStore {
    type V = Seq<RepoAuth>;

    closed spec fn view(&self) -> Seq<RepoAuth> {
        self.entries@
    }
}

impl ConfigStore {
    /// The entry that a lookup of `url` finds.
    pub open spec fn lookup_spec(&self, url: Seq<char>) -> Option<RepoAuth> {
        last_for(self@, url)
    }

    /// A snapshot of the given entries; where two name the same repository, the later wins.
    pub fn from_entries(entries: Vec<RepoAuth>) -> (r: Self)
        ensures
            r@ == entries@,
    {
        ConfigStore { entries }
    }

    /// The configuration of the repository at `url`, if any.
    pub fn get(&self, url: &str) -> (r: Option<&RepoAuth>)
        ensures
            (match r {
                Some(a) => self.lookup_spec(url@) == Some(*a),
                None => self.lookup_spec(url@) is None,
            }),
    {
        let mut i: usize = self.entries.len();
        assert(self.entries@.subrange(0, i as int) =~= self.entries@);
        while i > 0
            invariant
                i <= self.entries@.len(),
                last_for(self.entries@, url@) == last_for(self.entries@.subrange(0, i as int), url@),
            decreases i,
        {
            let ghost s = self.entries@.subrange(0, i as int);
            assert(s.drop_last() =~= self.entries@.subrange(0, i - 1));
            if same_text(self.entries[i - 1].repository_url.as_str(), url) {
                return Some(&self.entries[i - 1]);
            }
            i = i - 1;
        }
        assert(self.entries@.subrange(0, 0) =~= Seq::<RepoAuth>::empty());
        None
    }
}

/// How a button is drawn; a link button opens a URL, the others send an id.
#[derive(Debug, Clone, Copy, PartialEq, Eq, Structural)]
pub enum ButtonStyle {
    Primary,
    Secondary,
    Success,
    Danger,
    Link,
}

/// Where the mod version is read from: a file, a pattern, the capture group to
/// take, and an optional template for the displayed version.
#[derive(Debug, Clone)]
pub struct ModVersionVariable {
    pub path: String,
    pub regex: String,
    pub group: usize,
    pub format: Option<String>,
}

/// A button offered on a successful build.
#[derive(Debug, Clone)]
pub struct Button {
    pub style: ButtonStyle,
    pub url: Option<String>,
    pub label: Option<String>,
    pub emoji: Option<String>,
    pub disabled: bool,
}

/// A button ready to be drawn: a link carries a URL and no id, the others an id and no URL.
#[derive(Debug, Clone)]
pub struct ButtonPlan {
    pub style: ButtonStyle,
    pub custom_id: Option<String>,
    pub url: Option<String>,
    pub label: Option<String>,
    pub emoji: Option<String>,
    pub disabled: bool,
}

/// Preview settings of a repository at one ref.
#[derive(Debug, Clone)]
pub struct RepoSettings {
    pub minecraft_version: String,
    pub workflows: Vec<String>,
    pub mod_version: ModVersionVariable,
    pub buttons: Vec<(String, Button)>,
}

pub open spec fn opt_view(o: Option<String>) -> Option<Seq<char>> {
    match o {
        Some(s) => Some(s@),
        None => None,
    }
}

fn clone_opt(o: &Option<String>) -> (r: Option<String>)
    ensures
        opt_view(r) == opt_view(*o),
{
    match o {
        Some(s) => Some(s.clone()),
        None => None,
    }
}

/// `p` is `b` drawn under `id` with `url`.
pub open spec fn drawn_as(p: ButtonPlan, b: Button, id: Seq<char>, url: Seq<char>) -> bool {
    &&& p.style == b.style
    &&& p.disabled == b.disabled
    &&& opt_view(p.label) == opt_view(b.label)
    &&& opt_view(p.emoji) == opt_view(b.emoji)
    &&& b.style == ButtonStyle::Link ==> p.custom_id is None && opt_view(p.url) == Some(url)
    &&& b.style != ButtonStyle::Link ==> p.url is None && opt_view(p.custom_id) == Some(id)
}

impl Button {
    /// Draws this button under `id`, opening `url` if it is a link.
    pub fn convert(&self, id: &str, url: &str) -> (r: ButtonPlan)
        ensures
            drawn_as(r, *self, id@, url@),
    {
        let (custom_id, link) = match self.style {
            ButtonStyle::Link => (None, Some(String::from_str(url))),
            _ => (Some(String::from_str(id)), None),
        };
        ButtonPlan {
            style: self.style,
            custom_id,
            url: link,
            label: clone_opt(&self.label),
            emoji: clone_opt(&self.emoji),
            disabled: self.disabled,
        }
    }
}

/// `path` is one of the workflows that the settings opt into notifications.
pub open spec fn is_tracked(workflows: Seq<String>, path: Seq<char>) -> bool {
    exists|i: int| 0 <= i < workflows.len() && #[trigger] workflows[i]@ == path
}

impl RepoSettings {
    /// Whether notifications are on for the workflow file at `path`.
    pub fn tracks(&self, path: &str) -> (r: bool)
        ensures
            r == is_tracked(self.workflows@, path@),
    {
        let mut i: usize = 0;
        while i < self.workflows.len()
            invariant
                i <= self.workflows@.len(),
                forall|j: int| 0 <= j < i ==> self.workflows@[j]@ != path@,
            decreases self.workflows@.len() - i,
        {
            if same_text(self.workflows[i].as_str(), path) {
                return true;
            }
            i = i + 1;
        }
        false
    }
}

} // verus!
