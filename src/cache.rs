//! The two shared caches: recent pushes by head commit, and the chat message that
//! tracks each running workflow.

use vstd::prelude::*;
use crate::ttl_map::{expiry, TtlMap};

verus! {

/// One commit of a push, as the notification shows it.
#[derive(Debug, Clone)]
pub struct CommitRecord {
    pub sha: String,
    pub message: String,
    pub author_username: String,
    pub commit_url: String,
}

/// Commits of recent pushes, keyed by the head commit they led to.
pub struct CommitCache {
    map: TtlMap<String, Vec<CommitRecord>>,
}

/// Cached commit lists by head SHA, each with its expiry instant.
pub open spec fn commit_model(m: Map<Seq<char>, (Vec<CommitRecord>, u64)>) -> Map<
    Seq<char>,
    (Seq<CommitRecord>, u64),
> {
    m.map_values(|e: (Vec<CommitRecord>, u64)| (e.0@, e.1))
}

impl View for CommitCache {
    type V = Map<Seq<char>, (Seq<CommitRecord>, u64)>;

    closed spec fn view(&self) -> Map<Seq<char>, (Seq<CommitRecord>, u64)> {
        commit_model(self.map@)
    }
}

impl CommitCache {
    pub closed spec fn wf(&self) -> bool {
        self.map.wf()
    }

    pub closed spec fn ttl_spec(&self) -> u64 {
        self.map.ttl_spec()
    }

    /// The commits cached under `sha` if still live at `now`.
    pub open spec fn live(&self, sha: Seq<char>, now: u64) -> Option<Seq<CommitRecord>> {
        if self@.contains_key(sha) && now < self@[sha].1 {
            Some(self@[sha].0)
        } else {
            None
        }
    }

    /// An empty cache whose entries live `ttl` time units.
    pub fn new(ttl: u64) -> (r: Self)
        ensures
            r.wf(),
            r@ == Map::<Seq<char>, (Seq<CommitRecord>, u64)>::empty(),
            r.ttl_spec() == ttl,
    {
        let r = CommitCache { map: TtlMap::new(ttl) };
        assert(r@ =~= Map::<Seq<char>, (Seq<CommitRecord>, u64)>::empty());
        r
    }

    /// Stores the commits of a push under its head SHA.
    pub fn put(&mut self, sha: String, commits: Vec<CommitRecord>, now: u64)
        requires
            old(self).wf(),
        ensures
            final(self).wf(),
            final(self).ttl_spec() == old(self).ttl_spec(),
            final(self)@ == old(self)@.insert(sha@, (commits@, expiry(now, old(self).ttl_spec()))),
    {
        let ghost k = sha@;
        let ghost c = commits@;
        self.map.insert(sha, commits, now);
        assert(self@ =~= old(self)@.insert(k, (c, expiry(now, old(self).ttl_spec()))));
    }

    /// The commits cached under `sha`, unless absent or expired at `now`.
    pub fn get(&self, sha: &String, now: u64) -> (r: Option<&Vec<CommitRecord>>)
        requires
            self.wf(),
        ensures
            (match r {
                Some(v) => self.live(sha@, now) == Some(v@),
                None => self.live(sha@, now) is None,
            }),
    {
        self.map.get(sha, now)
    }

    /// Drops the entries that have expired at `now`; live ones stay as they are.
    pub fn purge_expired(&mut self, now: u64)
        requires
            old(self).wf(),
        ensures
            final(self).wf(),
            final(self).ttl_spec() == old(self).ttl_spec(),
            final(self)@ == old(self)@.restrict(old(self)@.dom().filter(|k: Seq<char>| now < old(self)@[k].1)),
    {
        self.map.purge_expired(now);
        assert(self@ =~= old(self)@.restrict(old(self)@.dom().filter(|k: Seq<char>| now < old(self)@[k].1)));
    }
}

/// The chat message that represents each running workflow, keyed by run id.
pub struct RunCorrelator {
    map: TtlMap<u64, u64>,
}

impl View for RunCorrelator {
    type V = Map<u64, (u64, u64)>;

    closed spec fn view(&self) -> Map<u64, (u64, u64)> {
        self.map@
    }
}

/// The message correlated with `run_id` in `m` at `now`, if live.
pub open spec fn resolved(m: Map<u64, (u64, u64)>, run_id: u64, now: u64) -> Option<u64> {
    if m.contains_key(run_id) && now < m[run_id].1 {
        Some(m[run_id].0)
    } else {
        None
    }
}

impl RunCorrelator {
    pub closed spec fn wf(&self) -> bool {
        self.map.wf()
    }

    pub closed spec fn ttl_spec(&self) -> u64 {
        self.map.ttl_spec()
    }

    /// An empty correlator whose entries live `ttl` time units.
    pub fn new(ttl: u64) -> (r: Self)
        ensures
            r.wf(),
            r@ == Map::<u64, (u64, u64)>::empty(),
            r.ttl_spec() == ttl,
    {
        RunCorrelator { map: TtlMap::new(ttl) }
    }

    /// Tracks `message_id` as the message of run `run_id` from `now` on.
    pub fn record(&mut self, run_id: u64, message_id: u64, now: u64)
        requires
            old(self).wf(),
        ensures
            final(self).wf(),
            final(self).ttl_spec() == old(self).ttl_spec(),
            final(self)@ == old(self)@.insert(run_id, (message_id, expiry(now, old(self).ttl_spec()))),
    {
        self.map.insert(run_id, message_id, now);
    }

    /// The message tracked for `run_id`, unless absent or expired at `now`.
    pub fn resolve(&self, run_id: u64, now: u64) -> (r: Option<u64>)
        requires
            self.wf(),
        ensures
            r == resolved(self@, run_id, now),
    {
        match self.map.get(&run_id, now) {
            Some(m) => Some(*m),
            None => None,
        }
    }

    /// Stops tracking `run_id`.
    pub fn forget(&mut self, run_id: u64)
        requires
            old(self).wf(),
        ensures
            final(self).wf(),
            final(self).ttl_spec() == old(self).ttl_spec(),
            final(self)@ == old(self)@.remove(run_id),
    {
        self.map.remove(&run_id);
    }

    /// Drops the correlations that have expired at `now`; live ones stay as they are.
    pub fn purge_expired(&mut self, now: u64)
        requires
            old(self).wf(),
        ensures
            final(self).wf(),
            final(self).ttl_spec() == old(self).ttl_spec(),
            final(self)@ == old(self)@.restrict(old(self)@.dom().filter(|k: u64| now < old(self)@[k].1)),
    {
        self.map.purge_expired(now);
    }
}

/// Resolving a run right after recording it, within its time-to-live, gives the
/// recorded message; after forgetting it, or when it was never recorded, nothing.
pub proof fn lemma_record_resolve_forget(
    m: Map<u64, (u64, u64)>,
    ttl: u64,
    run_id: u64,
    message_id: u64,
    recorded_at: u64,
    now: u64,
)
    requires
        now < expiry(recorded_at, ttl),
    ensures
        resolved(m.insert(run_id, (message_id, expiry(recorded_at, ttl))), run_id, now) == Some(
            message_id,
        ),
        resolved(m.insert(run_id, (message_id, expiry(recorded_at, ttl))).remove(run_id), run_id, now)
            is None,
        resolved(m.remove(run_id), run_id, now) is None,
        !m.contains_key(run_id) ==> resolved(m, run_id, now) is None,
{
}

} // verus!
