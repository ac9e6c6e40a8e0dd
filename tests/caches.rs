use ci_preview::cache::{CommitCache, CommitRecord, RunCorrelator};
use ci_preview::dispatch::{handle_push, is_skip_message};
use ci_preview::error::Error;
use ci_preview::event::PushEvent;

fn commit(sha: &str, message: &str) -> CommitRecord {
    CommitRecord {
        sha: sha.to_string(),
        message: message.to_string(),
        author_username: "octo".to_string(),
        commit_url: format!("https://example.com/c/{sha}"),
    }
}

fn push(message: Option<&str>, after: &str) -> PushEvent {
    PushEvent {
        git_ref: "refs/heads/main".to_string(),
        after: after.to_string(),
        head_commit_message: message.map(|m| m.to_string()),
        commits: vec![commit("a1", "first"), commit("b2", "second")],
    }
}

#[test]
fn commit_cache_put_get_and_expiry() {
    let mut cache = CommitCache::new(60);
    assert!(cache.get(&"abc".to_string(), 0).is_none());
    cache.put("abc".to_string(), vec![commit("abc", "m")], 100);
    assert_eq!(cache.get(&"abc".to_string(), 100).unwrap().len(), 1);
    assert_eq!(cache.get(&"abc".to_string(), 159).unwrap()[0].message, "m");
    assert!(cache.get(&"abc".to_string(), 160).is_none());
    assert!(cache.get(&"abd".to_string(), 100).is_none());
}

#[test]
fn commit_cache_replaces_entry() {
    let mut cache = CommitCache::new(10);
    cache.put("k".to_string(), vec![commit("1", "old")], 0);
    cache.put("k".to_string(), vec![commit("2", "new"), commit("3", "x")], 5);
    let got = cache.get(&"k".to_string(), 12).unwrap();
    assert_eq!(got.len(), 2);
    assert_eq!(got[0].message, "new");
}

#[test]
fn skip_markers_are_case_sensitive_substrings() {
    assert!(is_skip_message("fix build [skip ci]"));
    assert!(is_skip_message("[ci skip] docs"));
    assert!(is_skip_message("a [no ci] b"));
    assert!(is_skip_message("[skip actions]"));
    assert!(is_skip_message("x\n[actions skip]"));
    assert!(!is_skip_message("[SKIP CI]"));
    assert!(!is_skip_message("skip ci"));
    assert!(!is_skip_message(""));
}

#[test]
fn skipped_push_is_not_cached() {
    let mut cache = CommitCache::new(60);
    assert_eq!(handle_push(&mut cache, push(Some("release [skip ci]"), "sha1"), 0), Ok(()));
    assert!(cache.get(&"sha1".to_string(), 1).is_none());
}

#[test]
fn ordinary_push_is_cached_in_order() {
    let mut cache = CommitCache::new(60);
    assert_eq!(handle_push(&mut cache, push(Some("feature"), "sha2"), 0), Ok(()));
    let got = cache.get(&"sha2".to_string(), 1).unwrap();
    assert_eq!(got.len(), 2);
    assert_eq!(got[0].sha, "a1");
    assert_eq!(got[1].sha, "b2");
}

#[test]
fn push_without_head_commit_fails() {
    let mut cache = CommitCache::new(60);
    assert_eq!(
        handle_push(&mut cache, push(None, "sha3"), 0),
        Err(Error::FailedToUnwrapValue)
    );
    assert!(cache.get(&"sha3".to_string(), 1).is_none());
}

#[test]
fn correlator_record_resolve_forget() {
    let mut c = RunCorrelator::new(3600);
    assert_eq!(c.resolve(7, 0), None);
    c.record(7, 99, 10);
    assert_eq!(c.resolve(7, 10), Some(99));
    assert_eq!(c.resolve(8, 10), None);
    c.forget(7);
    assert_eq!(c.resolve(7, 11), None);
}

#[test]
fn correlator_entry_expires() {
    let mut c = RunCorrelator::new(5);
    c.record(1, 2, 100);
    assert_eq!(c.resolve(1, 104), Some(2));
    assert_eq!(c.resolve(1, 105), None);
}

#[test]
fn correlator_saturating_expiry() {
    let mut c = RunCorrelator::new(u64::MAX);
    c.record(1, 2, 5);
    assert_eq!(c.resolve(1, u64::MAX - 1), Some(2));
}

#[test]
fn purge_drops_only_expired_entries() {
    let mut cache = CommitCache::new(10);
    cache.put("early".to_string(), vec![commit("1", "a")], 0);
    cache.put("late".to_string(), vec![commit("2", "b")], 20);
    cache.purge_expired(15);
    assert!(cache.get(&"early".to_string(), 0).is_none());
    assert_eq!(cache.get(&"late".to_string(), 25).unwrap()[0].sha, "2");

    let mut c = RunCorrelator::new(10);
    c.record(1, 11, 0);
    c.record(2, 22, 5);
    c.record(3, 33, 9);
    c.purge_expired(12);
    assert_eq!(c.resolve(1, 9), None);
    assert_eq!(c.resolve(2, 12), Some(22));
    assert_eq!(c.resolve(3, 12), Some(33));
}
