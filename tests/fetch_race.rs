use trotd::{
    merge_outcomes, slot_outcome, FetchError, FetchMode, ProviderBatch, ProviderError,
    ProviderErrorKind, ProviderSlot, Repo, SlotAction, SlotEvent, SlotPhase, SlotResult,
    FETCH_TIMEOUT_SECS, SLOW_WARN_SECS,
};

fn repo(provider: &str, name: &str) -> Repo {
    Repo {
        provider: provider.to_string(),
        icon: String::new(),
        name: name.to_string(),
        language: None,
        description: None,
        url: format!("https://example.org/{name}"),
        stars_today: None,
        stars_total: Some(1),
        last_activity: None,
        topics: vec!["cli".to_string()],
        is_starred: false,
    }
}

fn names(repos: &[Repo]) -> Vec<String> {
    repos.iter().map(|r| r.name.clone()).collect()
}

fn batch(provider: &str, repo_names: &[&str]) -> Result<ProviderBatch, ProviderError> {
    Ok(ProviderBatch {
        provider: provider.to_string(),
        repos: repo_names.iter().map(|n| repo(provider, n)).collect(),
    })
}

fn failure(provider: &str, message: &str) -> Result<ProviderBatch, ProviderError> {
    Err(ProviderError {
        provider: provider.to_string(),
        kind: ProviderErrorKind::Fetch(message.to_string()),
    })
}

#[test]
fn mode_follows_seen_tracking() {
    assert_eq!(FetchMode::for_run(true), FetchMode::Race);
    assert_eq!(FetchMode::for_run(false), FetchMode::PreferCache);
}

#[test]
fn slow_fetch_with_primed_cache_uses_cache() {
    let mut slot = ProviderSlot::new(FetchMode::Race, true);
    assert!(matches!(slot.start(), SlotAction::LaunchFetch));
    assert!(matches!(slot.on_event(SlotEvent::Tick(5)), SlotAction::Wait));
    let a = slot.on_event(SlotEvent::Tick(SLOW_WARN_SECS));
    assert!(matches!(a, SlotAction::WarnSlow { read_cache: true }));
    assert_eq!(slot.phase, SlotPhase::FallingBack);
    let cached = vec![repo("github", "c/cached")];
    match slot.on_event(SlotEvent::CacheRead(Some(cached))) {
        SlotAction::Done(SlotResult::Cached(v)) => assert_eq!(names(&v), vec!["c/cached".to_string()]),
        _ => panic!("expected the cached result"),
    }
    // the live fetch finishing at 12 s is no longer awaited
    let late = slot.on_event(SlotEvent::LiveFinished(Ok(vec![repo("github", "l/live")])));
    assert!(matches!(late, SlotAction::Wait));
    assert_eq!(slot.phase, SlotPhase::Resolved);
}

#[test]
fn prefer_cache_hit_skips_live_fetch() {
    let mut slot = ProviderSlot::new(FetchMode::PreferCache, true);
    assert!(matches!(slot.start(), SlotAction::ReadCache));
    match slot.on_event(SlotEvent::CacheRead(Some(vec![repo("gitlab", "a/b")]))) {
        SlotAction::Done(SlotResult::Cached(v)) => assert_eq!(names(&v), vec!["a/b".to_string()]),
        _ => panic!("expected the cached result"),
    }
}

#[test]
fn prefer_cache_miss_launches_and_takes_live() {
    let mut slot = ProviderSlot::new(FetchMode::PreferCache, true);
    assert!(matches!(slot.start(), SlotAction::ReadCache));
    assert!(matches!(slot.on_event(SlotEvent::CacheRead(None)), SlotAction::LaunchFetch));
    match slot.on_event(SlotEvent::LiveFinished(Ok(vec![repo("gitea", "x/y")]))) {
        SlotAction::Done(SlotResult::Live(v)) => assert_eq!(names(&v), vec!["x/y".to_string()]),
        _ => panic!("expected the live result"),
    }
}

#[test]
fn prefer_cache_without_cache_launches() {
    let mut slot = ProviderSlot::new(FetchMode::PreferCache, false);
    assert!(matches!(slot.start(), SlotAction::LaunchFetch));
    assert_eq!(slot.phase, SlotPhase::Fetching);
}

#[test]
fn hard_timeout_fails_the_slot() {
    let mut slot = ProviderSlot::new(FetchMode::Race, false);
    slot.start();
    assert!(matches!(
        slot.on_event(SlotEvent::Tick(SLOW_WARN_SECS)),
        SlotAction::WarnSlow { read_cache: false }
    ));
    assert!(matches!(slot.on_event(SlotEvent::Tick(20)), SlotAction::Wait));
    assert!(matches!(
        slot.on_event(SlotEvent::Tick(FETCH_TIMEOUT_SECS)),
        SlotAction::Done(SlotResult::TimedOut)
    ));
    assert!(matches!(slot.on_event(SlotEvent::Tick(40)), SlotAction::Wait));
}

#[test]
fn fallback_miss_keeps_waiting_for_live() {
    let mut slot = ProviderSlot::new(FetchMode::Race, true);
    slot.start();
    slot.on_event(SlotEvent::Tick(10));
    assert!(matches!(slot.on_event(SlotEvent::CacheRead(None)), SlotAction::Wait));
    assert_eq!(slot.phase, SlotPhase::Fetching);
    assert!(slot.warned);
    // warned once only
    assert!(matches!(slot.on_event(SlotEvent::Tick(15)), SlotAction::Wait));
    match slot.on_event(SlotEvent::LiveFinished(Err("boom".to_string()))) {
        SlotAction::Done(SlotResult::FetchFailed(m)) => assert_eq!(m, "boom"),
        _ => panic!("expected the fetch failure"),
    }
}

#[test]
fn events_before_start_are_ignored() {
    let mut slot = ProviderSlot::new(FetchMode::Race, true);
    assert!(matches!(slot.on_event(SlotEvent::Tick(50)), SlotAction::Wait));
    assert_eq!(slot.phase, SlotPhase::Idle);
}

#[test]
fn slot_results_become_outcomes() {
    match slot_outcome("github".to_string(), SlotResult::TimedOut) {
        Err(e) => {
            assert_eq!(e.provider, "github");
            assert!(matches!(e.kind, ProviderErrorKind::Timeout));
        }
        Ok(_) => panic!("expected a timeout"),
    }
    match slot_outcome("gitlab".to_string(), SlotResult::Live(vec![repo("gitlab", "a/b")])) {
        Ok(b) => {
            assert_eq!(b.provider, "gitlab");
            assert_eq!(names(&b.repos), vec!["a/b".to_string()]);
        }
        Err(_) => panic!("expected a batch"),
    }
    match slot_outcome("gitea".to_string(), SlotResult::FetchFailed("bad json".to_string())) {
        Err(ProviderError { kind: ProviderErrorKind::Fetch(m), .. }) => assert_eq!(m, "bad json"),
        _ => panic!("expected a fetch error"),
    }
}

#[test]
fn one_success_one_failure_merges() {
    for outcomes in [
        vec![batch("github", &["a/1", "a/2"]), failure("gitlab", "down")],
        vec![failure("gitlab", "down"), batch("github", &["a/1", "a/2"])],
    ] {
        match merge_outcomes(outcomes) {
            Ok(m) => {
                assert_eq!(names(&m.repos), vec!["a/1".to_string(), "a/2".to_string()]);
                assert_eq!(m.errors.len(), 1);
                assert_eq!(m.errors[0].provider, "gitlab");
                assert!(m.empty_providers.is_empty());
            }
            Err(_) => panic!("expected a merged result"),
        }
    }
}

#[test]
fn all_failed_is_total_failure() {
    let outcomes = vec![
        failure("github", "down"),
        Err(ProviderError { provider: "gitea".to_string(), kind: ProviderErrorKind::Timeout }),
    ];
    match merge_outcomes(outcomes) {
        Err(FetchError::AllProvidersFailed(es)) => {
            assert_eq!(es.len(), 2);
            assert_eq!(es[0].provider, "github");
            assert_eq!(es[1].provider, "gitea");
        }
        _ => panic!("expected total failure"),
    }
}

#[test]
fn no_providers_is_an_error() {
    assert!(matches!(merge_outcomes(vec![]), Err(FetchError::NoProviders)));
}

#[test]
fn empty_batch_is_no_failure() {
    let outcomes = vec![batch("github", &[]), failure("gitlab", "down")];
    match merge_outcomes(outcomes) {
        Ok(m) => {
            assert!(m.repos.is_empty());
            assert_eq!(m.empty_providers, vec!["github".to_string()]);
            assert_eq!(m.errors.len(), 1);
        }
        Err(_) => panic!("an empty batch is a success"),
    }
}

#[test]
fn merge_keeps_completion_order() {
    let outcomes = vec![batch("gitlab", &["l/1"]), batch("github", &["h/1", "h/2"]), batch("gitea", &["e/1"])];
    match merge_outcomes(outcomes) {
        Ok(m) => assert_eq!(
            names(&m.repos),
            vec!["l/1".to_string(), "h/1".to_string(), "h/2".to_string(), "e/1".to_string()]
        ),
        Err(_) => panic!("expected a merged result"),
    }
}

#[test]
fn next_tick_is_slow_warning_then_timeout() {
    let mut slot = ProviderSlot::new(FetchMode::Race, false);
    slot.start();
    assert_eq!(slot.next_tick_secs(), SLOW_WARN_SECS);
    slot.on_event(SlotEvent::Tick(SLOW_WARN_SECS));
    assert_eq!(slot.next_tick_secs(), FETCH_TIMEOUT_SECS);
}
