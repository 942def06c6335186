use vstd::prelude::*;

use crate::repo::Repo;

verus! {

/// Seconds after launch at which a still running live fetch is reported as
/// slow and the cache is consulted.
pub const SLOW_WARN_SECS: u64 = 10;

/// Seconds after launch at which a provider's slot gives up.
pub const FETCH_TIMEOUT_SECS: u64 = 30;

/// How a run treats the result cache.
#[derive(Clone, Copy, Debug, PartialEq, Eq, Structural)]
pub enum FetchMode {
    /// Use a cached result at once when there is one; skip the live fetch.
    PreferCache,
    /// Always start a live fetch; fall back on the cache only when it is slow.
    Race,
}

impl FetchMode {
    /// Race when seen tracking is on (cached lists would defeat it),
    /// otherwise prefer the cache.
    pub fn for_run(seen_tracking: bool) -> (r: FetchMode)
        ensures
            r == (if seen_tracking {
                FetchMode::Race
            } else {
                FetchMode::PreferCache
            }),
    {
        if seen_tracking {
            FetchMode::Race
        } else {
            FetchMode::PreferCache
        }
    }
}

/// Where one provider's slot stands.
#[derive(Clone, Copy, Debug, PartialEq, Eq, Structural)]
pub enum SlotPhase {
    /// Not started.
    Idle,
    /// Waiting for the cache read made before any live fetch.
    CheckingCache,
    /// The live fetch runs.
    Fetching,
    /// The live fetch is slow; waiting for the fallback cache read.
    FallingBack,
    /// The slot has its result; later events are ignored.
    Resolved,
}

/// What happened to a provider's slot.
pub enum SlotEvent {
    /// A read of the result cache under this provider's key finished.
    CacheRead(Option<Vec<Repo>>),
    /// The live fetch finished, with its repositories or an error message.
    LiveFinished(Result<Vec<Repo>, String>),
    /// The given number of seconds has passed since the live fetch started.
    Tick(u64),
}

/// The result a slot settles on.
pub enum SlotResult {
    /// Repositories from the cache.
    Cached(Vec<Repo>),
    /// Repositories from the live fetch.
    Live(Vec<Repo>),
    /// The live fetch failed with this message.
    FetchFailed(String),
    /// The hard timeout passed first.
    TimedOut,
}

/// What the runner of a slot is to do next.
pub enum SlotAction {
    /// Read the result cache under this provider's key.
    ReadCache,
    /// Start the live fetch, which stores its result in the cache when it
    /// succeeds, and start the clock.
    LaunchFetch,
    /// Report once that the fetch is slow; read the cache when asked.
    WarnSlow { read_cache: bool },
    /// Nothing to do until the next event.
    Wait,
    /// The slot is settled; stop waiting on the live fetch.
    Done(SlotResult),
}

/// The race between one provider's live fetch, its cache and its timers.
#[derive(Clone, Copy, Debug, PartialEq, Eq, Structural)]
pub struct ProviderSlot {
    pub mode: FetchMode,
    pub cache_enabled: bool,
    pub phase: SlotPhase,
    pub warned: bool,
}

pub open spec fn is_running(p: SlotPhase) -> bool {
    p == SlotPhase::Fetching || p == SlotPhase::FallingBack
}

impl ProviderSlot {
    pub fn new(mode: FetchMode, cache_enabled: bool) -> (r: ProviderSlot)
        ensures
            r == (ProviderSlot { mode, cache_enabled, phase: SlotPhase::Idle, warned: false }),
    {
        ProviderSlot { mode, cache_enabled, phase: SlotPhase::Idle, warned: false }
    }

    /// Seconds after launch at which the next tick is due: the slow warning
    /// until it has been given, then the hard timeout.
    pub fn next_tick_secs(&self) -> (r: u64)
        ensures
            r == (if self.warned {
                FETCH_TIMEOUT_SECS
            } else {
                SLOW_WARN_SECS
            }),
    {
        if self.warned {
            FETCH_TIMEOUT_SECS
        } else {
            SLOW_WARN_SECS
        }
    }

    /// Starts the slot: a cache read first when the cache is preferred and
    /// on, the live fetch otherwise.
    pub fn start(&mut self) -> (r: SlotAction)
        requires
            old(self).phase == SlotPhase::Idle,
        ensures
            final(self).mode == old(self).mode,
            final(self).cache_enabled == old(self).cache_enabled,
            final(self).warned == old(self).warned,
            old(self).mode == FetchMode::PreferCache && old(self).cache_enabled ==> final(self).phase
                == SlotPhase::CheckingCache && r is ReadCache,
            !(old(self).mode == FetchMode::PreferCache && old(self).cache_enabled) ==> final(self).phase == SlotPhase::Fetching && r is LaunchFetch,
    {
        match self.mode {
            FetchMode::PreferCache if self.cache_enabled => {
                self.phase = SlotPhase::CheckingCache;
                SlotAction::ReadCache
            },
            _ => {
                self.phase = SlotPhase::Fetching;
                SlotAction::LaunchFetch
            },
        }
    }

    /// Advances the slot on `ev` and says what to do next.
    pub fn on_event(&mut self, ev: SlotEvent) -> (r: SlotAction)
        ensures
            final(self).mode == old(self).mode,
            final(self).cache_enabled == old(self).cache_enabled,
            // a slot not started, or settled, ignores everything
            (old(self).phase == SlotPhase::Idle || old(self).phase == SlotPhase::Resolved) ==> *final(self) == *old(self) && r is Wait,
            // the cache read made first settles the slot on a hit, launches on a miss
            old(self).phase == SlotPhase::CheckingCache ==> match ev {
                SlotEvent::CacheRead(Some(v)) => final(self).phase == SlotPhase::Resolved && r
                    == SlotAction::Done(SlotResult::Cached(v)),
                SlotEvent::CacheRead(None) => final(self).phase == SlotPhase::Fetching
                    && final(self).warned == old(self).warned && r is LaunchFetch,
                _ => *final(self) == *old(self) && r is Wait,
            },
            // once launched, a finished live fetch settles the slot with its outcome
            is_running(old(self).phase) ==> (ev matches SlotEvent::LiveFinished(res) ==> final(self).phase == SlotPhase::Resolved && r == SlotAction::Done(
                match res {
                    Ok(v) => SlotResult::Live(v),
                    Err(e) => SlotResult::FetchFailed(e),
                },
            )),
            // the hard timeout bounds the whole race
            is_running(old(self).phase) ==> (ev matches SlotEvent::Tick(t) && t >= FETCH_TIMEOUT_SECS
                ==> final(self).phase == SlotPhase::Resolved && r == SlotAction::Done(
                SlotResult::TimedOut,
            )),
            // the slow warning comes once; with the cache on, it reads the cache
            old(self).phase == SlotPhase::Fetching ==> (ev matches SlotEvent::Tick(t) && SLOW_WARN_SECS
                <= t < FETCH_TIMEOUT_SECS ==> if old(self).warned {
                *final(self) == *old(self) && r is Wait
            } else {
                final(self).warned && r == (SlotAction::WarnSlow {
                    read_cache: old(self).cache_enabled,
                }) && final(self).phase == (if old(self).cache_enabled {
                    SlotPhase::FallingBack
                } else {
                    SlotPhase::Fetching
                })
            }),
            old(self).phase == SlotPhase::Fetching ==> (ev matches SlotEvent::Tick(t) && t
                < SLOW_WARN_SECS ==> *final(self) == *old(self) && r is Wait),
            old(self).phase == SlotPhase::Fetching ==> (ev is CacheRead ==> *final(self) == *old(self)
                && r is Wait),
            // the fallback read settles the slot on a hit; on a miss the wait goes on
            old(self).phase == SlotPhase::FallingBack ==> match ev {
                SlotEvent::CacheRead(Some(v)) => final(self).phase == SlotPhase::Resolved && r
                    == SlotAction::Done(SlotResult::Cached(v)),
                SlotEvent::CacheRead(None) => final(self).phase == SlotPhase::Fetching
                    && final(self).warned == old(self).warned && r is Wait,
                SlotEvent::Tick(t) => t < FETCH_TIMEOUT_SECS ==> *final(self) == *old(self) && r is Wait,
                _ => true,
            },
    {
        match self.phase {
            SlotPhase::Idle | SlotPhase::Resolved => SlotAction::Wait,
            SlotPhase::CheckingCache => match ev {
                SlotEvent::CacheRead(Some(v)) => {
                    self.phase = SlotPhase::Resolved;
                    SlotAction::Done(SlotResult::Cached(v))
                },
                SlotEvent::CacheRead(None) => {
                    self.phase = SlotPhase::Fetching;
                    SlotAction::LaunchFetch
                },
                _ => SlotAction::Wait,
            },
            SlotPhase::Fetching | SlotPhase::FallingBack => match ev {
                SlotEvent::LiveFinished(res) => {
                    self.phase = SlotPhase::Resolved;
                    match res {
                        Ok(v) => SlotAction::Done(SlotResult::Live(v)),
                        Err(e) => SlotAction::Done(SlotResult::FetchFailed(e)),
                    }
                },
                SlotEvent::Tick(t) => {
                    if t >= FETCH_TIMEOUT_SECS {
                        self.phase = SlotPhase::Resolved;
                        SlotAction::Done(SlotResult::TimedOut)
                    } else if t >= SLOW_WARN_SECS && !self.warned && self.phase == SlotPhase::Fetching {
                        self.warned = true;
                        if self.cache_enabled {
                            self.phase = SlotPhase::FallingBack;
                        }
                        SlotAction::WarnSlow { read_cache: self.cache_enabled }
                    } else {
                        SlotAction::Wait
                    }
                },
                SlotEvent::CacheRead(found) => {
                    if self.phase == SlotPhase::FallingBack {
                        match found {
                            Some(v) => {
                                self.phase = SlotPhase::Resolved;
                                SlotAction::Done(SlotResult::Cached(v))
                            },
                            None => {
                                self.phase = SlotPhase::Fetching;
                                SlotAction::Wait
                            },
                        }
                    } else {
                        SlotAction::Wait
                    }
                },
            },
        }
    }
}

/// Why a provider gave no result.
pub enum ProviderErrorKind {
    /// The adapter could not be built; it was never launched.
    Unavailable(String),
    /// The live fetch failed in transport or parsing.
    Fetch(String),
    /// The hard per-provider timeout passed.
    Timeout,
}

/// A provider's failure in one run.
pub struct ProviderError {
    pub provider: String,
    pub kind: ProviderErrorKind,
}

/// A provider's repositories in one run.
pub struct ProviderBatch {
    pub provider: String,
    pub repos: Vec<Repo>,
}

/// The outcome of the run of every provider that produced one.
pub struct MergedFetch {
    /// The repositories of the providers that succeeded, in completion order.
    pub repos: Vec<Repo>,
    /// The failures, in completion order.
    pub errors: Vec<ProviderError>,
    /// The providers that succeeded with no repository.
    pub empty_providers: Vec<String>,
}

/// Why a run produced nothing.
pub enum FetchError {
    /// No provider was run.
    NoProviders,
    /// Every provider failed; their errors in completion order.
    AllProvidersFailed(Vec<ProviderError>),
}

/// The provider's outcome for the result its slot settled on.
pub fn slot_outcome(provider: String, result: SlotResult) -> (r: Result<ProviderBatch, ProviderError>)
    ensures
        match result {
            SlotResult::Cached(v) => r == Ok::<ProviderBatch, ProviderError>(ProviderBatch { provider, repos: v }),
            SlotResult::Live(v) => r == Ok::<ProviderBatch, ProviderError>(ProviderBatch { provider, repos: v }),
            SlotResult::FetchFailed(e) => r == Err::<ProviderBatch, ProviderError>(
                ProviderError { provider, kind: ProviderErrorKind::Fetch(e) },
            ),
            SlotResult::TimedOut => r == Err::<ProviderBatch, ProviderError>(
                ProviderError { provider, kind: ProviderErrorKind::Timeout },
            ),
        },
{
    match result {
        SlotResult::Cached(v) => Ok(ProviderBatch { provider, repos: v }),
        SlotResult::Live(v) => Ok(ProviderBatch { provider, repos: v }),
        SlotResult::FetchFailed(e) => Err(ProviderError { provider, kind: ProviderErrorKind::Fetch(e) }),
        SlotResult::TimedOut => Err(ProviderError { provider, kind: ProviderErrorKind::Timeout }),
    }
}

/// The repositories of the successful outcomes, one batch after another.
pub open spec fn merged_repos(os: Seq<Result<ProviderBatch, ProviderError>>) -> Seq<Repo>
    decreases os.len(),
{
    if os.len() == 0 {
        Seq::empty()
    } else {
        match os.last() {
            Ok(b) => merged_repos(os.drop_last()) + b.repos@,
            Err(_) => merged_repos(os.drop_last()),
        }
    }
}

/// The failures among the outcomes, in their order.
pub open spec fn provider_errors(os: Seq<Result<ProviderBatch, ProviderError>>) -> Seq<ProviderError>
    decreases os.len(),
{
    if os.len() == 0 {
        Seq::empty()
    } else {
        match os.last() {
            Ok(_) => provider_errors(os.drop_last()),
            Err(e) => provider_errors(os.drop_last()).push(e),
        }
    }
}

/// The providers that succeeded with an empty batch, in their order.
pub open spec fn empty_providers(os: Seq<Result<ProviderBatch, ProviderError>>) -> Seq<String>
    decreases os.len(),
{
    if os.len() == 0 {
        Seq::empty()
    } else {
        match os.last() {
            Ok(b) => if b.repos@.len() == 0 {
                empty_providers(os.drop_last()).push(b.provider)
            } else {
                empty_providers(os.drop_last())
            },
            Err(_) => empty_providers(os.drop_last()),
        }
    }
}

/// At least one provider ran and every one of them failed.
pub open spec fn all_failed(os: Seq<Result<ProviderBatch, ProviderError>>) -> bool {
    os.len() > 0 && forall|i: int| 0 <= i < os.len() ==> (#[trigger] os[i]) is Err
}

/// Collects the providers' outcomes, given in completion order.
///
/// A failure never hides another provider's repositories; the run fails as
/// a whole only when every provider failed, or none ran.
pub fn merge_outcomes(outcomes: Vec<Result<ProviderBatch, ProviderError>>) -> (r: Result<MergedFetch, FetchError>)
    ensures
        outcomes@.len() == 0 ==> r matches Err(FetchError::NoProviders),
        all_failed(outcomes@) ==> (r matches Err(FetchError::AllProvidersFailed(es)) && es@
            == provider_errors(outcomes@)),
        outcomes@.len() > 0 && !all_failed(outcomes@) ==> (r matches Ok(m) && m.repos@ == merged_repos(
            outcomes@,
        ) && m.errors@ == provider_errors(outcomes@) && m.empty_providers@ == empty_providers(
            outcomes@,
        )),
{
    let ghost all = outcomes@;
    let n = outcomes.len();
    let mut rest = outcomes;
    let mut repos: Vec<Repo> = Vec::new();
    let mut errors: Vec<ProviderError> = Vec::new();
    let mut empty: Vec<String> = Vec::new();
    let mut any_ok = false;
    let mut i: usize = 0;
    while i < n
        invariant
            n == all.len(),
            i <= n,
            rest@ == all.subrange(i as int, n as int),
            repos@ == merged_repos(all.subrange(0, i as int)),
            errors@ == provider_errors(all.subrange(0, i as int)),
            empty@ == empty_providers(all.subrange(0, i as int)),
            any_ok == exists|j: int| 0 <= j < i && (#[trigger] all[j]) is Ok,
        decreases n - i,
    {
        let ghost pre = all.subrange(0, i as int);
        assert(all.subrange(0, i + 1).drop_last() =~= pre);
        assert(rest@[0] == all[i as int]);
        let o = rest.remove(0);
        match o {
            Ok(batch) => {
                let mut batch = batch;
                if batch.repos.len() == 0 {
                    empty.push(batch.provider);
                }
                repos.append(&mut batch.repos);
                any_ok = true;
            },
            Err(e) => {
                errors.push(e);
            },
        }
        i = i + 1;
        assert(rest@ =~= all.subrange(i as int, n as int));
    }
    assert(all.subrange(0, n as int) =~= all);
    if n == 0 {
        Err(FetchError::NoProviders)
    } else if !any_ok {
        assert(all_failed(all));
        Err(FetchError::AllProvidersFailed(errors))
    } else {
        assert(!all_failed(all));
        Ok(MergedFetch { repos, errors, empty_providers: empty })
    }
}

/// With one provider succeeding and one failing, in either completion
/// order, the run succeeds with the first one's repositories and reports
/// exactly the second one's error.
pub proof fn lemma_one_success_one_failure(a: ProviderBatch, b: ProviderError)
    ensures
        ({
            let os = seq![Ok::<ProviderBatch, ProviderError>(a), Err::<ProviderBatch, ProviderError>(b)];
            !all_failed(os) && merged_repos(os) == a.repos@ && provider_errors(os) == seq![b]
        }),
        ({
            let os = seq![Err::<ProviderBatch, ProviderError>(b), Ok::<ProviderBatch, ProviderError>(a)];
            !all_failed(os) && merged_repos(os) == a.repos@ && provider_errors(os) == seq![b]
        }),
{
    let o1 = seq![Ok::<ProviderBatch, ProviderError>(a), Err::<ProviderBatch, ProviderError>(b)];
    let o2 = seq![Err::<ProviderBatch, ProviderError>(b), Ok::<ProviderBatch, ProviderError>(a)];
    let e = Seq::<Result<ProviderBatch, ProviderError>>::empty();
    assert(o1.drop_last() =~= e.push(Ok::<ProviderBatch, ProviderError>(a)));
    assert(o1.drop_last().drop_last() =~= e);
    assert(o2.drop_last() =~= e.push(Err::<ProviderBatch, ProviderError>(b)));
    assert(o2.drop_last().drop_last() =~= e);
    assert(merged_repos(e) == Seq::<Repo>::empty());
    assert(provider_errors(e) == Seq::<ProviderError>::empty());
    assert(merged_repos(o1.drop_last()) =~= a.repos@);
    assert(merged_repos(o1) =~= a.repos@);
    assert(provider_errors(o1.drop_last()) == Seq::<ProviderError>::empty());
    assert(provider_errors(o1) =~= seq![b]);
    assert(merged_repos(o2.drop_last()) == Seq::<Repo>::empty());
    assert(merged_repos(o2) =~= a.repos@);
    assert(provider_errors(o2.drop_last()) =~= seq![b]);
    assert(provider_errors(o2) =~= seq![b]);
    assert(o1[0] is Ok);
    assert(o2[1] is Ok);
}

/// A successful provider's repositories all reach the merged list, whatever
/// the other providers did.
pub proof fn lemma_success_is_kept(os: Seq<Result<ProviderBatch, ProviderError>>, i: int, k: int)
    requires
        0 <= i < os.len(),
        os[i] matches Ok(b) && 0 <= k < b.repos@.len(),
    ensures
        os[i] matches Ok(b) && merged_repos(os).contains(b.repos@[k]),
    decreases os.len(),
{
    let b = os[i]->Ok_0;
    if i == os.len() - 1 {
        let prev = merged_repos(os.drop_last());
        assert((prev + b.repos@)[prev.len() + k] == b.repos@[k]);
    } else {
        assert(os.drop_last()[i] == os[i]);
        lemma_success_is_kept(os.drop_last(), i, k);
        let prev = merged_repos(os.drop_last());
        let j = choose|j: int| 0 <= j < prev.len() && prev[j] == b.repos@[k];
        match os.last() {
            Ok(c) => {
                assert((prev + c.repos@)[j] == b.repos@[k]);
            },
            Err(_) => {},
        }
    }
}

} // verus!
