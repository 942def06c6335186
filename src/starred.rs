use vstd::prelude::*;

use crate::repo::{clone_strings, dedup_names, names_contain, str_views};

verus! {

/// How long a starred list stays valid, in seconds.
pub const DEFAULT_TTL_SECS: u64 = 3600;

#[verifier::external_type_specification]
#[verifier::external_body]
pub struct ExSystemTime(std::time::SystemTime);

#[verifier::external_type_specification]
#[verifier::external_body]
pub struct ExSystemTimeError(std::time::SystemTimeError);

/// Relies on `SystemTime::now`: the clock's current reading.
#[verifier::external_body]
fn system_now() -> (r: std::time::SystemTime) {
    std::time::SystemTime::now()
}

/// Relies on `SystemTime::duration_since` with `UNIX_EPOCH`: the time since
/// the epoch, or an error when `t` reads earlier than it.
#[verifier::external_body]
fn since_unix_epoch(t: std::time::SystemTime) -> (r: Result<std::time::Duration, std::time::SystemTimeError>) {
    t.duration_since(std::time::UNIX_EPOCH)
}

/// Relies on `Duration::as_secs`: the whole seconds of `d`.
#[verifier::external_body]
fn whole_secs(d: std::time::Duration) -> (r: u64) {
    d.as_secs()
}

/// A stored starred list and the unix time, in seconds, it was written at.
///
/// The names hold no duplicate.
pub struct StarredEntry {
    timestamp: u64,
    starred_repos: Vec<String>,
}

pub struct StarredEntryView {
    pub timestamp: u64,
    pub names: Set<Seq<char>>,
}

impl View for StarredEntry {
    type V = StarredEntryView;

    closed spec fn view(&self) -> StarredEntryView {
        StarredEntryView { timestamp: self.timestamp, names: str_views(self.starred_repos@).to_set() }
    }
}

impl StarredEntry {
    pub closed spec fn wf(&self) -> bool {
        str_views(self.starred_repos@).no_duplicates()
    }

    /// The list `starred_repos` written at `timestamp`; a name given twice
    /// is kept once.
    pub fn from_parts(timestamp: u64, starred_repos: Vec<String>) -> (r: StarredEntry)
        ensures
            r.wf(),
            r@ == (StarredEntryView { timestamp, names: str_views(starred_repos@).to_set() }),
    {
        StarredEntry { timestamp, starred_repos: dedup_names(&starred_repos) }
    }

    pub fn timestamp(&self) -> (r: u64)
        ensures
            r == self@.timestamp,
    {
        self.timestamp
    }

    pub fn starred_repos(&self) -> (r: &Vec<String>)
        ensures
            str_views(r@).to_set() == self@.names,
            self.wf() ==> str_views(r@).no_duplicates(),
    {
        &self.starred_repos
    }
}

pub struct StarredCacheView {
    pub ttl: u64,
    pub entry: Option<StarredEntryView>,
}

/// The age of a list written at `stamp`, seen at `now`; 0 when the clock
/// went back.
pub open spec fn age(now: u64, stamp: u64) -> int {
    if now >= stamp {
        now - stamp
    } else {
        0
    }
}

/// The list a cache hands out at `now`: none once its age passes the ttl.
pub open spec fn starred_at(v: StarredCacheView, now: u64) -> Option<Set<Seq<char>>> {
    match v.entry {
        Some(e) => if age(now, e.timestamp) > v.ttl {
            None
        } else {
            Some(e.names)
        },
        None => None,
    }
}

/// Whether the list handed out at `now` holds `name`.
pub open spec fn starred_holds(v: StarredCacheView, name: Seq<char>, now: u64) -> bool {
    match starred_at(v, now) {
        Some(ns) => ns.contains(name),
        None => false,
    }
}

/// The cache after writing `names` at `now`.
pub open spec fn saved(v: StarredCacheView, names: Set<Seq<char>>, now: u64) -> StarredCacheView {
    StarredCacheView { ttl: v.ttl, entry: Some(StarredEntryView { timestamp: now, names }) }
}

/// A list read back within the ttl of its writing is the list written.
pub proof fn lemma_saved_then_read_within_ttl(v: StarredCacheView, names: Set<Seq<char>>, stamp: u64, now: u64)
    requires
        age(now, stamp) <= v.ttl,
    ensures
        starred_at(saved(v, names, stamp), now) == Some(names),
{
}

/// Once the ttl has passed since its writing, no list is handed out,
/// whatever it held.
pub proof fn lemma_saved_then_expired(v: StarredCacheView, names: Set<Seq<char>>, stamp: u64, now: u64)
    requires
        now - stamp > v.ttl,
    ensures
        starred_at(saved(v, names, stamp), now) == None::<Set<Seq<char>>>,
{
}

/// The user's starred repository names, valid for a time to live.
pub struct StarredCache {
    ttl_secs: u64,
    entry: Option<StarredEntry>,
}

impl View for StarredCache {
    type V = StarredCacheView;

    closed spec fn view(&self) -> StarredCacheView {
        StarredCacheView {
            ttl: self.ttl_secs,
            entry: match self.entry {
                Some(e) => Some(e@),
                None => None,
            },
        }
    }
}

impl StarredCache {
    pub closed spec fn wf(&self) -> bool {
        match self.entry {
            Some(e) => e.wf(),
            None => true,
        }
    }

    /// A cache over the stored list, if any, with a ttl of one hour.
    pub fn new(stored: Option<StarredEntry>) -> (r: StarredCache)
        requires
            stored matches Some(e) ==> e.wf(),
        ensures
            r.wf(),
            r@.ttl == DEFAULT_TTL_SECS,
            r@.entry == (match stored {
                Some(e) => Some(e@),
                None => None,
            }),
    {
        StarredCache::with_ttl(DEFAULT_TTL_SECS, stored)
    }

    /// A cache over the stored list with a ttl of `ttl_secs`.
    pub fn with_ttl(ttl_secs: u64, stored: Option<StarredEntry>) -> (r: StarredCache)
        requires
            stored matches Some(e) ==> e.wf(),
        ensures
            r.wf(),
            r@.ttl == ttl_secs,
            r@.entry == (match stored {
                Some(e) => Some(e@),
                None => None,
            }),
    {
        StarredCache { ttl_secs, entry: stored }
    }

    /// The current unix time in seconds; 0 when the clock reads before the epoch.
    pub fn now() -> (r: u64) {
        match since_unix_epoch(system_now()) {
            Ok(d) => whole_secs(d),
            Err(_) => 0,
        }
    }

    pub fn ttl_secs(&self) -> (r: u64)
        ensures
            r == self@.ttl,
    {
        self.ttl_secs
    }

    /// The record to persist.
    pub fn stored(&self) -> (r: &Option<StarredEntry>)
        ensures
            self@.entry == (match *r {
                Some(e) => Some(e@),
                None => None,
            }),
            self.wf() ==> (r matches Some(e) ==> e.wf()),
    {
        &self.entry
    }

    /// The starred list as seen at `now`: none when absent or older than the ttl.
    pub fn get_starred_at(&self, now: u64) -> (r: Option<Vec<String>>)
        requires
            self.wf(),
        ensures
            match r {
                Some(v) => starred_at(self@, now) == Some(str_views(v@).to_set()) && str_views(
                    v@,
                ).no_duplicates(),
                None => starred_at(self@, now) is None,
            },
    {
        match &self.entry {
            Some(e) => {
                let age = now.saturating_sub(e.timestamp);
                if age > self.ttl_secs {
                    None
                } else {
                    Some(clone_strings(&e.starred_repos))
                }
            },
            None => None,
        }
    }

    /// The starred list as seen now: none when absent or expired.
    pub fn get_starred(&self) -> (r: Option<Vec<String>>)
        requires
            self.wf(),
        ensures
            r matches Some(v) ==> str_views(v@).no_duplicates(),
            exists|t: u64|
                match r {
                    Some(v) => starred_at(self@, t) == Some(str_views(v@).to_set()),
                    None => starred_at(self@, t) is None,
                },
    {
        self.get_starred_at(StarredCache::now())
    }

    /// Overwrites the list with `starred_repos`, written at `now`.
    pub fn save_starred_at(&mut self, starred_repos: Vec<String>, now: u64)
        ensures
            final(self).wf(),
            final(self)@ == saved(old(self)@, str_views(starred_repos@).to_set(), now),
    {
        self.entry = Some(StarredEntry::from_parts(now, starred_repos));
    }

    /// Overwrites the list with `starred_repos`, written at the current time.
    pub fn save_starred(&mut self, starred_repos: Vec<String>)
        ensures
            final(self).wf(),
            exists|t: u64| final(self)@ == saved(old(self)@, str_views(starred_repos@).to_set(), t),
    {
        let now = StarredCache::now();
        self.save_starred_at(starred_repos, now);
    }

    /// Whether `repo_name` is in the list as seen at `now`.
    pub fn is_starred_at(&self, repo_name: &str, now: u64) -> (r: bool)
        requires
            self.wf(),
        ensures
            r == starred_holds(self@, repo_name@, now),
    {
        match self.get_starred_at(now) {
            Some(starred) => names_contain(&starred, repo_name),
            None => false,
        }
    }

    /// Whether `repo_name` is in the list as seen now.
    pub fn is_starred(&self, repo_name: &str) -> (r: bool)
        requires
            self.wf(),
        ensures
            exists|t: u64| r == starred_holds(self@, repo_name@, t),
    {
        self.is_starred_at(repo_name, StarredCache::now())
    }

    /// Drops the stored list.
    pub fn clear(&mut self)
        ensures
            final(self).wf(),
            final(self)@ == (StarredCacheView { ttl: old(self)@.ttl, entry: None }),
    {
        self.entry = None;
    }
}

} // verus!
