use vstd::prelude::*;

use crate::starred::StarredCache;
use crate::repo::{clone_strings, dedup_names, names_contain, names_of, repo_views, same_text, str_views, Repo, RepoView};

verus! {

/// The persisted record of one day: the names already shown and the
/// pagination offset into the providers' ranked lists.
///
/// The names hold no duplicate.
pub struct SeenEntry {
    date: String,
    seen_repos: Vec<String>,
    fetch_offset: usize,
}

/// The mathematical value of a [`SeenEntry`].
pub struct SeenEntryView {
    pub date: Seq<char>,
    pub seen: Set<Seq<char>>,
    pub offset: nat,
}

impl View for SeenEntry {
    type V = SeenEntryView;

    closed spec fn view(&self) -> SeenEntryView {
        SeenEntryView { date: self.date@, seen: str_views(self.seen_repos@).to_set(), offset: self.fetch_offset as nat }
    }
}

pub open spec fn opt_entry_view(e: Option<SeenEntry>) -> Option<SeenEntryView> {
    match e {
        Some(x) => Some(x@),
        None => None,
    }
}

impl SeenEntry {
    pub closed spec fn wf(&self) -> bool {
        str_views(self.seen_repos@).no_duplicates()
    }

    /// Builds the record of `date`; a name given twice is kept once.
    pub fn from_parts(date: String, seen_repos: Vec<String>, fetch_offset: usize) -> (r: SeenEntry)
        ensures
            r.wf(),
            r@ == (SeenEntryView {
                date: date@,
                seen: str_views(seen_repos@).to_set(),
                offset: fetch_offset as nat,
            }),
    {
        let names = dedup_names(&seen_repos);
        SeenEntry { date, seen_repos: names, fetch_offset }
    }

    pub fn date(&self) -> (r: &str)
        ensures
            r@ == self@.date,
    {
        self.date.as_str()
    }

    pub fn seen_repos(&self) -> (r: &Vec<String>)
        ensures
            str_views(r@).to_set() == self@.seen,
            self.wf() ==> str_views(r@).no_duplicates(),
    {
        &self.seen_repos
    }

    pub fn fetch_offset(&self) -> (r: usize)
        ensures
            r == self@.offset,
    {
        self.fetch_offset
    }
}

/// What a tracker shows on `today`: the seen set and the offset.
pub struct SeenView {
    pub today: Seq<char>,
    pub seen: Set<Seq<char>>,
    pub offset: nat,
}

/// A record dated another day than `today` counts as no record.
pub open spec fn live_view(today: Seq<char>, stored: Option<SeenEntryView>) -> SeenView {
    match stored {
        Some(e) => if e.date == today {
            SeenView { today, seen: e.seen, offset: e.offset }
        } else {
            SeenView { today, seen: Set::empty(), offset: 0 }
        },
        None => SeenView { today, seen: Set::empty(), offset: 0 },
    }
}

/// Keeps the repositories whose name is not in `seen`, in their order.
pub open spec fn unseen_in(rs: Seq<RepoView>, seen: Set<Seq<char>>) -> Seq<RepoView> {
    rs.filter(|v: RepoView| !seen.contains(v.name))
}

impl SeenView {
    pub open spec fn marked(self, names: Set<Seq<char>>) -> SeenView {
        SeenView { seen: self.seen.union(names), ..self }
    }

    pub open spec fn advanced(self, n: nat) -> SeenView {
        SeenView { offset: self.offset + n, ..self }
    }
}

/// A record dated any day other than today is the same as no record: the
/// seen set is empty and the offset is 0.
pub proof fn lemma_stale_record_is_fresh(today: Seq<char>, e: SeenEntryView)
    requires
        e.date != today,
    ensures
        live_view(today, Some(e)) == live_view(today, None),
        live_view(today, Some(e)).seen == Set::<Seq<char>>::empty(),
        live_view(today, Some(e)).offset == 0,
{
}

/// Filtering an already filtered list with the same seen set changes nothing.
pub proof fn lemma_filter_unseen_idempotent(rs: Seq<RepoView>, seen: Set<Seq<char>>)
    ensures
        unseen_in(unseen_in(rs, seen), seen) == unseen_in(rs, seen),
    decreases rs.len(),
{
    let pred = |v: RepoView| !seen.contains(v.name);
    if rs.len() > 0 {
        let p = rs.drop_last();
        let x = rs.last();
        assert(rs =~= p.push(x));
        lemma_filter_unseen_idempotent(p, seen);
        p.lemma_filter_push(x, pred);
        if pred(x) {
            p.filter(pred).lemma_filter_push(x, pred);
        }
    } else {
        reveal(Seq::filter);
    }
}

/// When every name of `rs` is in `seen`, filtering `rs` leaves nothing.
pub proof fn lemma_all_seen_filters_to_empty(rs: Seq<RepoView>, seen: Set<Seq<char>>)
    requires
        forall|i: int| 0 <= i < rs.len() ==> seen.contains(#[trigger] rs[i].name),
    ensures
        unseen_in(rs, seen) == Seq::<RepoView>::empty(),
    decreases rs.len(),
{
    let pred = |v: RepoView| !seen.contains(v.name);
    reveal(Seq::filter);
    if rs.len() > 0 {
        let p = rs.drop_last();
        assert forall|i: int| 0 <= i < p.len() implies seen.contains(#[trigger] p[i].name) by {
            assert(p[i] == rs[i]);
        }
        lemma_all_seen_filters_to_empty(p, seen);
        assert(!pred(rs.last()));
    } else {
        assert(rs =~= Seq::<RepoView>::empty());
    }
}

/// Marking a list seen and then filtering the same list yields nothing.
pub proof fn lemma_marked_then_filtered_is_empty(v: SeenView, rs: Seq<RepoView>)
    ensures
        unseen_in(rs, v.marked(names_of(rs)).seen) == Seq::<RepoView>::empty(),
{
    let seen = v.marked(names_of(rs)).seen;
    assert forall|i: int| 0 <= i < rs.len() implies seen.contains(#[trigger] rs[i].name) by {
        assert(names_of(rs).contains(rs[i].name));
    }
    lemma_all_seen_filters_to_empty(rs, seen);
}

/// Advancing the offset by `n` and then by `m` is advancing it by `n + m`,
/// and leaves the seen set as it was.
pub proof fn lemma_advance_composes(v: SeenView, n: nat, m: nat)
    ensures
        v.advanced(n).advanced(m) == v.advanced(n + m),
        v.advanced(n).advanced(m).seen == v.seen,
{
}

/// The seen set and pagination offset of the current day.
///
/// Holds the date of today and the stored record, which may be of another
/// day. Every change writes a record dated today; the caller persists
/// [`SeenTracker::stored`] afterwards.
pub struct SeenTracker {
    today: String,
    entry: Option<SeenEntry>,
}

impl View for SeenTracker {
    type V = SeenView;

    closed spec fn view(&self) -> SeenView {
        live_view(self.today@, opt_entry_view(self.entry))
    }
}

/// The UTC calendar day of the unix time `secs`, written YYYY-MM-DD.
pub uninterp spec fn utc_date_of(secs: int) -> Seq<char>;

/// The last second of the year 9999, in unix time.
pub const LAST_SECOND_OF_9999: u64 = 253_402_300_799;

/// Relies on chrono's `DateTime::from_timestamp`, which gives `None` only
/// outside chrono's range of dates (which reaches well past the year 9999),
/// and on its `%Y-%m-%d` formatting: the UTC day of the unix time `secs`.
#[verifier::external_body]
fn utc_date(secs: i64) -> (r: Option<String>)
    ensures
        0 <= secs <= LAST_SECOND_OF_9999 ==> r is Some,
        r matches Some(d) ==> d@ == utc_date_of(secs as int),
{
    match chrono::DateTime::from_timestamp(secs, 0) {
        Some(t) => Some(t.format("%Y-%m-%d").to_string()),
        None => None,
    }
}

impl SeenTracker {
    pub closed spec fn wf(&self) -> bool {
        match self.entry {
            Some(e) => e.wf(),
            None => true,
        }
    }

    pub closed spec fn stored_view(&self) -> Option<SeenEntryView> {
        opt_entry_view(self.entry)
    }

    /// A tracker for the UTC day of the unix time `secs` over the stored
    /// record; none when that day lies outside the range of dates, which
    /// holds every day up to the end of the year 9999.
    pub fn at_time(secs: u64, stored: Option<SeenEntry>) -> (r: Option<SeenTracker>)
        requires
            stored matches Some(e) ==> e.wf(),
        ensures
            secs <= LAST_SECOND_OF_9999 ==> r is Some,
            secs > i64::MAX ==> r is None,
            r matches Some(t) ==> {
                &&& t.wf()
                &&& t.stored_view() == opt_entry_view(stored)
                &&& t@ == live_view(utc_date_of(secs as int), opt_entry_view(stored))
            },
    {
        if secs > i64::MAX as u64 {
            return None;
        }
        match utc_date(secs as i64) {
            Some(today) => Some(SeenTracker::with_today(today, stored)),
            None => None,
        }
    }

    /// A tracker for the current UTC day over the stored record, if any;
    /// none when the day cannot be told, and tracking is then off. A clock
    /// that reads before 1970 counts as 1970-01-01.
    pub fn new(stored: Option<SeenEntry>) -> (r: Option<SeenTracker>)
        requires
            stored matches Some(e) ==> e.wf(),
        ensures
            r matches Some(t) ==> {
                &&& t.wf()
                &&& t.stored_view() == opt_entry_view(stored)
                &&& exists|secs: u64| t@ == live_view(utc_date_of(secs as int), opt_entry_view(stored))
            },
    {
        let secs = StarredCache::now();
        SeenTracker::at_time(secs, stored)
    }

    /// A tracker for the day `today` (YYYY-MM-DD) over the stored record.
    pub fn with_today(today: String, stored: Option<SeenEntry>) -> (r: SeenTracker)
        requires
            stored matches Some(e) ==> e.wf(),
        ensures
            r.wf(),
            r.stored_view() == opt_entry_view(stored),
            r@ == live_view(today@, opt_entry_view(stored)),
    {
        SeenTracker { today, entry: stored }
    }

    /// The date this tracker takes for today.
    pub fn today(&self) -> (r: &str)
        ensures
            r@ == self@.today,
    {
        self.today.as_str()
    }

    /// The record to persist: the last one written, or the one loaded.
    pub fn stored(&self) -> (r: &Option<SeenEntry>)
        ensures
            opt_entry_view(*r) == self.stored_view(),
            self.wf() ==> (r matches Some(e) ==> e.wf()),
    {
        &self.entry
    }

    /// The stored record when it is dated today.
    fn get_entry(&self) -> (r: Option<&SeenEntry>)
        requires
            self.wf(),
        ensures
            r is Some <==> (self.stored_view() matches Some(e) && e.date == self@.today),
            match r {
                Some(e) => Some(e@) == self.stored_view() && e.wf() && e@.date == self@.today && e@.seen == self@.seen && e@.offset
                    == self@.offset,
                None => self@.seen == Set::<Seq<char>>::empty() && self@.offset == 0,
            },
    {
        match &self.entry {
            Some(e) => {
                if same_text(e.date.as_str(), self.today.as_str()) {
                    Some(e)
                } else {
                    None
                }
            },
            None => None,
        }
    }

    /// The names seen today, each once; empty on a fresh day.
    pub fn get_seen(&self) -> (r: Vec<String>)
        requires
            self.wf(),
        ensures
            str_views(r@).to_set() == self@.seen,
            str_views(r@).no_duplicates(),
            r@.len() == self@.seen.len(),
    {
        let r = match self.get_entry() {
            Some(e) => clone_strings(&e.seen_repos),
            None => {
                let r: Vec<String> = Vec::new();
                assert(str_views(r@).to_set() =~= Set::<Seq<char>>::empty());
                r
            },
        };
        proof {
            str_views(r@).unique_seq_to_set();
        }
        r
    }

    /// Today's pagination offset; 0 on a fresh day.
    pub fn get_fetch_offset(&self) -> (r: usize)
        requires
            self.wf(),
        ensures
            r == self@.offset,
    {
        match self.get_entry() {
            Some(e) => e.fetch_offset,
            None => 0,
        }
    }

    /// Writes today's record with the given names and offset.
    fn save_seen_with_offset(&mut self, seen_repos: Vec<String>, offset: usize)
        requires
            str_views(seen_repos@).no_duplicates(),
        ensures
            final(self).wf(),
            final(self)@ == (SeenView {
                today: old(self)@.today,
                seen: str_views(seen_repos@).to_set(),
                offset: offset as nat,
            }),
            final(self).stored_view() == Some(
                SeenEntryView {
                    date: old(self)@.today,
                    seen: str_views(seen_repos@).to_set(),
                    offset: offset as nat,
                },
            ),
    {
        let date = self.today.clone();
        self.entry = Some(SeenEntry { date, seen_repos, fetch_offset: offset });
    }

    /// Writes today's record with the given names, keeping the offset.
    fn save_seen(&mut self, seen_repos: Vec<String>)
        requires
            old(self).wf(),
            str_views(seen_repos@).no_duplicates(),
        ensures
            final(self).wf(),
            final(self)@ == (SeenView { seen: str_views(seen_repos@).to_set(), ..old(self)@ }),
            final(self).stored_view() == Some(
                SeenEntryView {
                    date: old(self)@.today,
                    seen: str_views(seen_repos@).to_set(),
                    offset: old(self)@.offset,
                },
            ),
    {
        let current_offset = self.get_fetch_offset();
        self.save_seen_with_offset(seen_repos, current_offset);
    }

    /// Adds `increment` to today's offset; the seen set stays.
    pub fn increment_fetch_offset(&mut self, increment: usize)
        requires
            old(self).wf(),
            old(self)@.offset + increment <= usize::MAX,
        ensures
            final(self).wf(),
            final(self)@ == old(self)@.advanced(increment as nat),
            final(self).stored_view() == Some(
                SeenEntryView {
                    date: old(self)@.today,
                    seen: final(self)@.seen,
                    offset: final(self)@.offset,
                },
            ),
    {
        let seen_repos = self.get_seen();
        let current_offset = self.get_fetch_offset();
        self.save_seen_with_offset(seen_repos, current_offset + increment);
    }

    /// Adds the names of `repos` to today's seen set; the offset stays.
    pub fn mark_seen(&mut self, repos: &[Repo])
        requires
            old(self).wf(),
        ensures
            final(self).wf(),
            final(self)@ == old(self)@.marked(names_of(repo_views(repos@))),
            final(self).stored_view() == Some(
                SeenEntryView {
                    date: old(self)@.today,
                    seen: final(self)@.seen,
                    offset: final(self)@.offset,
                },
            ),
    {
        let mut seen_repos = self.get_seen();
        let ghost start = self@.seen;
        let mut i: usize = 0;
        while i < repos.len()
            invariant
                i <= repos@.len(),
                str_views(seen_repos@).no_duplicates(),
                str_views(seen_repos@).to_set() == start.union(
                    names_of(repo_views(repos@.subrange(0, i as int))),
                ),
            decreases repos@.len() - i,
        {
            let ghost before = seen_repos@;
            let name = &repos[i].name;
            proof {
                str_views(before).lemma_push_to_set_commute(name@);
            }
            if !names_contain(&seen_repos, name.as_str()) {
                seen_repos.push(name.clone());
                assert(str_views(seen_repos@) =~= str_views(before).push(name@));
            }
            assert(repo_views(repos@.subrange(0, i + 1)) =~= repo_views(
                repos@.subrange(0, i as int),
            ).push(repos@[i as int]@));
            i = i + 1;
            assert(names_of(repo_views(repos@.subrange(0, i as int))) =~= names_of(
                repo_views(repos@.subrange(0, i - 1)),
            ).insert(name@)) by {
                let now = repo_views(repos@.subrange(0, i as int));
                let prev = repo_views(repos@.subrange(0, i - 1));
                assert forall|n: Seq<char>| names_of(now).contains(n) implies names_of(
                    prev,
                ).insert(name@).contains(n) by {
                    let j = choose|j: int| 0 <= j < now.len() && now[j].name == n;
                    if j < i - 1 {
                        assert(prev[j].name == n);
                    }
                }
                assert forall|n: Seq<char>| names_of(prev).insert(name@).contains(n) implies names_of(
                    now,
                ).contains(n) by {
                    if n == name@ {
                        assert(now[i - 1].name == n);
                    } else {
                        let j = choose|j: int| 0 <= j < prev.len() && prev[j].name == n;
                        assert(now[j].name == n);
                    }
                }
            }
            assert(str_views(seen_repos@).to_set() =~= start.union(
                names_of(repo_views(repos@.subrange(0, i as int))),
            ));
        }
        assert(repos@.subrange(0, i as int) =~= repos@);
        self.save_seen(seen_repos);
        assert(self@.seen =~= old(self)@.marked(names_of(repo_views(repos@))).seen);
    }

    /// The repositories whose name is not in today's seen set, in their order.
    pub fn filter_unseen(&self, repos: &[Repo]) -> (r: Vec<Repo>)
        requires
            self.wf(),
        ensures
            repo_views(r@) == unseen_in(repo_views(repos@), self@.seen),
    {
        let seen = self.get_seen();
        let mut r: Vec<Repo> = Vec::new();
        let mut i: usize = 0;
        while i < repos.len()
            invariant
                i <= repos@.len(),
                str_views(seen@).to_set() == self@.seen,
                repo_views(r@) == unseen_in(repo_views(repos@.subrange(0, i as int)), self@.seen),
            decreases repos@.len() - i,
        {
            let ghost before = r@;
            let ghost pre = repo_views(repos@.subrange(0, i as int));
            if !names_contain(&seen, repos[i].name.as_str()) {
                r.push(repos[i].clone());
                assert(repo_views(r@) =~= repo_views(before).push(repos@[i as int]@));
            }
            assert(repo_views(repos@.subrange(0, i + 1)) =~= pre.push(repos@[i as int]@));
            proof {
                pre.lemma_filter_push(repos@[i as int]@, |v: RepoView| !self@.seen.contains(v.name));
            }
            i = i + 1;
        }
        assert(repos@.subrange(0, i as int) =~= repos@);
        r
    }

    /// Drops the stored record: today becomes fresh.
    pub fn clear(&mut self)
        ensures
            final(self).wf(),
            final(self).stored_view() == None::<SeenEntryView>,
            final(self)@ == live_view(old(self)@.today, None),
    {
        self.entry = None;
    }
}

} // verus!
