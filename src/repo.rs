use vstd::prelude::*;

verus! {

/// One trending repository as reported by a provider.
///
/// `last_activity` is a unix timestamp in seconds.
pub struct Repo {
    pub provider: String,
    pub icon: String,
    pub name: String,
    pub language: Option<String>,
    pub description: Option<String>,
    pub url: String,
    pub stars_today: Option<u64>,
    pub stars_total: Option<u64>,
    pub last_activity: Option<i64>,
    pub topics: Vec<String>,
    pub is_starred: bool,
}

/// The mathematical value of a [`Repo`]: every field by its contents.
pub struct RepoView {
    pub provider: Seq<char>,
    pub icon: Seq<char>,
    pub name: Seq<char>,
    pub language: Option<Seq<char>>,
    pub description: Option<Seq<char>>,
    pub url: Seq<char>,
    pub stars_today: Option<u64>,
    pub stars_total: Option<u64>,
    pub last_activity: Option<i64>,
    pub topics: Seq<Seq<char>>,
    pub is_starred: bool,
}

pub open spec fn opt_str_view(o: Option<String>) -> Option<Seq<char>> {
    match o {
        Some(s) => Some(s@),
        None => None,
    }
}

/// The contents of each string of a sequence.
pub open spec fn str_views(s: Seq<String>) -> Seq<Seq<char>> {
    s.map_values(|x: String| x@)
}

/// The value of each repository of a sequence.
pub open spec fn repo_views(s: Seq<Repo>) -> Seq<RepoView> {
    s.map_values(|r: Repo| r@)
}

/// The names of the repositories of a sequence.
pub open spec fn names_of(s: Seq<RepoView>) -> Set<Seq<char>> {
    Set::new(|n: Seq<char>| exists|i: int| 0 <= i < s.len() && s[i].name == n)
}

impl View for Repo {
    type V = RepoView;

    open spec fn view(&self) -> RepoView {
        RepoView {
            provider: self.provider@,
            icon: self.icon@,
            name: self.name@,
            language: opt_str_view(self.language),
            description: opt_str_view(self.description),
            url: self.url@,
            stars_today: self.stars_today,
            stars_total: self.stars_total,
            last_activity: self.last_activity,
            topics: str_views(self.topics@),
            is_starred: self.is_starred,
        }
    }
}

pub fn clone_opt_str(o: &Option<String>) -> (r: Option<String>)
    ensures
        opt_str_view(r) == opt_str_view(*o),
{
    match o {
        Some(s) => Some(s.clone()),
        None => None,
    }
}

/// Copies a list of strings, keeping their order.
pub fn clone_strings(v: &Vec<String>) -> (r: Vec<String>)
    ensures
        r@ == v@,
{
    let mut r: Vec<String> = Vec::new();
    let mut i: usize = 0;
    while i < v.len()
        invariant
            i <= v.len(),
            r@ == v@.subrange(0, i as int),
        decreases v.len() - i,
    {
        r.push(v[i].clone());
        i = i + 1;
        assert(r@ =~= v@.subrange(0, i as int));
    }
    assert(r@ =~= v@);
    r
}

/// Whether two strings have the same contents.
pub fn same_text(a: &str, b: &str) -> (r: bool)
    ensures
        r == (a@ == b@),
{
    let n = a.unicode_len();
    if n != b.unicode_len() {
        return false;
    }
    let mut i: usize = 0;
    while i < n
        invariant
            n == a@.len(),
            n == b@.len(),
            i <= n,
            forall|j: int| 0 <= j < i ==> a@[j] == b@[j],
        decreases n - i,
    {
        if a.get_char(i) != b.get_char(i) {
            return false;
        }
        i = i + 1;
    }
    assert(a@ =~= b@);
    true
}

/// Whether a list of names holds one with the contents of `name`.
pub fn names_contain(names: &Vec<String>, name: &str) -> (r: bool)
    ensures
        r == str_views(names@).contains(name@),
{
    let mut i: usize = 0;
    while i < names.len()
        invariant
            i <= names.len(),
            forall|j: int| 0 <= j < i ==> names@[j]@ != name@,
        decreases names.len() - i,
    {
        if same_text(names[i].as_str(), name) {
            assert(str_views(names@)[i as int] == name@);
            return true;
        }
        i = i + 1;
    }
    assert(!str_views(names@).contains(name@)) by {
        if str_views(names@).contains(name@) {
            let j = choose|j: int| 0 <= j < names@.len() && str_views(names@)[j] == name@;
            assert(names@[j]@ == name@);
        }
    }
    false
}

/// Copies the names that do not occur earlier in the list.
pub fn dedup_names(names: &Vec<String>) -> (r: Vec<String>)
    ensures
        str_views(r@).to_set() == str_views(names@).to_set(),
        str_views(r@).no_duplicates(),
{
    let mut r: Vec<String> = Vec::new();
    let mut i: usize = 0;
    while i < names.len()
        invariant
            i <= names.len(),
            str_views(r@).to_set() == str_views(names@.subrange(0, i as int)).to_set(),
            str_views(r@).no_duplicates(),
        decreases names.len() - i,
    {
        let ghost before = r@;
        proof {
            str_views(before).lemma_push_to_set_commute(names@[i as int]@);
            str_views(names@.subrange(0, i as int)).lemma_push_to_set_commute(names@[i as int]@);
        }
        if !names_contain(&r, names[i].as_str()) {
            r.push(names[i].clone());
            assert(str_views(r@) =~= str_views(before).push(names@[i as int]@));
        }
        assert(str_views(names@.subrange(0, i + 1)) =~= str_views(names@.subrange(0, i as int)).push(
            names@[i as int]@,
        ));
        i = i + 1;
        assert(str_views(r@).to_set() =~= str_views(names@.subrange(0, i as int)).to_set());
    }
    assert(names@.subrange(0, i as int) =~= names@);
    r
}

impl Clone for Repo {
    fn clone(&self) -> (r: Self)
        ensures
            r@ == self@,
    {
        Repo {
            provider: self.provider.clone(),
            icon: self.icon.clone(),
            name: self.name.clone(),
            language: clone_opt_str(&self.language),
            description: clone_opt_str(&self.description),
            url: self.url.clone(),
            stars_today: self.stars_today,
            stars_total: self.stars_total,
            last_activity: self.last_activity,
            topics: clone_strings(&self.topics),
            is_starred: self.is_starred,
        }
    }
}

} // verus!
