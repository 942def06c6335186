use vstd::prelude::*;

use crate::repo::{names_contain, repo_views, same_text, str_views, Repo, RepoView};

verus! {

/// The number of ASCII characters of `s`.
pub open spec fn ascii_count(s: Seq<char>) -> nat {
    s.filter(|c: char| (c as u32) < 128).len()
}

/// At least `num / den` of the characters of `s` are ASCII; an empty text
/// passes.
pub open spec fn ascii_share_at_least(s: Seq<char>, num: nat, den: nat) -> bool {
    s.len() == 0 || den * ascii_count(s) >= num * s.len()
}

/// The name is at least 80% ASCII and the description, when present, at
/// least 70%.
pub open spec fn mostly_ascii(r: RepoView) -> bool {
    ascii_share_at_least(r.name, 8, 10) && match r.description {
        Some(d) => ascii_share_at_least(d, 7, 10),
        None => true,
    }
}

/// The stars of a repository with no total count as 0.
pub open spec fn meets_min_stars_spec(r: RepoView, min_stars: u32) -> bool {
    match r.stars_total {
        Some(n) => n >= min_stars,
        None => min_stars == 0,
    }
}

/// Counts the ASCII characters of `s`, and all of them.
fn ascii_counts(s: &str) -> (r: (usize, usize))
    ensures
        r.0 == ascii_count(s@),
        r.1 == s@.len(),
{
    let n = s.unicode_len();
    let mut count: usize = 0;
    let mut i: usize = 0;
    while i < n
        invariant
            n == s@.len(),
            i <= n,
            count == ascii_count(s@.subrange(0, i as int)),
            count <= i,
        decreases n - i,
    {
        let c = s.get_char(i);
        let ghost pre = s@.subrange(0, i as int);
        assert(s@.subrange(0, i + 1) =~= pre.push(c));
        proof {
            pre.lemma_filter_push(c, |c: char| (c as u32) < 128);
        }
        if (c as u32) < 128 {
            count = count + 1;
        }
        i = i + 1;
    }
    assert(s@.subrange(0, n as int) =~= s@);
    (count, n)
}

proof fn lemma_product_fits(a: u64, b: usize)
    ensures
        (a as int) * (b as int) <= u128::MAX,
{
    assert((a as int) * (b as int) <= (u64::MAX as int) * (u64::MAX as int)) by (nonlinear_arith)
        requires
            0 <= a <= u64::MAX,
            0 <= b <= u64::MAX,
    ;
}

/// Whether at least `num / den` of the characters of `s` are ASCII.
fn ascii_share_ok(s: &str, num: u64, den: u64) -> (r: bool)
    ensures
        r == ascii_share_at_least(s@, num as nat, den as nat),
{
    let (ascii, total) = ascii_counts(s);
    if total == 0 {
        return true;
    }
    proof {
        lemma_product_fits(den, ascii);
        lemma_product_fits(num, total);
    }
    let lhs = (den as u128) * (ascii as u128);
    let rhs = (num as u128) * (total as u128);
    lhs >= rhs
}

/// Whether a repository reads as mostly ASCII: its name at least 80%, its
/// description, when present, at least 70%.
pub fn is_mostly_ascii(repo: &Repo) -> (r: bool)
    ensures
        r == mostly_ascii(repo@),
{
    if !ascii_share_ok(repo.name.as_str(), 8, 10) {
        return false;
    }
    match &repo.description {
        Some(desc) => ascii_share_ok(desc.as_str(), 7, 10),
        None => true,
    }
}

/// Whether the total stars of `repo`, 0 when unknown, reach `min_stars`.
pub fn meets_min_stars(repo: &Repo, min_stars: u32) -> (r: bool)
    ensures
        r == meets_min_stars_spec(repo@, min_stars),
{
    match repo.stars_total {
        Some(n) => n >= min_stars as u64,
        None => min_stars == 0,
    }
}

/// The repositories that read as mostly ASCII, in their order.
pub fn retain_mostly_ascii(repos: &[Repo]) -> (r: Vec<Repo>)
    ensures
        repo_views(r@) == repo_views(repos@).filter(|v: RepoView| mostly_ascii(v)),
{
    let mut r: Vec<Repo> = Vec::new();
    let mut i: usize = 0;
    while i < repos.len()
        invariant
            i <= repos@.len(),
            repo_views(r@) == repo_views(repos@.subrange(0, i as int)).filter(
                |v: RepoView| mostly_ascii(v),
            ),
        decreases repos@.len() - i,
    {
        let ghost before = r@;
        let ghost pre = repo_views(repos@.subrange(0, i as int));
        if is_mostly_ascii(&repos[i]) {
            r.push(repos[i].clone());
            assert(repo_views(r@) =~= repo_views(before).push(repos@[i as int]@));
        }
        assert(repo_views(repos@.subrange(0, i + 1)) =~= pre.push(repos@[i as int]@));
        proof {
            pre.lemma_filter_push(repos@[i as int]@, |v: RepoView| mostly_ascii(v));
        }
        i = i + 1;
    }
    assert(repos@.subrange(0, i as int) =~= repos@);
    r
}

/// The repositories whose total stars reach `min_stars`, in their order.
pub fn retain_min_stars(repos: &[Repo], min_stars: u32) -> (r: Vec<Repo>)
    ensures
        repo_views(r@) == repo_views(repos@).filter(|v: RepoView| meets_min_stars_spec(v, min_stars)),
{
    let mut r: Vec<Repo> = Vec::new();
    let mut i: usize = 0;
    while i < repos.len()
        invariant
            i <= repos@.len(),
            repo_views(r@) == repo_views(repos@.subrange(0, i as int)).filter(
                |v: RepoView| meets_min_stars_spec(v, min_stars),
            ),
        decreases repos@.len() - i,
    {
        let ghost before = r@;
        let ghost pre = repo_views(repos@.subrange(0, i as int));
        if meets_min_stars(&repos[i], min_stars) {
            r.push(repos[i].clone());
            assert(repo_views(r@) =~= repo_views(before).push(repos@[i as int]@));
        }
        assert(repo_views(repos@.subrange(0, i + 1)) =~= pre.push(repos@[i as int]@));
        proof {
            pre.lemma_filter_push(repos@[i as int]@, |v: RepoView| meets_min_stars_spec(v, min_stars));
        }
        i = i + 1;
    }
    assert(repos@.subrange(0, i as int) =~= repos@);
    r
}

/// A repository of the provider "github" gets its starred flag from
/// `starred`; others stay as they are.
pub open spec fn with_star(v: RepoView, starred: Seq<Seq<char>>) -> RepoView {
    if v.provider == "github"@ {
        RepoView { is_starred: starred.contains(v.name), ..v }
    } else {
        v
    }
}

/// Sets the starred flag of each GitHub repository from the starred names.
pub fn apply_starred(repos: &mut Vec<Repo>, starred: &Vec<String>)
    ensures
        final(repos)@.len() == old(repos)@.len(),
        forall|i: int|
            0 <= i < old(repos)@.len() ==> (#[trigger] final(repos)@[i])@ == with_star(
                old(repos)@[i]@,
                str_views(starred@),
            ),
{
    let mut i: usize = 0;
    while i < repos.len()
        invariant
            i <= repos@.len(),
            repos@.len() == old(repos)@.len(),
            forall|j: int| 0 <= j < i ==> (#[trigger] repos@[j])@ == with_star(old(repos)@[j]@, str_views(starred@)),
            forall|j: int| i <= j < repos@.len() ==> #[trigger] repos@[j] == old(repos)@[j],
        decreases repos@.len() - i,
    {
        if same_text(repos[i].provider.as_str(), "github") {
            let flag = names_contain(starred, repos[i].name.as_str());
            repos[i].is_starred = flag;
        }
        i = i + 1;
    }
}

/// The provider id for a short name: "gh", "gl" and "ge" stand for
/// "github", "gitlab" and "gitea"; any other name stands for itself.
pub open spec fn provider_alias(s: Seq<char>) -> Seq<char> {
    if s == "gh"@ {
        "github"@
    } else if s == "gl"@ {
        "gitlab"@
    } else if s == "ge"@ {
        "gitea"@
    } else {
        s
    }
}

/// Expands a provider's short name.
pub fn provider_id(name: &str) -> (r: String)
    ensures
        r@ == provider_alias(name@),
{
    if same_text(name, "gh") {
        "github".to_owned()
    } else if same_text(name, "gl") {
        "gitlab".to_owned()
    } else if same_text(name, "ge") {
        "gitea".to_owned()
    } else {
        name.to_owned()
    }
}

/// Splits "owner/repo" at its one '/'; none when the text holds no '/' or
/// more than one.
pub fn parse_repo_ref(repo: &str) -> (r: Option<(String, String)>)
    ensures
        r matches Some(p) ==> repo@ == p.0@ + seq!['/'] + p.1@ && !p.0@.contains('/')
            && !p.1@.contains('/'),
        r is None <==> (!repo@.contains('/') || exists|i: int, j: int|
            0 <= i < j < repo@.len() && repo@[i] == '/' && repo@[j] == '/'),
{
    let n = repo.unicode_len();
    let mut first: Option<usize> = None;
    let mut i: usize = 0;
    while i < n
        invariant
            n == repo@.len(),
            i <= n,
            match first {
                None => forall|j: int| 0 <= j < i ==> repo@[j] != '/',
                Some(f) => f < i && repo@[f as int] == '/' && (forall|j: int|
                    0 <= j < i && j != f ==> repo@[j] != '/'),
            },
        decreases n - i,
    {
        if repo.get_char(i) == '/' {
            match first {
                Some(f) => {
                    assert(repo@[f as int] == '/' && repo@[i as int] == '/');
                    return None;
                },
                None => {
                    first = Some(i);
                },
            }
        }
        i = i + 1;
    }
    match first {
        None => {
            assert(!repo@.contains('/'));
            None
        },
        Some(f) => {
            let owner = repo.substring_char(0, f).to_owned();
            let name = repo.substring_char(f + 1, n).to_owned();
            assert(repo@ =~= owner@ + seq!['/'] + name@);
            assert(!owner@.contains('/')) by {
                if owner@.contains('/') {
                    let k = choose|k: int| 0 <= k < owner@.len() && owner@[k] == '/';
                    assert(repo@[k] == '/');
                }
            }
            assert(!name@.contains('/')) by {
                if name@.contains('/') {
                    let k = choose|k: int| 0 <= k < name@.len() && name@[k] == '/';
                    assert(repo@[f + 1 + k] == '/');
                }
            }
            assert(repo@.contains('/')) by {
                assert(repo@[f as int] == '/');
            }
            Some((owner, name))
        },
    }
}

/// Whether `s` begins with `prefix`.
pub fn has_prefix(s: &str, prefix: &str) -> (r: bool)
    ensures
        r == (prefix@.len() <= s@.len() && s@.subrange(0, prefix@.len() as int) == prefix@),
{
    let n = prefix.unicode_len();
    if n > s.unicode_len() {
        return false;
    }
    let mut i: usize = 0;
    while i < n
        invariant
            n == prefix@.len(),
            n <= s@.len(),
            i <= n,
            forall|j: int| 0 <= j < i ==> s@[j] == prefix@[j],
        decreases n - i,
    {
        if s.get_char(i) != prefix.get_char(i) {
            assert(s@.subrange(0, n as int)[i as int] != prefix@[i as int]);
            return false;
        }
        i = i + 1;
    }
    assert(s@.subrange(0, n as int) =~= prefix@);
    true
}

pub open spec fn starts_with(s: Seq<char>, p: Seq<char>) -> bool {
    p.len() <= s.len() && s.subrange(0, p.len() as int) == p
}

/// The URL to clone: a URL given with its http or https scheme as it is,
/// "owner/repo" as a GitHub repository.
pub open spec fn clone_url_of(repo: Seq<char>) -> Seq<char> {
    if starts_with(repo, "http://"@) || starts_with(repo, "https://"@) {
        repo
    } else {
        "https://github.com/"@ + repo + ".git"@
    }
}

pub fn clone_url(repo: &str) -> (r: String)
    ensures
        r@ == clone_url_of(repo@),
{
    if has_prefix(repo, "http://") || has_prefix(repo, "https://") {
        repo.to_owned()
    } else {
        "https://github.com/".to_owned().concat(repo).concat(".git")
    }
}

} // verus!
