//! The loaded commits and the one place where positions among them are
//! resolved: the list and the detail pane, marking and the summary request
//! all address a commit through the functions of this module.

use vstd::prelude::*;

verus! {

/// A Git working tree: its path, and the name shown for it.
#[derive(Debug)]
pub struct Repository {
    pub path: String,
    pub name: String,
}

/// One repository with the commit lines loaded for it, newest first.
#[derive(Debug)]
pub struct RepoCommits {
    pub repo: Repository,
    pub commits: Vec<String>,
}

/// What `RepoCommits` holds, as mathematical values.
pub struct RepoModel {
    pub path: Seq<char>,
    pub name: Seq<char>,
    pub commits: Seq<Seq<char>>,
}

/// The texts of a sequence of strings.
pub open spec fn texts(lines: Seq<String>) -> Seq<Seq<char>> {
    lines.map_values(|line: String| line@)
}

impl View for RepoCommits {
    type V = RepoModel;

    open spec fn view(&self) -> RepoModel {
        RepoModel { path: self.repo.path@, name: self.repo.name@, commits: texts(self.commits@) }
    }
}

/// The models of a sequence of repositories.
pub open spec fn models(repos: Seq<RepoCommits>) -> Seq<RepoModel> {
    repos.map_values(|r: RepoCommits| r@)
}

/// The number of commits in all repositories together.
pub open spec fn total_commits(data: Seq<RepoModel>) -> nat
    decreases data.len(),
{
    if data.len() == 0 {
        0
    } else {
        total_commits(data.drop_last()) + data.last().commits.len()
    }
}

/// The places of the commits of one repository, in order.
pub open spec fn repo_places(repo: int, count: nat) -> Seq<(int, int)> {
    Seq::new(count, |j: int| (repo, j))
}

/// The places of all commits, repository after repository: the order in
/// which they are numbered when every repository is on display.
pub open spec fn flatten(data: Seq<RepoModel>) -> Seq<(int, int)>
    decreases data.len(),
{
    if data.len() == 0 {
        Seq::empty()
    } else {
        flatten(data.drop_last()) + repo_places(data.len() - 1, data.last().commits.len())
    }
}

/// Whether a place names a commit of the data.
pub open spec fn place_in(data: Seq<RepoModel>, place: (int, int)) -> bool {
    0 <= place.0 < data.len() && 0 <= place.1 < data[place.0].commits.len()
}

/// The commit line at a place.
pub open spec fn line_at(data: Seq<RepoModel>, place: (int, int)) -> Seq<char> {
    data[place.0].commits[place.1]
}

/// There are as many places as commits.
pub proof fn lemma_flatten_len(data: Seq<RepoModel>)
    ensures
        flatten(data).len() == total_commits(data),
    decreases data.len(),
{
    if data.len() > 0 {
        lemma_flatten_len(data.drop_last());
    }
}

/// Adding a repository at the end adds its commits to the total.
pub proof fn lemma_total_step(data: Seq<RepoModel>, i: int)
    requires
        0 <= i < data.len(),
    ensures
        total_commits(data.take(i + 1)) == total_commits(data.take(i)) + data[i].commits.len(),
        flatten(data.take(i + 1)) == flatten(data.take(i)) + repo_places(
            i,
            data[i].commits.len(),
        ),
{
    assert(data.take(i + 1).drop_last() == data.take(i));
}

/// The totals of the prefixes grow with the prefix.
pub proof fn lemma_total_monotone(data: Seq<RepoModel>, i: int, j: int)
    requires
        0 <= i <= j <= data.len(),
    ensures
        total_commits(data.take(i)) <= total_commits(data.take(j)),
    decreases j - i,
{
    if i < j {
        lemma_total_monotone(data, i, j - 1);
        lemma_total_step(data, j - 1);
    }
}

/// The commit `j` of repository `i` is numbered by the commits before its
/// repository plus `j`.
pub proof fn lemma_flatten_index(data: Seq<RepoModel>, i: int, j: int)
    requires
        0 <= i < data.len(),
        0 <= j < data[i].commits.len(),
    ensures
        total_commits(data.take(i)) + j < flatten(data).len(),
        flatten(data)[total_commits(data.take(i)) + j] == (i, j),
    decreases data.len(),
{
    lemma_flatten_len(data.drop_last());
    if i == data.len() - 1 {
        assert(data.take(i) == data.drop_last());
    } else {
        lemma_flatten_index(data.drop_last(), i, j);
        assert(data.drop_last().take(i) == data.take(i));
    }
}

/// Every place of the flattened order names a commit of the data.
pub proof fn lemma_flatten_places(data: Seq<RepoModel>, k: int)
    requires
        0 <= k < flatten(data).len(),
    ensures
        place_in(data, flatten(data)[k]),
        k == total_commits(data.take(flatten(data)[k].0)) + flatten(data)[k].1,
    decreases data.len(),
{
    lemma_flatten_len(data.drop_last());
    if k < flatten(data.drop_last()).len() {
        lemma_flatten_places(data.drop_last(), k);
        let i = flatten(data)[k].0;
        assert(data.drop_last().take(i) == data.take(i));
    } else {
        assert(data.take(data.len() - 1) == data.drop_last());
    }
}

/// The commits of the active time window, one entry per repository, in the
/// order in which the repositories were found. Its commits and its
/// repositories together number less than `usize::MAX`, so that every row of
/// every list can be counted.
#[derive(Debug)]
pub struct CommitData {
    repos: Vec<RepoCommits>,
}

impl View for CommitData {
    type V = Seq<RepoModel>;

    closed spec fn view(&self) -> Seq<RepoModel> {
        models(self.repos@)
    }
}

/// Where a commit stands in the loaded data: the position of its repository
/// and its position among that repository's commits.
#[derive(Clone, Copy, PartialEq, Eq, Debug)]
pub struct CommitLocation {
    pub repo: usize,
    pub index: usize,
}

impl View for CommitLocation {
    type V = (int, int);

    open spec fn view(&self) -> (int, int) {
        (self.repo as int, self.index as int)
    }
}

/// The places that a sequence of locations names.
pub open spec fn place_seq(locations: Seq<CommitLocation>) -> Seq<(int, int)> {
    locations.map_values(|loc: CommitLocation| loc@)
}

impl CommitData {
    #[verifier::type_invariant]
    spec fn fits(&self) -> bool {
        total_commits(models(self.repos@)) + self.repos@.len() < usize::MAX
    }

    /// Data without any repository.
    pub fn empty() -> (data: CommitData)
        ensures
            data@ == Seq::<RepoModel>::empty(),
    {
        let data = CommitData { repos: Vec::new() };
        assert(data@ =~= Seq::<RepoModel>::empty());
        data
    }

    /// Takes the repositories as loaded. `None` where their commits and the
    /// repositories themselves together number `usize::MAX` or more.
    pub fn new(repos: Vec<RepoCommits>) -> (data: Option<CommitData>)
        ensures
            data is Some <==> total_commits(models(repos@)) + repos@.len() < usize::MAX,
            data matches Some(d) ==> d@ == models(repos@),
    {
        let mut total: usize = repos.len();
        let mut i: usize = 0;
        while i < repos.len()
            invariant
                i <= repos.len(),
                total == total_commits(models(repos@).take(i as int)) + repos.len(),
            decreases repos.len() - i,
        {
            proof {
                lemma_total_step(models(repos@), i as int);
                lemma_total_monotone(models(repos@), i as int + 1, repos.len() as int);
                assert(models(repos@).take(repos.len() as int) == models(repos@));
            }
            match total.checked_add(repos[i].commits.len()) {
                Some(sum) => {
                    total = sum;
                },
                None => {
                    return None;
                },
            }
            i = i + 1;
        }
        assert(models(repos@).take(repos.len() as int) == models(repos@));
        if total == usize::MAX {
            return None;
        }
        Some(CommitData { repos })
    }

    /// The repositories with their commits.
    pub fn repos(&self) -> (repos: &Vec<RepoCommits>)
        ensures
            models(repos@) == self@,
            total_commits(self@) + self@.len() < usize::MAX,
    {
        proof {
            use_type_invariant(self);
        }
        &self.repos
    }

    /// The number of repositories.
    pub fn repo_count(&self) -> (n: usize)
        ensures
            n == self@.len(),
    {
        self.repos.len()
    }

    /// The number of commits in all repositories together.
    pub fn total(&self) -> (n: usize)
        ensures
            n == total_commits(self@),
            n == flatten(self@).len(),
            n + self@.len() < usize::MAX,
    {
        let repos = self.repos();
        let mut total: usize = 0;
        let mut i: usize = 0;
        while i < repos.len()
            invariant
                i <= repos.len(),
                models(repos@) == self@,
                total_commits(self@) + self@.len() < usize::MAX,
                total == total_commits(self@.take(i as int)),
            decreases repos.len() - i,
        {
            proof {
                lemma_total_step(self@, i as int);
                lemma_total_monotone(self@, i as int + 1, repos.len() as int);
                assert(self@.take(repos.len() as int) == self@);
            }
            total = total + repos[i].commits.len();
            i = i + 1;
        }
        proof {
            assert(self@.take(repos.len() as int) == self@);
            lemma_flatten_len(self@);
        }
        total
    }

    /// The number of commits of one repository; 0 where there is no such
    /// repository.
    pub fn repo_len(&self, repo: usize) -> (n: usize)
        ensures
            n == if repo < self@.len() {
                self@[repo as int].commits.len()
            } else {
                0
            },
    {
        let repos = self.repos();
        if repo < repos.len() {
            repos[repo].commits.len()
        } else {
            0
        }
    }

    /// The commit with number `k` when every repository is on display: found
    /// by walking the repositories and taking off the commits of each one
    /// that lies wholly before `k`.
    pub fn resolve_global_index(&self, k: usize) -> (found: Option<CommitLocation>)
        ensures
            found matches Some(loc) ==> k < flatten(self@).len() && loc@ == flatten(self@)[k as int]
                && place_in(self@, loc@),
            found is None ==> k >= flatten(self@).len(),
    {
        let repos = self.repos();
        let mut rest: usize = k;
        let mut i: usize = 0;
        while i < repos.len()
            invariant
                i <= repos.len(),
                models(repos@) == self@,
                rest == k - total_commits(self@.take(i as int)),
            decreases repos.len() - i,
        {
            let len = repos[i].commits.len();
            proof {
                lemma_total_step(self@, i as int);
            }
            if rest < len {
                proof {
                    lemma_flatten_index(self@, i as int, rest as int);
                }
                return Some(CommitLocation { repo: i, index: rest });
            }
            rest = rest - len;
            i = i + 1;
        }
        proof {
            assert(self@.take(repos.len() as int) == self@);
            lemma_flatten_len(self@);
        }
        None
    }

    /// The commit line at a place; `None` where the place names no commit.
    pub fn line(&self, loc: CommitLocation) -> (line: Option<&String>)
        ensures
            line matches Some(l) ==> place_in(self@, loc@) && l@ == line_at(self@, loc@),
            line is None ==> !place_in(self@, loc@),
    {
        let repos = self.repos();
        if loc.repo < repos.len() {
            let commits = &repos[loc.repo].commits;
            if loc.index < commits.len() {
                return Some(&commits[loc.index]);
            }
        }
        None
    }
}

} // verus!
