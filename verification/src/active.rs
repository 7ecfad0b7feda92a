//! The commits on display. Which commits the commit pane lists, and in what
//! order, follows from the loaded data, the repository in scope, the tab and
//! the marks; a selected position is a position in that list.

use vstd::prelude::*;
use crate::commits::{
    flatten, lemma_flatten_len, lemma_flatten_places, lemma_total_monotone, lemma_total_step,
    line_at, place_in, place_seq, repo_places, total_commits, CommitData, CommitLocation, RepoModel,
};
use crate::marks::SelectedCommits;
use crate::models::{CommitTab, RepoScope};
use crate::text::{commit_hash, first_token};

verus! {

/// Whether the commit at a place is marked: whether the marks hold the hash
/// of its line.
pub open spec fn is_marked(data: Seq<RepoModel>, marks: Set<Seq<char>>, place: (int, int)) -> bool {
    marks.contains(first_token(line_at(data, place)))
}

/// The test that keeps the places of marked commits.
pub open spec fn marked(data: Seq<RepoModel>, marks: Set<Seq<char>>) -> spec_fn((int, int)) -> bool {
    |place: (int, int)| is_marked(data, marks, place)
}

/// The places of the marked commits that the data holds, in the order of
/// the data. A mark whose commit is not loaded has no place.
pub open spec fn marked_places(data: Seq<RepoModel>, marks: Set<Seq<char>>) -> Seq<(int, int)> {
    flatten(data).filter(marked(data, marks))
}

/// The places of the commits on display, in the order of their positions.
pub open spec fn active_places(
    data: Seq<RepoModel>,
    scope: RepoScope,
    tab: CommitTab,
    marks: Set<Seq<char>>,
) -> Seq<(int, int)> {
    match tab {
        CommitTab::Timeframe => match scope {
            RepoScope::All => flatten(data),
            RepoScope::Repo(i) => if i < data.len() {
                repo_places(i as int, data[i as int].commits.len())
            } else {
                Seq::empty()
            },
        },
        CommitTab::Selection => marked_places(data, marks),
        CommitTab::Stats => Seq::empty(),
    }
}

/// Whether the list shows a header row before the commits of each
/// repository.
pub open spec fn shows_headers(scope: RepoScope, tab: CommitTab) -> bool {
    tab == CommitTab::Timeframe && scope == RepoScope::All
}

/// The number of rows of the commit list: the commits on display and, where
/// headers are shown, one header for each repository.
pub open spec fn row_count(
    data: Seq<RepoModel>,
    scope: RepoScope,
    tab: CommitTab,
    marks: Set<Seq<char>>,
) -> nat {
    active_places(data, scope, tab, marks).len() + if shows_headers(scope, tab) {
        data.len()
    } else {
        0
    }
}

/// The row on which the commit at position `k` stands: where headers are
/// shown, the headers of its own and of all earlier repositories precede it.
pub open spec fn row_of(
    data: Seq<RepoModel>,
    scope: RepoScope,
    tab: CommitTab,
    marks: Set<Seq<char>>,
    k: int,
) -> int {
    if shows_headers(scope, tab) {
        k + flatten(data)[k].0 + 1
    } else {
        k
    }
}

/// Filtering a sequence that grew by one element.
pub proof fn lemma_filter_push<A>(s: Seq<A>, pred: spec_fn(A) -> bool, x: A)
    ensures
        s.push(x).filter(pred) == if pred(x) {
            s.filter(pred).push(x)
        } else {
            s.filter(pred)
        },
{
    reveal(Seq::filter);
    assert(s.push(x).drop_last() == s);
}

/// A filtered sequence is no longer than the sequence.
pub proof fn lemma_filter_shorter<A>(s: Seq<A>, pred: spec_fn(A) -> bool)
    ensures
        s.filter(pred).len() <= s.len(),
    decreases s.len(),
{
    reveal(Seq::filter);
    if s.len() > 0 {
        lemma_filter_shorter(s.drop_last(), pred);
    }
}

/// Every element of a filtered sequence comes from the sequence and passes
/// the test.
pub proof fn lemma_filter_member<A>(s: Seq<A>, pred: spec_fn(A) -> bool, k: int)
    requires
        0 <= k < s.filter(pred).len(),
    ensures
        pred(s.filter(pred)[k]),
        s.contains(s.filter(pred)[k]),
    decreases s.len(),
{
    reveal(Seq::filter);
    if s.len() > 0 {
        let rest = s.drop_last().filter(pred);
        if k < rest.len() {
            lemma_filter_member(s.drop_last(), pred, k);
            let x = rest[k];
            let i = choose|i: int| 0 <= i < s.drop_last().len() && s.drop_last()[i] == x;
            assert(s[i] == x);
        } else {
            assert(s[s.len() - 1] == s.last());
        }
    }
}

/// Every place on display names a commit of the data, and no more commits
/// are on display than the data holds.
pub proof fn lemma_active_places(
    data: Seq<RepoModel>,
    scope: RepoScope,
    tab: CommitTab,
    marks: Set<Seq<char>>,
)
    ensures
        active_places(data, scope, tab, marks).len() <= total_commits(data),
        forall|k: int|
            0 <= k < active_places(data, scope, tab, marks).len() ==> place_in(
                data,
                #[trigger] active_places(data, scope, tab, marks)[k],
            ),
{
    let places = active_places(data, scope, tab, marks);
    lemma_flatten_len(data);
    match tab {
        CommitTab::Timeframe => match scope {
            RepoScope::All => {
                assert forall|k: int| 0 <= k < places.len() implies place_in(
                    data,
                    #[trigger] places[k],
                ) by {
                    lemma_flatten_places(data, k);
                }
            },
            RepoScope::Repo(i) => {
                if i < data.len() {
                    lemma_total_step(data, i as int);
                    lemma_total_monotone(data, i as int + 1, data.len() as int);
                    assert(data.take(data.len() as int) == data);
                }
            },
        },
        CommitTab::Selection => {
            lemma_filter_shorter(flatten(data), marked(data, marks));
            assert forall|k: int| 0 <= k < places.len() implies place_in(
                data,
                #[trigger] places[k],
            ) by {
                lemma_filter_member(flatten(data), marked(data, marks), k);
                let x = places[k];
                let i = choose|i: int| 0 <= i < flatten(data).len() && flatten(data)[i] == x;
                lemma_flatten_places(data, i);
            }
        },
        CommitTab::Stats => {},
    }
}

/// The places of the marked commits that the data holds, in the order of
/// the data.
pub fn find_marked(data: &CommitData, marks: &SelectedCommits) -> (found: Vec<CommitLocation>)
    ensures
        place_seq(found@) == marked_places(data@, marks@.set),
{
    let repos = data.repos();
    let ghost pred = marked(data@, marks@.set);
    let mut found: Vec<CommitLocation> = Vec::new();
    let mut i: usize = 0;
    assert(data@.take(0) == Seq::<RepoModel>::empty());
    assert(place_seq(found@) == flatten(data@.take(0)).filter(pred)) by {
        reveal(Seq::filter);
    }
    while i < repos.len()
        invariant
            i <= repos.len(),
            crate::commits::models(repos@) == data@,
            pred == marked(data@, marks@.set),
            place_seq(found@) == flatten(data@.take(i as int)).filter(pred),
        decreases repos.len() - i,
    {
        let commits = &repos[i].commits;
        let ghost before = flatten(data@.take(i as int));
        let ghost row = repo_places(i as int, commits@.len());
        let mut j: usize = 0;
        assert(row.take(0) == Seq::<(int, int)>::empty());
        assert(before + row.take(0) == before);
        while j < commits.len()
            invariant
                j <= commits.len(),
                i < repos.len(),
                crate::commits::models(repos@) == data@,
                commits == &repos@[i as int].commits,
                pred == marked(data@, marks@.set),
                before == flatten(data@.take(i as int)),
                row == repo_places(i as int, commits@.len()),
                place_seq(found@) == (before + row.take(j as int)).filter(pred),
            decreases commits.len() - j,
        {
            let hash = commit_hash(commits[j].as_str());
            let ghost place = (i as int, j as int);
            proof {
                assert(row.take(j as int + 1) == row.take(j as int).push(place));
                assert(before + row.take(j as int + 1) == (before + row.take(j as int)).push(
                    place,
                ));
                lemma_filter_push(before + row.take(j as int), pred, place);
                assert(line_at(data@, place) == commits@[j as int]@);
            }
            if marks.contains(&hash) {
                let ghost old_found = found@;
                found.push(CommitLocation { repo: i, index: j });
                assert(place_seq(found@) == place_seq(old_found).push(place));
            }
            j = j + 1;
        }
        proof {
            assert(row.take(commits@.len() as int) == row);
            lemma_total_step(data@, i as int);
        }
        i = i + 1;
    }
    assert(data@.take(repos.len() as int) == data@);
    found
}

/// The number of commits on display.
pub fn active_count(
    data: &CommitData,
    marks: &SelectedCommits,
    scope: RepoScope,
    tab: CommitTab,
) -> (n: usize)
    ensures
        n == active_places(data@, scope, tab, marks@.set).len(),
        n + data@.len() < usize::MAX,
{
    proof {
        lemma_active_places(data@, scope, tab, marks@.set);
    }
    let total = data.total();
    match tab {
        CommitTab::Timeframe => match scope {
            RepoScope::All => total,
            RepoScope::Repo(i) => data.repo_len(i),
        },
        CommitTab::Selection => find_marked(data, marks).len(),
        CommitTab::Stats => 0,
    }
}

/// The commit on display at position `k`; `None` where fewer commits are on
/// display.
pub fn resolve_active(
    data: &CommitData,
    marks: &SelectedCommits,
    scope: RepoScope,
    tab: CommitTab,
    k: usize,
) -> (found: Option<CommitLocation>)
    ensures
        found matches Some(loc) ==> k < active_places(data@, scope, tab, marks@.set).len() && loc@
            == active_places(data@, scope, tab, marks@.set)[k as int] && place_in(data@, loc@),
        found is None ==> k >= active_places(data@, scope, tab, marks@.set).len(),
{
    proof {
        lemma_active_places(data@, scope, tab, marks@.set);
    }
    match tab {
        CommitTab::Timeframe => match scope {
            RepoScope::All => data.resolve_global_index(k),
            RepoScope::Repo(i) => {
                if k < data.repo_len(i) {
                    Some(CommitLocation { repo: i, index: k })
                } else {
                    None
                }
            },
        },
        CommitTab::Selection => {
            let places = find_marked(data, marks);
            if k < places.len() {
                assert(place_seq(places@)[k as int] == places@[k as int]@);
                Some(places[k])
            } else {
                None
            }
        },
        CommitTab::Stats => None,
    }
}

/// The number of rows of the commit list.
pub fn count_rows(
    data: &CommitData,
    marks: &SelectedCommits,
    scope: RepoScope,
    tab: CommitTab,
) -> (n: usize)
    ensures
        n == row_count(data@, scope, tab, marks@.set),
{
    let commits = active_count(data, marks, scope, tab);
    if has_headers(scope, tab) {
        commits + data.repo_count()
    } else {
        commits
    }
}

/// The row on which the commit at position `k` stands.
pub fn row_position(
    data: &CommitData,
    marks: &SelectedCommits,
    scope: RepoScope,
    tab: CommitTab,
    k: usize,
) -> (row: usize)
    requires
        k < active_places(data@, scope, tab, marks@.set).len(),
    ensures
        row == row_of(data@, scope, tab, marks@.set, k as int),
        row < row_count(data@, scope, tab, marks@.set),
{
    if has_headers(scope, tab) {
        let total = data.total();
        match data.resolve_global_index(k) {
            Some(loc) => k + loc.repo + 1,
            None => k,
        }
    } else {
        k
    }
}

/// A row of the commit list: the header of a repository, or the commit on
/// display at a position.
#[derive(Clone, Copy, PartialEq, Eq, Debug)]
pub enum RowKind {
    Header(usize),
    Commit(usize),
}

/// A row of the commit list, as mathematical values.
pub enum RowModel {
    Header(int),
    Commit(int),
}

impl View for RowKind {
    type V = RowModel;

    open spec fn view(&self) -> RowModel {
        match self {
            RowKind::Header(repo) => RowModel::Header(*repo as int),
            RowKind::Commit(position) => RowModel::Commit(*position as int),
        }
    }
}

/// The commit rows for `count` commits that are numbered from `first` on.
pub open spec fn commit_rows(first: int, count: nat) -> Seq<RowModel> {
    Seq::new(count, |j: int| RowModel::Commit(first + j))
}

/// The rows of the list of all repositories: for each repository its header
/// and then its commits, which are numbered through.
pub open spec fn grouped_rows(data: Seq<RepoModel>) -> Seq<RowModel>
    decreases data.len(),
{
    if data.len() == 0 {
        Seq::empty()
    } else {
        grouped_rows(data.drop_last()).push(RowModel::Header(data.len() - 1)) + commit_rows(
            total_commits(data.drop_last()) as int,
            data.last().commits.len(),
        )
    }
}

/// The rows of the commit list, from the top.
pub open spec fn list_rows(
    data: Seq<RepoModel>,
    scope: RepoScope,
    tab: CommitTab,
    marks: Set<Seq<char>>,
) -> Seq<RowModel> {
    if shows_headers(scope, tab) {
        grouped_rows(data)
    } else {
        commit_rows(0, active_places(data, scope, tab, marks).len())
    }
}

/// The list of all repositories has one row for each commit and one for
/// each repository.
pub proof fn lemma_grouped_len(data: Seq<RepoModel>)
    ensures
        grouped_rows(data).len() == total_commits(data) + data.len(),
    decreases data.len(),
{
    if data.len() > 0 {
        lemma_grouped_len(data.drop_last());
    }
}

/// Where the rows of repository `i` stand in the list of all repositories:
/// its header after the rows of the repositories before it, its commits
/// after the header.
pub proof fn lemma_grouped_index(data: Seq<RepoModel>, i: int)
    requires
        0 <= i < data.len(),
    ensures
        total_commits(data.take(i)) + i + data[i].commits.len() < grouped_rows(data).len(),
        grouped_rows(data)[total_commits(data.take(i)) + i] == RowModel::Header(i),
        forall|j: int|
            0 <= j < data[i].commits.len() ==> #[trigger] grouped_rows(data)[total_commits(
                data.take(i),
            ) + i + 1 + j] == RowModel::Commit(total_commits(data.take(i)) + j),
    decreases data.len(),
{
    lemma_grouped_len(data.drop_last());
    if i == data.len() - 1 {
        assert(data.take(i) == data.drop_last());
    } else {
        lemma_grouped_index(data.drop_last(), i);
        assert(data.drop_last().take(i) == data.take(i));
    }
}

/// The list has `row_count` rows, and the commit on display at position `k`
/// stands on row `row_of(k)`.
pub proof fn lemma_list_rows(
    data: Seq<RepoModel>,
    scope: RepoScope,
    tab: CommitTab,
    marks: Set<Seq<char>>,
)
    ensures
        list_rows(data, scope, tab, marks).len() == row_count(data, scope, tab, marks),
        forall|k: int|
            0 <= k < active_places(data, scope, tab, marks).len() ==> 0 <= #[trigger] row_of(
                data,
                scope,
                tab,
                marks,
                k,
            ) < row_count(data, scope, tab, marks) && list_rows(data, scope, tab, marks)[row_of(
                data,
                scope,
                tab,
                marks,
                k,
            )] == RowModel::Commit(k),
{
    if shows_headers(scope, tab) {
        lemma_grouped_len(data);
        lemma_flatten_len(data);
        assert forall|k: int| 0 <= k < flatten(data).len() implies 0 <= #[trigger] row_of(
            data,
            scope,
            tab,
            marks,
            k,
        ) < row_count(data, scope, tab, marks) && grouped_rows(data)[row_of(
            data,
            scope,
            tab,
            marks,
            k,
        )] == RowModel::Commit(k) by {
            lemma_flatten_places(data, k);
            let place = flatten(data)[k];
            lemma_grouped_index(data, place.0);
            assert(grouped_rows(data)[total_commits(data.take(place.0)) + place.0 + 1 + place.1]
                == RowModel::Commit(total_commits(data.take(place.0)) + place.1));
        }
    }
}

/// The row of the list of all repositories at position `row` from the top;
/// `None` past the last row.
pub fn grouped_row_at(data: &CommitData, row: usize) -> (found: Option<RowKind>)
    ensures
        found matches Some(kind) ==> row < grouped_rows(data@).len() && kind@ == grouped_rows(
            data@,
        )[row as int],
        found is None ==> row >= grouped_rows(data@).len(),
{
    let repos = data.repos();
    let mut rest: usize = row;
    let mut first: usize = 0;
    let mut i: usize = 0;
    while i < repos.len()
        invariant
            i <= repos.len(),
            crate::commits::models(repos@) == data@,
            total_commits(data@) + data@.len() < usize::MAX,
            first == total_commits(data@.take(i as int)),
            rest == row - first - i,
        decreases repos.len() - i,
    {
        let len = repos[i].commits.len();
        proof {
            lemma_total_step(data@, i as int);
            lemma_total_monotone(data@, i as int + 1, repos.len() as int);
            assert(data@.take(repos.len() as int) == data@);
            lemma_grouped_index(data@, i as int);
        }
        if rest == 0 {
            return Some(RowKind::Header(i));
        }
        rest = rest - 1;
        if rest < len {
            assert(grouped_rows(data@)[first + i + 1 + rest] == RowModel::Commit(first + rest));
            return Some(RowKind::Commit(first + rest));
        }
        rest = rest - len;
        first = first + len;
        i = i + 1;
    }
    proof {
        assert(data@.take(repos.len() as int) == data@);
        lemma_grouped_len(data@);
    }
    None
}

/// Whether the list shows a header row before the commits of each
/// repository.
pub fn has_headers(scope: RepoScope, tab: CommitTab) -> (b: bool)
    ensures
        b == shows_headers(scope, tab),
{
    match tab {
        CommitTab::Timeframe => match scope {
            RepoScope::All => true,
            RepoScope::Repo(_) => false,
        },
        _ => false,
    }
}

/// The row of the commit list at position `row` from the top; `None` past
/// the last row.
pub fn row_at(
    data: &CommitData,
    marks: &SelectedCommits,
    scope: RepoScope,
    tab: CommitTab,
    row: usize,
) -> (found: Option<RowKind>)
    ensures
        found matches Some(kind) ==> row < list_rows(data@, scope, tab, marks@.set).len() && kind@
            == list_rows(data@, scope, tab, marks@.set)[row as int],
        found is None ==> row >= list_rows(data@, scope, tab, marks@.set).len(),
{
    if has_headers(scope, tab) {
        grouped_row_at(data, row)
    } else if row < active_count(data, marks, scope, tab) {
        Some(RowKind::Commit(row))
    } else {
        None
    }
}

/// The places of all commits, repository after repository.
pub fn all_places(data: &CommitData) -> (found: Vec<CommitLocation>)
    ensures
        place_seq(found@) == flatten(data@),
{
    let repos = data.repos();
    let mut found: Vec<CommitLocation> = Vec::new();
    let mut i: usize = 0;
    assert(data@.take(0) == Seq::<RepoModel>::empty());
    while i < repos.len()
        invariant
            i <= repos.len(),
            crate::commits::models(repos@) == data@,
            place_seq(found@) == flatten(data@.take(i as int)),
        decreases repos.len() - i,
    {
        let len = repos[i].commits.len();
        let ghost before = flatten(data@.take(i as int));
        let ghost row = repo_places(i as int, len as nat);
        let mut j: usize = 0;
        assert(before + row.take(0) == before);
        while j < len
            invariant
                j <= len,
                row == repo_places(i as int, len as nat),
                place_seq(found@) == before + row.take(j as int),
            decreases len - j,
        {
            let ghost old_found = found@;
            found.push(CommitLocation { repo: i, index: j });
            proof {
                let place = (i as int, j as int);
                assert(row.take(j as int + 1) == row.take(j as int).push(place));
                assert(place_seq(found@) == place_seq(old_found).push(place));
            }
            j = j + 1;
        }
        proof {
            assert(row.take(len as int) == row);
            lemma_total_step(data@, i as int);
        }
        i = i + 1;
    }
    assert(data@.take(repos.len() as int) == data@);
    found
}

/// The places of the commits on display, in the order of their positions.
pub fn list_active(
    data: &CommitData,
    marks: &SelectedCommits,
    scope: RepoScope,
    tab: CommitTab,
) -> (found: Vec<CommitLocation>)
    ensures
        place_seq(found@) == active_places(
            data@,
            scope,
            tab,
            marks@.set,
        ),
{
    match tab {
        CommitTab::Timeframe => match scope {
            RepoScope::All => all_places(data),
            RepoScope::Repo(i) => {
                let len = data.repo_len(i);
                let mut found: Vec<CommitLocation> = Vec::new();
                let mut j: usize = 0;
                while j < len
                    invariant
                        j <= len,
                        place_seq(found@) == repo_places(
                            i as int,
                            len as nat,
                        ).take(j as int),
                    decreases len - j,
                {
                    let ghost old_found = found@;
                    found.push(CommitLocation { repo: i, index: j });
                    proof {
                        let place = (i as int, j as int);
                        assert(repo_places(i as int, len as nat).take(j as int + 1) == repo_places(
                            i as int,
                            len as nat,
                        ).take(j as int).push(place));
                        assert(place_seq(found@)
                            == place_seq(old_found).push(place));
                    }
                    j = j + 1;
                }
                assert(repo_places(i as int, len as nat).take(len as int) == repo_places(
                    i as int,
                    len as nat,
                ));
                found
            },
        },
        CommitTab::Selection => find_marked(data, marks),
        CommitTab::Stats => {
            let found: Vec<CommitLocation> = Vec::new();
            assert(place_seq(found@) == Seq::<(int, int)>::empty());
            found
        },
    }
}

} // verus!
