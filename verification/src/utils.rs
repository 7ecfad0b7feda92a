//! Window heights, scroll bounds of texts, and the commits of the repository
//! in scope.

use vstd::prelude::*;
use crate::active::{active_places, resolve_active};
use crate::commits::{line_at, models, texts, CommitData, RepoModel};
use crate::marks::SelectedCommits;
use crate::models::{CommitTab, RepoScope};
use crate::text::{commit_hash, count_lines, first_token, line_count};

verus! {

/// The rows that the border of a pane takes.
pub const BORDER_ROWS: u16 = 2;

/// The rows that the footer takes.
pub const FOOTER_HEIGHT: u16 = 1;

/// The rows of the detail view.
pub const DETAIL_HEIGHT: u16 = 15;

/// `a - b`, or 0 where `b` is the larger.
pub open spec fn minus(a: nat, b: nat) -> nat {
    if a > b {
        (a - b) as nat
    } else {
        0
    }
}

/// The rows of the sidebar list in a terminal of `rows` rows: all but the
/// border.
pub open spec fn sidebar_height(rows: u16) -> nat {
    minus(rows as nat, BORDER_ROWS as nat)
}

/// The rows of the commit list in a terminal of `rows` rows: all but the
/// border, the footer and the detail view.
pub open spec fn commitlist_height(rows: u16) -> nat {
    minus(rows as nat, (BORDER_ROWS + FOOTER_HEIGHT + DETAIL_HEIGHT) as nat)
}

/// How far a text of `lines` lines can be scrolled in a view of
/// `view_height` rows, of which two are the border. A text is taken to have
/// at most `u16::MAX` lines.
pub open spec fn max_scroll(lines: nat, view_height: u16) -> nat {
    let counted = if lines > u16::MAX {
        u16::MAX as nat
    } else {
        lines
    };
    minus(counted, minus(view_height as nat, BORDER_ROWS as nat))
}

/// The first repository at or after position `from` that has the given path,
/// or the number of repositories where none has it.
pub open spec fn first_with_path(data: Seq<RepoModel>, path: Seq<char>, from: int) -> int
    decreases data.len() - from,
{
    if from < 0 || from >= data.len() {
        data.len() as int
    } else if data[from].path == path {
        from
    } else {
        first_with_path(data, path, from + 1)
    }
}

/// The commit lines of the repository in scope, looked up by its path: those
/// of the first repository that has the path of the one in scope. `None`
/// where every repository is in scope, or where the scope names no
/// repository.
pub open spec fn active_commits(data: Seq<RepoModel>, scope: RepoScope) -> Option<Seq<Seq<char>>> {
    match scope {
        RepoScope::All => None,
        RepoScope::Repo(i) => if i < data.len() {
            Some(data[first_with_path(data, data[i as int].path, 0)].commits)
        } else {
            None
        },
    }
}

/// The commits of the repository in scope, looked up by its path.
pub fn get_active_commits(commits: &CommitData, selected_repo: RepoScope) -> (found: Option<
    &Vec<String>,
>)
    ensures
        match found {
            Some(list) => active_commits(commits@, selected_repo) == Some(texts(list@)),
            None => active_commits(commits@, selected_repo) is None,
        },
{
    match selected_repo {
        RepoScope::All => None,
        RepoScope::Repo(i) => {
            let repos = commits.repos();
            if i >= repos.len() {
                return None;
            }
            let mut j: usize = 0;
            while j < i
                invariant
                    j <= i < repos.len(),
                    selected_repo == RepoScope::Repo(i),
                    models(repos@) == commits@,
                    first_with_path(commits@, commits@[i as int].path, 0) == first_with_path(
                        commits@,
                        commits@[i as int].path,
                        j as int,
                    ),
                decreases i - j,
            {
                assert(commits@[j as int] == repos@[j as int]@);
                assert(commits@[i as int] == repos@[i as int]@);
                if repos[j].repo.path == repos[i].repo.path {
                    return Some(&repos[j].commits);
                }
                j = j + 1;
            }
            assert(commits@[i as int] == repos@[i as int]@);
            Some(&repos[i].commits)
        },
    }
}

/// The rows of the sidebar list in a terminal of `rows` rows.
pub fn get_sidebar_height(rows: u16) -> (height: usize)
    ensures
        height == sidebar_height(rows),
{
    rows.saturating_sub(BORDER_ROWS) as usize
}

/// The rows of the commit list in a terminal of `rows` rows.
pub fn get_commitlist_height(rows: u16) -> (height: usize)
    ensures
        height == commitlist_height(rows),
{
    rows.saturating_sub(BORDER_ROWS + FOOTER_HEIGHT + DETAIL_HEIGHT) as usize
}

/// The first visible commit, which is always the first one, and the number
/// of commits of the repositories in scope.
pub fn get_commitlist_visible_and_total(commits: &CommitData, selected_repo: RepoScope) -> (pair: (
    usize,
    usize,
))
    ensures
        pair.0 == 0,
        pair.1 == active_places(
            commits@,
            selected_repo,
            CommitTab::Timeframe,
            Set::<Seq<char>>::empty(),
        ).len(),
{
    let total = commits.total();
    match selected_repo {
        RepoScope::All => (0, total),
        RepoScope::Repo(i) => (0, commits.repo_len(i)),
    }
}

/// The rows left for the commit list in a terminal of `total_height` rows:
/// all but the border and the footer, and the detail view where it is shown.
pub fn calculate_visible_height(total_height: u16, has_details: bool) -> (height: u16)
    ensures
        height == minus(
            total_height as nat,
            if has_details {
                (BORDER_ROWS + FOOTER_HEIGHT + DETAIL_HEIGHT) as nat
            } else {
                (BORDER_ROWS + FOOTER_HEIGHT) as nat
            },
        ),
{
    if has_details {
        total_height.saturating_sub(BORDER_ROWS + FOOTER_HEIGHT + DETAIL_HEIGHT)
    } else {
        total_height.saturating_sub(BORDER_ROWS + FOOTER_HEIGHT)
    }
}

/// How far a text of `lines` lines can be scrolled in a view of
/// `view_height` rows.
pub fn max_scroll_of(lines: usize, view_height: u16) -> (max: u16)
    ensures
        max == max_scroll(lines as nat, view_height),
{
    let counted: u16 = if lines > 0xFFFF {
        0xFFFF
    } else {
        lines as u16
    };
    counted.saturating_sub(view_height.saturating_sub(BORDER_ROWS))
}

/// How far `content` can be scrolled in a view of `view_height` rows.
pub fn calculate_max_scroll(content: String, view_height: u16) -> (max: u16)
    ensures
        max == max_scroll(line_count(content@), view_height),
{
    max_scroll_of(count_lines(content.as_str()), view_height)
}

/// What the detail pane can show of the commit on display at a position:
/// nothing where there is no such commit or its line has no hash, else the
/// details that were fetched for it.
pub open spec fn detail_scroll_bound(
    data: Seq<RepoModel>,
    marks: Set<Seq<char>>,
    scope: RepoScope,
    tab: CommitTab,
    commit_index: int,
    details: Option<Seq<char>>,
) -> nat {
    let places = active_places(data, scope, tab, marks);
    if 0 <= commit_index < places.len() && first_token(line_at(data, places[commit_index])).len()
        > 0 {
        match details {
            Some(text) => max_scroll(line_count(text), DETAIL_HEIGHT),
            None => 0,
        }
    } else {
        0
    }
}

/// How far the detail pane can be scrolled for the commit on display at
/// `commit_index`. `details` is what was fetched for that commit, `None`
/// where fetching failed.
pub fn calculate_max_detail_scroll(
    commits: &CommitData,
    marks: &SelectedCommits,
    selected_repo: RepoScope,
    selected_tab: CommitTab,
    commit_index: usize,
    details: Option<&String>,
) -> (max: u16)
    ensures
        max == detail_scroll_bound(
            commits@,
            marks@.set,
            selected_repo,
            selected_tab,
            commit_index as int,
            match details {
                Some(text) => Some(text@),
                None => None,
            },
        ),
{
    match resolve_active(commits, marks, selected_repo, selected_tab, commit_index) {
        Some(loc) => {
            match commits.line(loc) {
                Some(line) => {
                    let hash = commit_hash(line.as_str());
                    if hash.as_str().unicode_len() > 0 {
                        match details {
                            Some(text) => max_scroll_of(
                                count_lines(text.as_str()),
                                DETAIL_HEIGHT,
                            ),
                            None => 0,
                        }
                    } else {
                        0
                    }
                },
                None => 0,
            }
        },
        None => 0,
    }
}

} // verus!
