//! What it means for the view state to fit the loaded commits, and the one
//! operation that makes it fit. Every transition ends in `settle`, so no
//! event can leave a selection or an offset behind that points past the data.

use vstd::prelude::*;
use crate::active::{
    active_count, active_places, count_rows, lemma_active_places, lemma_list_rows, row_count, row_of,
    row_position,
};
use crate::commits::{lemma_flatten_len, CommitData, RepoModel};
use crate::marks::SelectedCommits;
use crate::models::{FocusArea, Frame, RepoScope, ViewState};
use crate::scroll::{
    clamp_offset, clamped, follow, follow_row, lemma_follow_stable, lemma_follow_window, max_offset,
};
use crate::utils::{
    commitlist_height, get_commitlist_height, get_sidebar_height, max_scroll, max_scroll_of,
    sidebar_height, DETAIL_HEIGHT,
};

verus! {

/// Whether the detail pane is laid out: it is open, and a commit is selected
/// for it to show.
pub open spec fn shows_detail(s: ViewState) -> bool {
    s.show_details && s.selected_commit is Some
}

/// Whether the scope names a repository that the data holds.
pub open spec fn scope_valid(scope: RepoScope, data: Seq<RepoModel>) -> bool {
    match scope {
        RepoScope::All => true,
        RepoScope::Repo(i) => i < data.len(),
    }
}

/// The row of the sidebar on which the scope stands: the entry for all
/// repositories comes first.
pub open spec fn sidebar_row(scope: RepoScope) -> nat {
    match scope {
        RepoScope::All => 0,
        RepoScope::Repo(i) => (i + 1) as nat,
    }
}

/// How far the detail pane can be scrolled during this frame.
pub open spec fn detail_max(frame: Frame) -> nat {
    max_scroll(frame.detail_lines as nat, DETAIL_HEIGHT)
}

/// A position brought back among `count` commits: kept where it names one,
/// else the last one, or none where there is no commit.
pub open spec fn clamp_selection(selected: Option<usize>, count: nat) -> Option<usize> {
    match selected {
        Some(k) => if k < count {
            Some(k)
        } else if count > 0 {
            Some((count - 1) as usize)
        } else {
            None
        },
        None => None,
    }
}

/// Whether the state fits the data, the marks and the frame: the scope names
/// a repository that exists, the selection names a commit on display, the
/// detail pane is open only for a selected commit and focused only while
/// open, and each offset is within its bound and shows what is selected.
pub open spec fn consistent(
    s: ViewState,
    data: Seq<RepoModel>,
    marks: Set<Seq<char>>,
    frame: Frame,
) -> bool {
    let count = active_places(data, s.selected_repo, s.selected_tab, marks).len();
    let rows = row_count(data, s.selected_repo, s.selected_tab, marks);
    let side = sidebar_height(frame.rows);
    let list = commitlist_height(frame.rows);
    &&& scope_valid(s.selected_repo, data)
    &&& (s.selected_commit matches Some(k) ==> k < count)
    &&& (s.show_details ==> s.selected_commit is Some)
    &&& (s.focus == FocusArea::Detail ==> s.show_details)
    &&& s.sidebar_scroll <= max_offset(data.len() + 1, side)
    &&& s.commitlist_scroll <= max_offset(rows, list)
    &&& s.detail_scroll <= detail_max(frame)
    &&& s.sidebar_scroll <= sidebar_row(s.selected_repo)
    &&& (side > 0 ==> sidebar_row(s.selected_repo) < s.sidebar_scroll + side)
    &&& (s.selected_commit matches Some(k) ==> {
        let row = row_of(data, s.selected_repo, s.selected_tab, marks, k as int);
        s.commitlist_scroll <= row && (list > 0 ==> row < s.commitlist_scroll + list)
    })
}

/// The state `s`, which an event made out of `before`, made to fit the data.
/// A scope that names no repository becomes the scope of all repositories,
/// and the selection is dropped with it. A selection past the last commit on
/// display becomes the last commit. The detail pane closes where nothing is
/// selected, and the focus leaves it. The offsets follow what is selected.
/// The detail pane starts from its top whenever it shows another commit than
/// before.
pub open spec fn settled(
    before: ViewState,
    s: ViewState,
    data: Seq<RepoModel>,
    marks: Set<Seq<char>>,
    frame: Frame,
) -> ViewState {
    let scope = if scope_valid(s.selected_repo, data) {
        s.selected_repo
    } else {
        RepoScope::All
    };
    let kept = if scope == s.selected_repo {
        s.selected_commit
    } else {
        None
    };
    let count = active_places(data, scope, s.selected_tab, marks).len();
    let selected = clamp_selection(kept, count);
    let show = s.show_details && selected is Some;
    let rows = row_count(data, scope, s.selected_tab, marks);
    let side = sidebar_height(frame.rows);
    let list = commitlist_height(frame.rows);
    let same_commit = selected == before.selected_commit && scope == before.selected_repo
        && s.selected_tab == before.selected_tab;
    ViewState {
        focus: if s.focus == FocusArea::Detail && !show {
            FocusArea::CommitList
        } else {
            s.focus
        },
        selected_tab: s.selected_tab,
        selected_repo: scope,
        selected_commit: selected,
        show_details: show,
        filter_by_user: s.filter_by_user,
        detailed_commit_view: s.detailed_commit_view,
        sidebar_scroll: follow(
            sidebar_row(scope),
            s.sidebar_scroll as nat,
            side,
            data.len() + 1,
        ) as usize,
        commitlist_scroll: match selected {
            Some(k) => follow(
                row_of(data, scope, s.selected_tab, marks, k as int) as nat,
                s.commitlist_scroll as nat,
                list,
                rows,
            ),
            None => clamped(s.commitlist_scroll as nat, list, rows),
        } as usize,
        detail_scroll: if same_commit && s.detail_scroll <= detail_max(frame) {
            s.detail_scroll
        } else if same_commit {
            detail_max(frame) as u16
        } else {
            0
        },
        current_interval_index: s.current_interval_index,
    }
}

/// Whatever state an event made, once settled it fits the data.
pub proof fn lemma_settled_consistent(
    before: ViewState,
    s: ViewState,
    data: Seq<RepoModel>,
    marks: Set<Seq<char>>,
    frame: Frame,
)
    requires
        crate::commits::total_commits(data) + data.len() < usize::MAX,
    ensures
        consistent(settled(before, s, data, marks, frame), data, marks, frame),
{
    let t = settled(before, s, data, marks, frame);
    let scope = t.selected_repo;
    let count = active_places(data, scope, s.selected_tab, marks).len();
    let rows = row_count(data, scope, s.selected_tab, marks);
    let side = sidebar_height(frame.rows);
    let list = commitlist_height(frame.rows);
    lemma_active_places(data, scope, s.selected_tab, marks);
    lemma_list_rows(data, scope, s.selected_tab, marks);
    lemma_flatten_len(data);
    lemma_follow_window(sidebar_row(scope), s.sidebar_scroll as nat, side, data.len() + 1);
    match t.selected_commit {
        Some(k) => {
            let row = row_of(data, scope, s.selected_tab, marks, k as int);
            assert(0 <= row < rows);
            lemma_follow_window(row as nat, s.commitlist_scroll as nat, list, rows);
        },
        None => {},
    }
}

/// A state that fits the data is left as it is.
pub proof fn lemma_settled_stable(
    s: ViewState,
    data: Seq<RepoModel>,
    marks: Set<Seq<char>>,
    frame: Frame,
)
    requires
        consistent(s, data, marks, frame),
    ensures
        settled(s, s, data, marks, frame) == s,
{
    let side = sidebar_height(frame.rows);
    let list = commitlist_height(frame.rows);
    let rows = row_count(data, s.selected_repo, s.selected_tab, marks);
    lemma_follow_stable(sidebar_row(s.selected_repo), s.sidebar_scroll as nat, side, data.len() + 1);
    match s.selected_commit {
        Some(k) => {
            let row = row_of(data, s.selected_repo, s.selected_tab, marks, k as int);
            lemma_list_rows(data, s.selected_repo, s.selected_tab, marks);
            lemma_follow_stable(row as nat, s.commitlist_scroll as nat, list, rows);
        },
        None => {},
    }
}

/// Makes the state, which an event made out of `before`, fit the data.
pub fn settle(
    before: &ViewState,
    state: &mut ViewState,
    data: &CommitData,
    marks: &SelectedCommits,
    frame: &Frame,
)
    ensures
        *final(state) == settled(*before, *old(state), data@, marks@.set, *frame),
        consistent(*final(state), data@, marks@.set, *frame),
{
    let s = *state;
    let repo_count = data.repo_count();
    let total = data.total();
    let scope_ok = match s.selected_repo {
        RepoScope::All => true,
        RepoScope::Repo(i) => i < repo_count,
    };
    let scope = if scope_ok {
        s.selected_repo
    } else {
        RepoScope::All
    };
    let kept = if scope_ok {
        s.selected_commit
    } else {
        None
    };
    let count = active_count(data, marks, scope, s.selected_tab);
    let selected = match kept {
        Some(k) => if k < count {
            Some(k)
        } else if count > 0 {
            Some(count - 1)
        } else {
            None
        },
        None => None,
    };
    assert(selected == clamp_selection(kept, count as nat));
    let show = s.show_details && selected.is_some();
    let focus = match s.focus {
        FocusArea::Detail => if show {
            FocusArea::Detail
        } else {
            FocusArea::CommitList
        },
        other => other,
    };
    let side = get_sidebar_height(frame.rows);
    let list = get_commitlist_height(frame.rows);
    let rows = count_rows(data, marks, scope, s.selected_tab);
    let side_row = match scope {
        RepoScope::All => 0,
        RepoScope::Repo(i) => i + 1,
    };
    let sidebar_scroll = follow_row(side_row, s.sidebar_scroll, side, repo_count + 1);
    let commitlist_scroll = match selected {
        Some(k) => {
            let row = row_position(data, marks, scope, s.selected_tab, k);
            follow_row(row, s.commitlist_scroll, list, rows)
        },
        None => clamp_offset(s.commitlist_scroll, list, rows),
    };
    let same_commit = selected == before.selected_commit && scope == before.selected_repo
        && s.selected_tab == before.selected_tab;
    let detail_bound = max_scroll_of(frame.detail_lines, DETAIL_HEIGHT);
    let detail_scroll = if !same_commit {
        0
    } else if s.detail_scroll > detail_bound {
        detail_bound
    } else {
        s.detail_scroll
    };
    *state = ViewState {
        focus,
        selected_tab: s.selected_tab,
        selected_repo: scope,
        selected_commit: selected,
        show_details: show,
        filter_by_user: s.filter_by_user,
        detailed_commit_view: s.detailed_commit_view,
        sidebar_scroll,
        commitlist_scroll,
        detail_scroll,
        current_interval_index: s.current_interval_index,
    };
    proof {
        lemma_settled_consistent(*before, *old(state), data@, marks@.set, *frame);
    }
}

} // verus!
