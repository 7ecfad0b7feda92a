//! What is on the screen. From the state and the loaded commits this module
//! derives the regions, the rows of each list with their flags, and what
//! the detail pane and the overlays show. Nothing is drawn here.

use vstd::prelude::*;
use crate::active::{
    active_places, all_places, grouped_rows, has_headers, is_marked, lemma_active_places,
    lemma_filter_push, lemma_grouped_index, lemma_grouped_len, list_active, list_rows,
    resolve_active, shows_headers, RowKind, RowModel,
};
use crate::commits::{
    flatten, lemma_flatten_index, lemma_flatten_len, lemma_flatten_places, lemma_total_monotone,
    lemma_total_step, line_at, models, place_in, place_seq, total_commits, CommitData,
    CommitLocation,
    RepoModel,
};
use crate::layout::{plan_regions, regions_of, Rect, Regions};
use crate::marks::SelectedCommits;
use crate::models::{CommitTab, FocusArea, Frame, PopupQuote, RepoScope, ViewState};
use crate::prompts::project_name;
use crate::state::shows_detail;
use crate::text::{commit_hash, first_token, join, joined, split_words, views, words_from};
use crate::tickets::{
    pattern_matches, span_models, split_tickets, ticket_spans, Span, SpanKind, SpanModel,
    TicketFinder,
};

verus! {

/// The frames of the loading animation.
pub const SPINNER_FRAMES: usize = 10;

/// The words of a commit line after the hash and the word that follows it,
/// with one space between each two of them: the part of the line in which
/// ticket numbers are looked for.
pub open spec fn subject_of(words: Seq<Seq<char>>) -> Seq<char> {
    if words.len() > 2 {
        joined(words.subrange(2, words.len() as int), " "@)
    } else {
        Seq::empty()
    }
}

/// What precedes the subject in a rendered commit line: the indicator and
/// a space, then the hash, then a space and the second word.
pub open spec fn line_head(words: Seq<Seq<char>>, indicator: Seq<char>) -> Seq<SpanModel> {
    let start = seq![
        SpanModel { text: indicator, kind: SpanKind::Plain },
        SpanModel { text: " "@, kind: SpanKind::Plain },
    ];
    let hashed = if words.len() > 0 {
        start.push(SpanModel { text: words[0], kind: SpanKind::Hash })
    } else {
        start
    };
    if words.len() > 1 {
        hashed.push(SpanModel { text: " "@ + words[1], kind: SpanKind::Plain })
    } else {
        hashed
    }
}

/// The pieces of a rendered commit line, given where the ticket numbers
/// stand in its subject.
pub open spec fn line_spans(
    commit: Seq<char>,
    indicator: Seq<char>,
    tickets: Seq<(usize, usize)>,
) -> Seq<SpanModel> {
    let words = words_from(commit, 0);
    line_head(words, indicator) + ticket_spans(subject_of(words), tickets)
}

/// Renders a commit line: the indicator, the hash, the second word, and the
/// subject with its ticket numbers set apart.
pub fn render_commit_line(
    commit: &str,
    indicator: String,
    _selected: bool,
    finder: &TicketFinder,
) -> (line: Vec<Span>)
    ensures
        span_models(line@) == line_spans(
            commit@,
            indicator@,
            pattern_matches(finder@, subject_of(words_from(commit@, 0))),
        ),
{
    let words = split_words(commit);
    let ghost all = views(words@);
    let mut line: Vec<Span> = Vec::new();
    line.push(Span { text: indicator, kind: SpanKind::Plain });
    line.push(Span { text: " ".to_owned(), kind: SpanKind::Plain });
    if words.len() > 0 {
        assert(all[0] == words@[0]@);
        line.push(Span { text: words[0].clone(), kind: SpanKind::Hash });
    }
    if words.len() > 1 {
        assert(all[1] == words@[1]@);
        let mut second = " ".to_owned();
        second.append(words[1].as_str());
        line.push(Span { text: second, kind: SpanKind::Plain });
    }
    assert(span_models(line@) =~= line_head(all, indicator@));
    let mut tail: Vec<String> = Vec::new();
    let mut i: usize = 2;
    while i < words.len()
        invariant
            2 <= i,
            i <= words.len() || words.len() < 2,
            all == views(words@),
            i <= words.len() ==> views(tail@) == all.subrange(2, i as int),
            words.len() < 2 ==> tail@.len() == 0,
        decreases words.len() - i,
    {
        let ghost before = tail@;
        tail.push(words[i].clone());
        assert(views(tail@) =~= views(before).push(words@[i as int]@));
        assert(all.subrange(2, i as int + 1) =~= all.subrange(2, i as int).push(all[i as int]));
        i = i + 1;
    }
    let rest = if words.len() > 2 {
        join(&tail, " ")
    } else {
        String::new()
    };
    let found = finder.find(rest.as_str());
    let mut tickets = split_tickets(rest.as_str(), &found);
    let ghost head = line@;
    let ghost cut = tickets@;
    line.append(&mut tickets);
    assert(span_models(line@) =~= span_models(head) + span_models(cut));
    line
}

/// An entry of the sidebar.
#[derive(Clone, Copy, PartialEq, Eq, Debug)]
pub struct SidebarEntry {
    /// What the entry puts in scope.
    pub scope: RepoScope,
    /// The number of commits in that scope.
    pub commits: usize,
    /// Whether this is the scope of the state.
    pub selected: bool,
}

/// The entries of the sidebar: all repositories first, then each one.
pub open spec fn sidebar_entries(data: Seq<RepoModel>, scope: RepoScope) -> Seq<SidebarEntry> {
    Seq::new(
        data.len() + 1,
        |r: int|
            if r == 0 {
                SidebarEntry {
                    scope: RepoScope::All,
                    commits: total_commits(data) as usize,
                    selected: scope == RepoScope::All,
                }
            } else {
                SidebarEntry {
                    scope: RepoScope::Repo((r - 1) as usize),
                    commits: data[r - 1].commits.len() as usize,
                    selected: scope == RepoScope::Repo((r - 1) as usize),
                }
            },
    )
}

/// The entries of the sidebar.
pub fn plan_sidebar(data: &CommitData, scope: RepoScope) -> (entries: Vec<SidebarEntry>)
    ensures
        entries@ == sidebar_entries(data@, scope),
{
    let repos = data.repos();
    let total = data.total();
    let mut entries: Vec<SidebarEntry> = Vec::new();
    let all = match scope {
        RepoScope::All => true,
        RepoScope::Repo(_) => false,
    };
    entries.push(SidebarEntry { scope: RepoScope::All, commits: total, selected: all });
    let mut i: usize = 0;
    while i < repos.len()
        invariant
            i <= repos.len(),
            models(repos@) == data@,
            entries@.len() == i + 1,
            forall|r: int| 0 <= r <= i ==> #[trigger] entries@[r] == sidebar_entries(data@, scope)[r],
        decreases repos.len() - i,
    {
        let selected = match scope {
            RepoScope::All => false,
            RepoScope::Repo(chosen) => chosen == i,
        };
        assert(data@[i as int] == repos@[i as int]@);
        entries.push(
            SidebarEntry { scope: RepoScope::Repo(i), commits: repos[i].commits.len(), selected },
        );
        i = i + 1;
    }
    assert(entries@ =~= sidebar_entries(data@, scope));
    entries
}

/// A row of the commit list with its flags.
#[derive(Clone, Copy, PartialEq, Eq, Debug)]
pub struct CommitRow {
    pub kind: RowKind,
    /// Where the commit of the row stands in the data; none for a header.
    pub place: Option<CommitLocation>,
    /// Whether the row holds the selected commit.
    pub selected: bool,
    /// Whether the commit of the row is marked.
    pub marked: bool,
}

/// `CommitRow` as mathematical values.
pub struct RowPlan {
    pub kind: RowModel,
    pub place: Option<(int, int)>,
    pub selected: bool,
    pub marked: bool,
}

impl View for CommitRow {
    type V = RowPlan;

    open spec fn view(&self) -> RowPlan {
        RowPlan {
            kind: self.kind@,
            place: match self.place {
                Some(loc) => Some(loc@),
                None => None,
            },
            selected: self.selected,
            marked: self.marked,
        }
    }
}

/// The models of a sequence of rows.
pub open spec fn row_plans(rows: Seq<CommitRow>) -> Seq<RowPlan> {
    rows.map_values(|row: CommitRow| row@)
}

/// A row with its flags. A header has none. A commit is selected where its
/// position is the selected one, and marked where the marks hold its hash.
pub open spec fn plan_row(
    data: Seq<RepoModel>,
    places: Seq<(int, int)>,
    marks: Set<Seq<char>>,
    selected: Option<usize>,
    row: RowModel,
) -> RowPlan {
    match row {
        RowModel::Header(_) => RowPlan { kind: row, place: None, selected: false, marked: false },
        RowModel::Commit(k) => RowPlan {
            kind: row,
            place: Some(places[k]),
            selected: selected == Some(k as usize),
            marked: is_marked(data, marks, places[k]),
        },
    }
}

/// The rows of the commit list with their flags, from the top.
pub open spec fn planned_rows(
    data: Seq<RepoModel>,
    scope: RepoScope,
    tab: CommitTab,
    marks: Set<Seq<char>>,
    selected: Option<usize>,
) -> Seq<RowPlan> {
    let rows = list_rows(data, scope, tab, marks);
    let places = active_places(data, scope, tab, marks);
    Seq::new(rows.len(), |r: int| plan_row(data, places, marks, selected, rows[r]))
}

fn commit_row(
    data: &CommitData,
    marks: &SelectedCommits,
    selected: Option<usize>,
    k: usize,
    loc: CommitLocation,
) -> (row: CommitRow)
    requires
        place_in(data@, loc@),
    ensures
        row@ == (RowPlan {
            kind: RowModel::Commit(k as int),
            place: Some(loc@),
            selected: selected == Some(k),
            marked: is_marked(data@, marks@.set, loc@),
        }),
{
    let marked = match data.line(loc) {
        Some(line) => marks.contains(&commit_hash(line.as_str())),
        None => false,
    };
    let chosen = match selected {
        Some(s) => s == k,
        None => false,
    };
    CommitRow { kind: RowKind::Commit(k), place: Some(loc), selected: chosen, marked }
}

fn plan_grouped_rows(data: &CommitData, marks: &SelectedCommits, selected: Option<usize>) -> (rows:
    Vec<CommitRow>)
    ensures
        row_plans(rows@) == planned_rows(
            data@,
            RepoScope::All,
            CommitTab::Timeframe,
            marks@.set,
            selected,
        ),
{
    let repos = data.repos();
    let ghost wanted = planned_rows(
        data@,
        RepoScope::All,
        CommitTab::Timeframe,
        marks@.set,
        selected,
    );
    let ghost places = flatten(data@);
    let mut rows: Vec<CommitRow> = Vec::new();
    let mut first: usize = 0;
    let mut i: usize = 0;
    proof {
        lemma_grouped_len(data@);
        lemma_flatten_len(data@);
    }
    while i < repos.len()
        invariant
            i <= repos.len(),
            models(repos@) == data@,
            total_commits(data@) + data@.len() < usize::MAX,
            wanted == planned_rows(data@, RepoScope::All, CommitTab::Timeframe, marks@.set, selected),
            wanted.len() == total_commits(data@) + data@.len(),
            first == total_commits(data@.take(i as int)),
            rows@.len() == first + i,
            forall|r: int| 0 <= r < rows@.len() ==> (#[trigger] rows@[r])@ == wanted[r],
        decreases repos.len() - i,
    {
        let len = repos[i].commits.len();
        proof {
            lemma_total_step(data@, i as int);
            lemma_total_monotone(data@, i as int + 1, repos.len() as int);
            assert(data@.take(repos.len() as int) == data@);
            lemma_grouped_index(data@, i as int);
            assert(data@[i as int] == repos@[i as int]@);
        }
        rows.push(
            CommitRow { kind: RowKind::Header(i), place: None, selected: false, marked: false },
        );
        let mut j: usize = 0;
        while j < len
            invariant
                j <= len,
                i < repos.len(),
                models(repos@) == data@,
                len == data@[i as int].commits.len(),
                total_commits(data@) + data@.len() < usize::MAX,
                wanted == planned_rows(
                    data@,
                    RepoScope::All,
                    CommitTab::Timeframe,
                    marks@.set,
                    selected,
                ),
                wanted.len() == total_commits(data@) + data@.len(),
                first == total_commits(data@.take(i as int)),
                first + i + len < wanted.len(),
                rows@.len() == first + i + 1 + j,
                forall|r: int| 0 <= r < rows@.len() ==> (#[trigger] rows@[r])@ == wanted[r],
            decreases len - j,
        {
            proof {
                lemma_grouped_index(data@, i as int);
                lemma_flatten_index(data@, i as int, j as int);
                assert(grouped_rows(data@)[first + i + 1 + j] == RowModel::Commit(first + j));
            }
            let row = commit_row(
                data,
                marks,
                selected,
                first + j,
                CommitLocation { repo: i, index: j },
            );
            rows.push(row);
            j = j + 1;
        }
        first = first + len;
        i = i + 1;
    }
    proof {
        assert(data@.take(repos.len() as int) == data@);
        assert(row_plans(rows@) =~= wanted);
    }
    rows
}

/// The rows of the commit list with their flags, from the top.
pub fn plan_rows(
    data: &CommitData,
    marks: &SelectedCommits,
    scope: RepoScope,
    tab: CommitTab,
    selected: Option<usize>,
) -> (rows: Vec<CommitRow>)
    ensures
        row_plans(rows@) == planned_rows(data@, scope, tab, marks@.set, selected),
{
    if has_headers(scope, tab) {
        return plan_grouped_rows(data, marks, selected);
    }
    let places = list_active(data, marks, scope, tab);
    let ghost wanted = planned_rows(data@, scope, tab, marks@.set, selected);
    let ghost active = active_places(data@, scope, tab, marks@.set);
    let mut rows: Vec<CommitRow> = Vec::new();
    let mut k: usize = 0;
    proof {
        lemma_active_places(data@, scope, tab, marks@.set);
    }
    while k < places.len()
        invariant
            k <= places.len(),
            !shows_headers(scope, tab),
            active == active_places(data@, scope, tab, marks@.set),
            place_seq(places@) == active,
            forall|n: int| 0 <= n < active.len() ==> place_in(data@, #[trigger] active[n]),
            wanted == planned_rows(data@, scope, tab, marks@.set, selected),
            rows@.len() == k,
            forall|r: int| 0 <= r < rows@.len() ==> (#[trigger] rows@[r])@ == wanted[r],
        decreases places.len() - k,
    {
        proof {
            assert(place_seq(places@)[k as int] == places@[k as int]@);
            assert(place_in(data@, active[k as int]));
        }
        let row = commit_row(data, marks, selected, k, places[k]);
        rows.push(row);
        k = k + 1;
    }
    assert(row_plans(rows@) =~= wanted);
    rows
}

/// What the detail pane shows.
#[derive(Debug)]
pub struct DetailPlan {
    /// Where the commit stands in the data.
    pub place: CommitLocation,
    /// The hash by which its details are fetched.
    pub hash: String,
    /// Whether the pane shows the commit line itself, which then holds the
    /// body of the commit, in place of fetched details.
    pub from_line: bool,
    pub scroll: u16,
}

/// `DetailPlan` as mathematical values.
pub struct DetailModel {
    pub place: (int, int),
    pub hash: Seq<char>,
    pub from_line: bool,
    pub scroll: u16,
}

impl View for DetailPlan {
    type V = DetailModel;

    open spec fn view(&self) -> DetailModel {
        DetailModel {
            place: self.place@,
            hash: self.hash@,
            from_line: self.from_line,
            scroll: self.scroll,
        }
    }
}

/// What the detail pane shows: the selected commit, where the pane is open
/// and the selection names a commit on display.
pub open spec fn planned_detail(s: ViewState, data: Seq<RepoModel>, marks: Set<Seq<char>>) -> Option<
    DetailModel,
> {
    let places = active_places(data, s.selected_repo, s.selected_tab, marks);
    match s.selected_commit {
        Some(k) => if s.show_details && k < places.len() {
            Some(
                DetailModel {
                    place: places[k as int],
                    hash: first_token(line_at(data, places[k as int])),
                    from_line: s.detailed_commit_view,
                    scroll: s.detail_scroll,
                },
            )
        } else {
            None
        },
        None => None,
    }
}

/// What the detail pane shows.
pub fn plan_detail(state: &ViewState, data: &CommitData, marks: &SelectedCommits) -> (detail: Option<
    DetailPlan,
>)
    ensures
        match detail {
            Some(d) => planned_detail(*state, data@, marks@.set) == Some(d@),
            None => planned_detail(*state, data@, marks@.set) is None,
        },
{
    if !state.show_details {
        return None;
    }
    match state.selected_commit {
        Some(k) => {
            match resolve_active(data, marks, state.selected_repo, state.selected_tab, k) {
                Some(place) => {
                    match data.line(place) {
                        Some(line) => Some(
                            DetailPlan {
                                place,
                                hash: commit_hash(line.as_str()),
                                from_line: state.detailed_commit_view,
                                scroll: state.detail_scroll,
                            },
                        ),
                        None => None,
                    }
                },
                None => None,
            }
        },
        None => None,
    }
}

/// What the summary overlay shows beside its text.
#[derive(Debug)]
pub struct PopupPlan {
    pub area: Rect,
    /// The name of what is summarised, for the title.
    pub project: String,
    pub scroll: u16,
    pub loading: bool,
    /// The frame of the loading animation to show.
    pub spinner: usize,
}

/// The test that keeps the places of the commits with a given hash.
pub open spec fn hashed(data: Seq<RepoModel>, hash: Seq<char>) -> spec_fn((int, int)) -> bool {
    |place: (int, int)| first_token(line_at(data, place)) == hash
}

/// The line that the overlay of the marked commits shows for a hash: the
/// line of the last commit of the data that has the hash, or the hash
/// itself where no loaded commit has it.
pub open spec fn marked_line(data: Seq<RepoModel>, hash: Seq<char>) -> Seq<char> {
    let places = flatten(data).filter(hashed(data, hash));
    if places.len() > 0 {
        line_at(data, places.last())
    } else {
        hash
    }
}

/// The lines of the overlay of the marked commits, one for each hash.
pub open spec fn marked_lines(data: Seq<RepoModel>, hashes: Seq<Seq<char>>) -> Seq<Seq<char>> {
    Seq::new(hashes.len(), |n: int| marked_line(data, hashes[n]))
}

fn line_for_hash(data: &CommitData, places: &Vec<CommitLocation>, hash: &String) -> (line: String)
    requires
        place_seq(places@) == flatten(data@),
    ensures
        line@ == marked_line(data@, hash@),
{
    let ghost all = flatten(data@);
    let ghost keep = hashed(data@, hash@);
    let mut last: Option<CommitLocation> = None;
    let mut k: usize = 0;
    proof {
        assert(all.take(0).filter(keep) =~= Seq::<(int, int)>::empty()) by {
            reveal(Seq::filter);
        }
    }
    while k < places.len()
        invariant
            k <= places.len(),
            all == flatten(data@),
            place_seq(places@) == all,
            keep == hashed(data@, hash@),
            match last {
                Some(loc) => all.take(k as int).filter(keep).len() > 0 && all.take(k as int).filter(
                    keep,
                ).last() == loc@ && place_in(data@, loc@),
                None => all.take(k as int).filter(keep).len() == 0,
            },
        decreases places.len() - k,
    {
        let loc = places[k];
        proof {
            assert(place_seq(places@)[k as int] == places@[k as int]@);
            lemma_flatten_places(data@, k as int);
            assert(all.take(k as int + 1) == all.take(k as int).push(loc@));
            lemma_filter_push(all.take(k as int), keep, loc@);
        }
        match data.line(loc) {
            Some(line) => {
                if commit_hash(line.as_str()) == *hash {
                    last = Some(loc);
                }
            },
            None => {},
        }
        k = k + 1;
    }
    assert(all.take(places.len() as int) == all);
    match last {
        Some(loc) => match data.line(loc) {
            Some(line) => line.clone(),
            None => hash.clone(),
        },
        None => hash.clone(),
    }
}

/// The lines of the overlay of the marked commits.
pub fn plan_marked_lines(data: &CommitData, marks: &SelectedCommits) -> (lines: Vec<String>)
    ensures
        views(lines@) == marked_lines(data@, views(marks.set@)),
{
    let places = all_places(data);
    let mut lines: Vec<String> = Vec::new();
    let mut n: usize = 0;
    while n < marks.set.len()
        invariant
            n <= marks.set.len(),
            place_seq(places@) == flatten(data@),
            lines@.len() == n,
            forall|m: int| 0 <= m < n ==> (#[trigger] lines@[m])@ == marked_line(
                data@,
                marks.set@[m]@,
            ),
        decreases marks.set.len() - n,
    {
        let line = line_for_hash(data, &places, &marks.set[n]);
        lines.push(line);
        n = n + 1;
    }
    assert(views(lines@) =~= marked_lines(data@, views(marks.set@)));
    lines
}

/// Everything that the screen shows, ready to be drawn.
#[derive(Debug)]
pub struct RenderPlan {
    pub regions: Regions,
    pub focus: FocusArea,
    pub tab: CommitTab,
    /// Whether the panes stand dimmed behind the summary overlay.
    pub dimmed: bool,
    pub filter_by_user: bool,
    pub detailed_commit_view: bool,
    pub sidebar: Vec<SidebarEntry>,
    /// The first entry of the sidebar that is in its window.
    pub sidebar_scroll: usize,
    pub rows: Vec<CommitRow>,
    /// The first row of the commit list that is in its window.
    pub first_row: usize,
    pub detail: Option<DetailPlan>,
    pub popup: Option<PopupPlan>,
    /// The lines of the overlay of the marked commits, where it is open.
    pub marked: Option<Vec<String>>,
}

/// What holds of the plan for a scene, wherever the solver put the
/// regions: the regions come out of laying out the terminal, in three
/// columns exactly where the state shows a detail pane and in two
/// otherwise; the lists hold the entries and rows of the data with their
/// flags and offsets; the detail pane shows the selected commit; and each
/// overlay is planned exactly where it is open.
pub open spec fn plan_of(
    plan: RenderPlan,
    state: ViewState,
    data: Seq<RepoModel>,
    popup: &PopupQuote,
    marks: &SelectedCommits,
    frame: Frame,
) -> bool {
    &&& regions_of(plan.regions, frame.cols, frame.rows, shows_detail(state))
    &&& plan.focus == state.focus
    &&& plan.tab == state.selected_tab
    &&& plan.dimmed == popup.visible
    &&& plan.filter_by_user == state.filter_by_user
    &&& plan.detailed_commit_view == state.detailed_commit_view
    &&& plan.sidebar@ == sidebar_entries(data, state.selected_repo)
    &&& plan.sidebar_scroll == state.sidebar_scroll
    &&& row_plans(plan.rows@) == planned_rows(
        data,
        state.selected_repo,
        state.selected_tab,
        marks@.set,
        state.selected_commit,
    )
    &&& plan.first_row == state.commitlist_scroll
    &&& match plan.detail {
        Some(d) => planned_detail(state, data, marks@.set) == Some(d@),
        None => planned_detail(state, data, marks@.set) is None,
    }
    &&& (plan.popup is Some <==> popup.visible)
    &&& (plan.popup matches Some(p) ==> {
        &&& p.area == plan.regions.popup
        &&& p.project@ == project_name(data, state.selected_repo, CommitTab::Timeframe)
        &&& p.scroll == popup.scroll
        &&& p.loading == popup.loading
        &&& p.spinner == popup.spinner_frame as int % SPINNER_FRAMES as int
    })
    &&& (plan.marked is Some <==> marks.popup_visible)
    &&& (plan.marked matches Some(lines) ==> views(lines@) == marked_lines(data, views(marks.set@)))
}

/// Plans the screen for a frame.
pub fn render_commits(
    state: &ViewState,
    commits: &CommitData,
    popup: &PopupQuote,
    marks: &SelectedCommits,
    frame: &Frame,
) -> (plan: RenderPlan)
    ensures
        plan_of(plan, *state, commits@, popup, marks, *frame),
{
    let three_columns = state.show_details && state.selected_commit.is_some();
    let regions = plan_regions(frame.cols, frame.rows, three_columns);
    let overlay = if popup.visible {
        let repos = commits.repos();
        let project = match state.selected_repo {
            RepoScope::All => crate::prompts::ALL_PROJECTS.to_owned(),
            RepoScope::Repo(i) => {
                if i < repos.len() {
                    assert(commits@[i as int] == repos@[i as int]@);
                    repos[i].repo.name.clone()
                } else {
                    crate::prompts::UNKNOWN_PROJECT.to_owned()
                }
            },
        };
        Some(
            PopupPlan {
                area: regions.popup,
                project,
                scroll: popup.scroll,
                loading: popup.loading,
                spinner: (popup.spinner_frame as usize) % SPINNER_FRAMES,
            },
        )
    } else {
        None
    };
    let marked = if marks.popup_visible {
        Some(plan_marked_lines(commits, marks))
    } else {
        None
    };
    RenderPlan {
        regions,
        focus: state.focus,
        tab: state.selected_tab,
        dimmed: popup.visible,
        filter_by_user: state.filter_by_user,
        detailed_commit_view: state.detailed_commit_view,
        sidebar: plan_sidebar(commits, state.selected_repo),
        sidebar_scroll: state.sidebar_scroll,
        rows: plan_rows(
            commits,
            marks,
            state.selected_repo,
            state.selected_tab,
            state.selected_commit,
        ),
        first_row: state.commitlist_scroll,
        detail: plan_detail(state, commits, marks),
        popup: overlay,
        marked,
    }
}

} // verus!
