use whid::active::{
    active_count, count_rows, find_marked, list_active, resolve_active, row_at, row_position, RowKind,
};
use whid::commits::{CommitData, CommitLocation, RepoCommits, Repository};
use whid::marks::SelectedCommits;
use whid::models::{CommitTab, FocusArea, Frame, Key, PopupQuote, RepoScope, ViewState};
use whid::tickets::{split_tickets, Span, SpanKind, TicketFinder};
use whid::ui::{
    plan_detail, plan_marked_lines, plan_rows, plan_sidebar, render_commit_line, render_commits,
    CommitRow, SidebarEntry,
};

fn repo(name: &str, commits: &[&str]) -> RepoCommits {
    RepoCommits {
        repo: Repository { path: format!("/work/{}", name), name: name.to_string() },
        commits: commits.iter().map(|c| c.to_string()).collect(),
    }
}

fn two_repos() -> CommitData {
    CommitData::new(vec![
        repo("alpha", &["h1 2 hours ago first", "h2 3 hours ago second"]),
        repo("beta", &["h3 1 day ago third"]),
    ])
    .unwrap()
}

fn frame() -> Frame {
    Frame { cols: 120, rows: 40, detail_lines: 0, interval_count: 5 }
}

fn texts(spans: &[Span]) -> Vec<(String, SpanKind)> {
    spans.iter().map(|s| (s.text.clone(), s.kind)).collect()
}

fn plain(text: &str) -> (String, SpanKind) {
    (text.to_string(), SpanKind::Plain)
}

fn ticket(text: &str) -> (String, SpanKind) {
    (text.to_string(), SpanKind::Ticket)
}

fn header(repo: usize) -> CommitRow {
    CommitRow { kind: RowKind::Header(repo), place: None, selected: false, marked: false }
}

fn commit(position: usize, repo: usize, index: usize, selected: bool, marked: bool) -> CommitRow {
    CommitRow {
        kind: RowKind::Commit(position),
        place: Some(CommitLocation { repo, index }),
        selected,
        marked,
    }
}

#[test]
fn rows_of_all_repositories_have_headers_and_global_positions() {
    let data = two_repos();
    let mut marks = SelectedCommits::new();
    marks.toggle("h2".to_string());
    let rows = plan_rows(&data, &marks, RepoScope::All, CommitTab::Timeframe, Some(2));
    assert_eq!(
        rows,
        vec![
            header(0),
            commit(0, 0, 0, false, false),
            commit(1, 0, 1, false, true),
            header(1),
            commit(2, 1, 0, true, false),
        ]
    );
    assert_eq!(count_rows(&data, &marks, RepoScope::All, CommitTab::Timeframe), 5);
    assert_eq!(row_position(&data, &marks, RepoScope::All, CommitTab::Timeframe, 0), 1);
    assert_eq!(row_position(&data, &marks, RepoScope::All, CommitTab::Timeframe, 1), 2);
    assert_eq!(row_position(&data, &marks, RepoScope::All, CommitTab::Timeframe, 2), 4);
    for (r, row) in rows.iter().enumerate() {
        assert_eq!(row_at(&data, &marks, RepoScope::All, CommitTab::Timeframe, r), Some(row.kind));
    }
    assert_eq!(row_at(&data, &marks, RepoScope::All, CommitTab::Timeframe, 5), None);
}

#[test]
fn rows_of_one_repository_map_to_its_commits() {
    let data = two_repos();
    let marks = SelectedCommits::new();
    let rows = plan_rows(&data, &marks, RepoScope::Repo(0), CommitTab::Timeframe, Some(0));
    assert_eq!(rows, vec![commit(0, 0, 0, true, false), commit(1, 0, 1, false, false)]);
    assert!(plan_rows(&data, &marks, RepoScope::Repo(5), CommitTab::Timeframe, None).is_empty());
    assert!(plan_rows(&data, &marks, RepoScope::All, CommitTab::Stats, None).is_empty());
    assert_eq!(row_at(&data, &marks, RepoScope::Repo(0), CommitTab::Timeframe, 1), Some(RowKind::Commit(1)));
    assert_eq!(row_at(&data, &marks, RepoScope::Repo(0), CommitTab::Timeframe, 2), None);
    assert_eq!(row_position(&data, &marks, RepoScope::Repo(0), CommitTab::Timeframe, 1), 1);
}

#[test]
fn the_selection_tab_shows_exactly_the_marked_commit() {
    let data = two_repos();
    let mut state = ViewState::new(0);
    let mut popup = PopupQuote::new();
    let mut marks = SelectedCommits::new();
    let f = frame();
    state.focus = FocusArea::CommitList;
    for key in [Key::Down, Key::Char('m'), Key::Char('3')] {
        whid::input::handle_key(key, &mut state, &data, &mut popup, &mut marks, &f);
    }
    assert_eq!(state.selected_tab, CommitTab::Selection);
    let plan = render_commits(&state, &data, &popup, &marks, &f);
    assert_eq!(plan.rows.len(), 1);
    let place = plan.rows[0].place.unwrap();
    assert_eq!(data.repos()[place.repo].repo.name, "alpha");
    assert_eq!(data.line(place).unwrap().as_str(), "h1 2 hours ago first");
    assert!(plan.rows[0].marked);
    assert_eq!(plan.rows[0].kind, RowKind::Commit(0));
}

#[test]
fn marked_commits_are_listed_in_the_order_of_the_data() {
    let data = two_repos();
    let mut marks = SelectedCommits::new();
    marks.toggle("h3".to_string());
    marks.toggle("nowhere".to_string());
    marks.toggle("h1".to_string());
    let expected = vec![CommitLocation { repo: 0, index: 0 }, CommitLocation { repo: 1, index: 0 }];
    assert_eq!(find_marked(&data, &marks), expected);
    assert_eq!(list_active(&data, &marks, RepoScope::Repo(1), CommitTab::Selection), expected);
    assert_eq!(active_count(&data, &marks, RepoScope::All, CommitTab::Selection), 2);
    assert_eq!(active_count(&data, &marks, RepoScope::All, CommitTab::Timeframe), 3);
    assert_eq!(active_count(&data, &marks, RepoScope::Repo(0), CommitTab::Timeframe), 2);
    assert_eq!(active_count(&data, &marks, RepoScope::Repo(2), CommitTab::Timeframe), 0);
    assert_eq!(active_count(&data, &marks, RepoScope::All, CommitTab::Stats), 0);
    assert_eq!(resolve_active(&data, &marks, RepoScope::All, CommitTab::Selection, 1), Some(expected[1]));
    assert_eq!(resolve_active(&data, &marks, RepoScope::All, CommitTab::Selection, 2), None);
    assert_eq!(
        resolve_active(&data, &marks, RepoScope::Repo(1), CommitTab::Timeframe, 0),
        Some(CommitLocation { repo: 1, index: 0 })
    );
    assert_eq!(resolve_active(&data, &marks, RepoScope::Repo(1), CommitTab::Timeframe, 1), None);
    assert_eq!(resolve_active(&data, &marks, RepoScope::All, CommitTab::Stats, 0), None);
    assert_eq!(
        list_active(&data, &marks, RepoScope::Repo(0), CommitTab::Timeframe),
        vec![CommitLocation { repo: 0, index: 0 }, CommitLocation { repo: 0, index: 1 }]
    );
}

#[test]
fn the_sidebar_lists_all_and_each_repository() {
    let data = two_repos();
    assert_eq!(
        plan_sidebar(&data, RepoScope::Repo(1)),
        vec![
            SidebarEntry { scope: RepoScope::All, commits: 3, selected: false },
            SidebarEntry { scope: RepoScope::Repo(0), commits: 2, selected: false },
            SidebarEntry { scope: RepoScope::Repo(1), commits: 1, selected: true },
        ]
    );
    assert_eq!(
        plan_sidebar(&CommitData::empty(), RepoScope::All),
        vec![SidebarEntry { scope: RepoScope::All, commits: 0, selected: true }]
    );
}

#[test]
fn the_plan_follows_the_state() {
    let data = two_repos();
    let mut state = ViewState::new(0);
    let mut popup = PopupQuote::new();
    let mut marks = SelectedCommits::new();
    let f = frame();
    let plan = render_commits(&state, &data, &popup, &marks, &f);
    assert!(plan.regions.detail.is_none());
    assert!(plan.detail.is_none());
    assert!(plan.popup.is_none());
    assert!(plan.marked.is_none());
    assert!(!plan.dimmed);
    assert_eq!(plan.focus, FocusArea::Sidebar);
    assert_eq!(plan.tab, CommitTab::Timeframe);
    assert!(plan.filter_by_user);
    assert_eq!(plan.rows.len(), 5);
    assert_eq!(plan.sidebar.len(), 3);
    state.focus = FocusArea::CommitList;
    for key in [Key::Down, Key::Down, Key::Char(' '), Key::Char('m')] {
        whid::input::handle_key(key, &mut state, &data, &mut popup, &mut marks, &f);
    }
    state.detail_scroll = 0;
    popup.visible = true;
    popup.loading = true;
    popup.spinner_frame = 23;
    popup.scroll = 4;
    marks.popup_visible = true;
    marks.toggle("away".to_string());
    let plan = render_commits(&state, &data, &popup, &marks, &f);
    assert!(plan.regions.detail.is_some());
    let detail = plan.detail.unwrap();
    assert_eq!(detail.place, CommitLocation { repo: 0, index: 1 });
    assert_eq!(detail.hash, "h2");
    assert!(!detail.from_line);
    assert!(plan.dimmed);
    let overlay = plan.popup.unwrap();
    assert_eq!(overlay.area, plan.regions.popup);
    assert_eq!(overlay.project, "All projects");
    assert_eq!(overlay.spinner, 3);
    assert_eq!(overlay.scroll, 4);
    assert!(overlay.loading);
    assert_eq!(plan.marked.unwrap(), vec!["h2 3 hours ago second".to_string(), "away".to_string()]);
    assert_eq!(plan.first_row, state.commitlist_scroll);
    assert!(plan.rows[2].selected && plan.rows[2].marked);
}

#[test]
fn no_detail_is_planned_without_an_open_pane() {
    let data = two_repos();
    let marks = SelectedCommits::new();
    let mut state = ViewState::new(0);
    state.selected_commit = Some(1);
    assert!(plan_detail(&state, &data, &marks).is_none());
    state.show_details = true;
    state.detailed_commit_view = true;
    let detail = plan_detail(&state, &data, &marks).unwrap();
    assert_eq!(detail.hash, "h2");
    assert!(detail.from_line);
    state.selected_commit = Some(3);
    assert!(plan_detail(&state, &data, &marks).is_none());
    state.selected_commit = None;
    assert!(plan_detail(&state, &data, &marks).is_none());
}

#[test]
fn lines_of_marks_take_the_last_commit_with_the_hash() {
    let data = CommitData::new(vec![repo("a", &["dup first", "x other"]), repo("b", &["dup second"])]).unwrap();
    let marks = SelectedCommits { set: vec!["dup".to_string(), "zzz".to_string(), "x".to_string()], popup_visible: true };
    assert_eq!(
        plan_marked_lines(&data, &marks),
        vec!["dup second".to_string(), "zzz".to_string(), "x other".to_string()]
    );
}

#[test]
fn commit_lines_set_hash_and_tickets_apart() {
    let finder = TicketFinder::new().unwrap();
    let line = render_commit_line("abc123 2 hours  ago Fix CPT-2345 and DSG-23212 bug", "* ".to_string(), false, &finder);
    assert_eq!(
        texts(&line),
        vec![
            plain("* "),
            plain(" "),
            ("abc123".to_string(), SpanKind::Hash),
            plain(" 2"),
            plain("hours ago Fix "),
            ticket("CPT-2345"),
            plain(" and "),
            ticket("DSG-23212"),
            plain(" bug"),
        ]
    );
    let line = render_commit_line("abc123", "  ".to_string(), true, &finder);
    assert_eq!(texts(&line), vec![plain("  "), plain(" "), ("abc123".to_string(), SpanKind::Hash)]);
    let line = render_commit_line("", "".to_string(), true, &finder);
    assert_eq!(texts(&line), vec![plain(""), plain(" ")]);
    let line = render_commit_line("h me AB-1", "".to_string(), true, &finder);
    assert_eq!(
        texts(&line),
        vec![plain(""), plain(" "), ("h".to_string(), SpanKind::Hash), plain(" me"), ticket("AB-1")]
    );
    let line = render_commit_line("h me AB-1XY-22 \u{e4}b-1 \u{dc}X-9", "".to_string(), true, &finder);
    assert_eq!(
        texts(&line),
        vec![
            plain(""),
            plain(" "),
            ("h".to_string(), SpanKind::Hash),
            plain(" me"),
            ticket("AB-1"),
            ticket("XY-22"),
            plain(" \u{e4}b-1 \u{dc}"),
            ticket("X-9"),
        ]
    );
}

#[test]
fn texts_are_cut_at_given_ranges() {
    let spans = split_tickets("h\u{e4}llo world", &vec![(0, 3), (7, 9)]);
    assert_eq!(texts(&spans), vec![ticket("h\u{e4}"), plain("llo "), ticket("wo"), plain("rld")]);
    let spans = split_tickets("abc", &vec![]);
    assert_eq!(texts(&spans), vec![plain("abc")]);
    let spans = split_tickets("", &vec![]);
    assert!(spans.is_empty());
    let spans = split_tickets("abc", &vec![(1, 1), (1, 3)]);
    assert_eq!(texts(&spans), vec![plain("a"), ticket(""), ticket("bc")]);
    let finder = TicketFinder::new().unwrap();
    assert_eq!(finder.find("see AB-12 and \u{e4}CD-3"), vec![(4, 9), (16, 20)]);
    assert_eq!(finder.find("nothing here"), vec![]);
}
