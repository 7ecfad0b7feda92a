use whid::commits::{CommitData, RepoCommits, Repository};
use whid::layout::{centered_rect, plan_regions, Rect};
use whid::marks::SelectedCommits;
use whid::models::{
    Action, Command, CommitTab, FocusArea, Frame, MouseEvent, MouseKind, PopupQuote, RepoScope,
    ViewState,
};
use whid::mouse::{command_for_mouse, handle_mouse, handle_mouse_in, hits};

fn repo(name: &str, commits: &[&str]) -> RepoCommits {
    RepoCommits {
        repo: Repository { path: format!("/work/{}", name), name: name.to_string() },
        commits: commits.iter().map(|c| c.to_string()).collect(),
    }
}

fn two_repos() -> CommitData {
    CommitData::new(vec![
        repo("alpha", &["h1 2 hours ago first", "h2 3 hours ago second"]),
        repo("beta", &["h3 1 day ago third"]),
    ])
    .unwrap()
}

fn frame() -> Frame {
    Frame { cols: 120, rows: 40, detail_lines: 0, interval_count: 5 }
}

fn down(column: u16, row: u16) -> MouseEvent {
    MouseEvent { kind: MouseKind::Down, column, row }
}

#[test]
fn two_column_layout_of_a_terminal() {
    let regions = plan_regions(120, 40, false);
    assert_eq!(regions.screen, Rect { x: 0, y: 0, width: 120, height: 40 });
    assert_eq!(regions.footer, Rect { x: 0, y: 37, width: 120, height: 3 });
    assert_eq!(regions.sidebar, Rect { x: 0, y: 0, width: 30, height: 37 });
    assert_eq!(regions.commits, Rect { x: 30, y: 0, width: 90, height: 37 });
    assert_eq!(regions.detail, None);
    assert_eq!(regions.tabs(), Rect { x: 30, y: 0, width: 90, height: 3 });
    assert_eq!(regions.list(), Rect { x: 30, y: 3, width: 90, height: 34 });
}

#[test]
fn three_column_layout_has_a_detail_pane_of_the_same_band() {
    let regions = plan_regions(120, 40, true);
    let detail = regions.detail.unwrap();
    assert_eq!(regions.sidebar.y, 0);
    assert_eq!(regions.sidebar.height, 37);
    assert_eq!(regions.commits.y, 0);
    assert_eq!(regions.commits.height, 37);
    assert_eq!(detail.y, 0);
    assert_eq!(detail.height, 37);
    assert_eq!(regions.sidebar.x, 0);
    assert_eq!(regions.sidebar.width, 30);
    assert_eq!(regions.footer, Rect { x: 0, y: 37, width: 120, height: 3 });
    assert!(regions.commits.x >= regions.sidebar.x + regions.sidebar.width);
    assert!(detail.x >= regions.commits.x + regions.commits.width);
    assert!(detail.x + detail.width <= 120);
    assert!(regions.commits.width > 0 && detail.width > 0);
}

#[test]
fn every_region_lies_inside_the_terminal() {
    for (cols, rows) in [(0u16, 0u16), (1, 1), (10, 3), (29, 4), (31, 5), (80, 24), (200, 60), (65535, 65535)] {
        for three in [false, true] {
            let regions = plan_regions(cols, rows, three);
            let mut all = vec![regions.sidebar, regions.commits, regions.footer, regions.popup, regions.marked];
            all.extend(regions.detail);
            for r in all {
                assert!(r.x as u32 + r.width as u32 <= cols as u32);
                assert!(r.y as u32 + r.height as u32 <= rows as u32);
            }
            assert_eq!(regions.detail.is_some(), three);
            assert_eq!(regions.footer.x, 0);
            assert_eq!(regions.footer.width, cols);
        }
    }
    let outer = Rect { x: 65000, y: 65000, width: 600, height: 600 };
    let inner = centered_rect(50, 50, outer);
    assert!(inner.x >= outer.x && inner.y >= outer.y);
    assert!(inner.x as u32 + inner.width as u32 <= 65600);
    assert!(inner.y as u32 + inner.height as u32 <= 65600);
}

#[test]
fn centered_rect_takes_the_middle_share() {
    let whole = Rect { x: 0, y: 0, width: 120, height: 40 };
    assert_eq!(centered_rect(60, 80, whole), Rect { x: 24, y: 4, width: 72, height: 32 });
    assert_eq!(centered_rect(60, 40, whole), Rect { x: 24, y: 12, width: 72, height: 16 });
    assert_eq!(centered_rect(100, 100, whole), whole);
    let regions = plan_regions(120, 40, false);
    assert_eq!(regions.popup, Rect { x: 24, y: 4, width: 72, height: 32 });
    assert_eq!(regions.marked, Rect { x: 24, y: 12, width: 72, height: 16 });
}

#[test]
fn centered_rect_accepts_shares_above_a_hundred_percent() {
    let whole = Rect { x: 2, y: 3, width: 50, height: 20 };
    let inner = centered_rect(150, 150, whole);
    assert_eq!(inner.y, 3);
    assert_eq!(inner.x, 2);
}

#[test]
fn hit_test_is_half_open() {
    let r = Rect { x: 10, y: 5, width: 4, height: 2 };
    assert!(hits(r, 10, 5));
    assert!(hits(r, 13, 6));
    assert!(!hits(r, 14, 6));
    assert!(!hits(r, 13, 7));
    assert!(!hits(r, 9, 5));
    assert!(!hits(r, 10, 4));
    let edge = Rect { x: 65530, y: 65530, width: 100, height: 100 };
    assert!(hits(edge, 65535, 65535));
}

#[test]
fn clicks_in_the_sidebar_choose_the_scope() {
    let data = two_repos();
    let mut state = ViewState::new(0);
    let mut popup = PopupQuote::new();
    let mut marks = SelectedCommits::new();
    let f = frame();
    state.selected_commit = Some(1);
    state.selected_tab = CommitTab::Selection;
    handle_mouse(down(5, 2), &mut state, &data, &mut popup, &mut marks, &f);
    assert_eq!(state.selected_repo, RepoScope::Repo(0));
    assert_eq!(state.selected_commit, None);
    assert_eq!(state.selected_tab, CommitTab::Timeframe);
    assert_eq!(state.focus, FocusArea::Sidebar);
    handle_mouse(down(5, 3), &mut state, &data, &mut popup, &mut marks, &f);
    assert_eq!(state.selected_repo, RepoScope::Repo(1));
    handle_mouse(down(5, 4), &mut state, &data, &mut popup, &mut marks, &f);
    assert_eq!(state.selected_repo, RepoScope::Repo(1));
    handle_mouse(down(29, 1), &mut state, &data, &mut popup, &mut marks, &f);
    assert_eq!(state.selected_repo, RepoScope::All);
    handle_mouse(down(0, 0), &mut state, &data, &mut popup, &mut marks, &f);
    assert_eq!(state.selected_repo, RepoScope::All);
}

#[test]
fn sidebar_buttons_open_the_overlays() {
    let data = two_repos();
    let mut state = ViewState::new(0);
    let mut popup = PopupQuote::new();
    let mut marks = SelectedCommits::new();
    let f = frame();
    state.focus = FocusArea::CommitList;
    let action = handle_mouse(down(3, 36), &mut state, &data, &mut popup, &mut marks, &f);
    assert!(matches!(action, Action::PrepareSummary));
    let action = handle_mouse(down(3, 35), &mut state, &data, &mut popup, &mut marks, &f);
    assert!(matches!(action, Action::Continue));
    assert!(marks.popup_visible);
    assert_eq!(state.focus, FocusArea::Sidebar);
    let action = handle_mouse(down(3, 36), &mut state, &data, &mut popup, &mut marks, &f);
    assert!(matches!(action, Action::Continue));
}

#[test]
fn clicks_on_the_tab_bar_switch_the_tab() {
    let data = two_repos();
    let mut state = ViewState::new(0);
    let mut popup = PopupQuote::new();
    let mut marks = SelectedCommits::new();
    let f = frame();
    handle_mouse(down(44, 1), &mut state, &data, &mut popup, &mut marks, &f);
    assert_eq!(state.selected_tab, CommitTab::Selection);
    assert_eq!(state.focus, FocusArea::CommitList);
    handle_mouse(down(43, 1), &mut state, &data, &mut popup, &mut marks, &f);
    assert_eq!(state.selected_tab, CommitTab::Selection);
    handle_mouse(down(42, 2), &mut state, &data, &mut popup, &mut marks, &f);
    assert_eq!(state.selected_tab, CommitTab::Timeframe);
    handle_mouse(down(56, 0), &mut state, &data, &mut popup, &mut marks, &f);
    assert_eq!(state.selected_tab, CommitTab::Selection);
    handle_mouse(down(30, 0), &mut state, &data, &mut popup, &mut marks, &f);
    assert_eq!(state.selected_tab, CommitTab::Timeframe);
    handle_mouse(down(57, 0), &mut state, &data, &mut popup, &mut marks, &f);
    assert_eq!(state.selected_tab, CommitTab::Timeframe);
}

#[test]
fn clicks_in_the_commit_list_select_and_mark() {
    let data = two_repos();
    let mut state = ViewState::new(0);
    let mut popup = PopupQuote::new();
    let mut marks = SelectedCommits::new();
    let f = frame();
    handle_mouse(down(40, 3), &mut state, &data, &mut popup, &mut marks, &f);
    assert_eq!(state.focus, FocusArea::Sidebar);
    handle_mouse(down(40, 4), &mut state, &data, &mut popup, &mut marks, &f);
    assert_eq!(state.focus, FocusArea::CommitList);
    assert_eq!(state.selected_commit, None);
    handle_mouse(down(40, 6), &mut state, &data, &mut popup, &mut marks, &f);
    assert_eq!(state.selected_commit, Some(1));
    assert_eq!(marks.set, vec!["h2".to_string()]);
    handle_mouse(down(119, 8), &mut state, &data, &mut popup, &mut marks, &f);
    assert_eq!(state.selected_commit, Some(2));
    assert_eq!(marks.set, vec!["h2".to_string(), "h3".to_string()]);
    handle_mouse(down(60, 6), &mut state, &data, &mut popup, &mut marks, &f);
    assert_eq!(state.selected_commit, Some(1));
    assert_eq!(marks.set, vec!["h3".to_string()]);
    handle_mouse(down(60, 20), &mut state, &data, &mut popup, &mut marks, &f);
    assert_eq!(state.selected_commit, Some(1));
    handle_mouse(down(60, 38), &mut state, &data, &mut popup, &mut marks, &f);
    assert_eq!(state.selected_commit, Some(1));
    assert_eq!(marks.set, vec!["h3".to_string()]);
}

#[test]
fn the_summary_overlay_takes_clicks_and_the_wheel() {
    let data = two_repos();
    let mut state = ViewState::new(0);
    let mut popup = PopupQuote::new();
    let mut marks = SelectedCommits::new();
    let f = frame();
    popup.visible = true;
    popup.text = (0..100).map(|i| format!("line {}\n", i)).collect();
    let wheel_down = MouseEvent { kind: MouseKind::ScrollDown, column: 50, row: 10 };
    let wheel_up = MouseEvent { kind: MouseKind::ScrollUp, column: 50, row: 10 };
    handle_mouse(wheel_down, &mut state, &data, &mut popup, &mut marks, &f);
    handle_mouse(wheel_down, &mut state, &data, &mut popup, &mut marks, &f);
    assert_eq!(popup.scroll, 2);
    handle_mouse(wheel_up, &mut state, &data, &mut popup, &mut marks, &f);
    assert_eq!(popup.scroll, 1);
    let outside = MouseEvent { kind: MouseKind::ScrollDown, column: 2, row: 10 };
    handle_mouse(outside, &mut state, &data, &mut popup, &mut marks, &f);
    assert_eq!(popup.scroll, 1);
    handle_mouse(down(5, 2), &mut state, &data, &mut popup, &mut marks, &f);
    assert_eq!(state.selected_repo, RepoScope::All);
    handle_mouse(down(40, 6), &mut state, &data, &mut popup, &mut marks, &f);
    assert_eq!(state.selected_commit, None);
    assert!(marks.set.is_empty());
    handle_mouse(down(90, 4), &mut state, &data, &mut popup, &mut marks, &f);
    assert!(popup.visible);
    handle_mouse(down(94, 4), &mut state, &data, &mut popup, &mut marks, &f);
    assert!(popup.visible);
    handle_mouse(down(92, 5), &mut state, &data, &mut popup, &mut marks, &f);
    assert!(popup.visible);
    handle_mouse(down(91, 4), &mut state, &data, &mut popup, &mut marks, &f);
    assert!(!popup.visible);
    assert_eq!(popup.scroll, 0);
}

#[test]
fn the_overlay_of_marked_commits_takes_every_click() {
    let data = two_repos();
    let mut state = ViewState::new(0);
    let mut popup = PopupQuote::new();
    let mut marks = SelectedCommits::new();
    marks.popup_visible = true;
    let f = frame();
    for event in [down(5, 2), down(40, 6), down(44, 1), down(3, 36), down(91, 4)] {
        let action = handle_mouse(event, &mut state, &data, &mut popup, &mut marks, &f);
        assert!(matches!(action, Action::Continue));
        assert_eq!(state, ViewState::new(0));
    }
    assert!(marks.popup_visible);
}

#[test]
fn mouse_commands_for_given_regions() {
    let state = ViewState::new(0);
    let popup = PopupQuote::new();
    let marks = SelectedCommits::new();
    let mut regions = plan_regions(120, 40, false);
    regions.sidebar = Rect { x: 2, y: 10, width: 20, height: 8 };
    regions.commits = Rect { x: 40, y: 10, width: 60, height: 20 };
    let at = |c: u16, r: u16| command_for_mouse(down(c, r), &state, &popup, &marks, 3, &regions);
    assert_eq!(at(1, 11), Command::Ignore);
    assert_eq!(at(2, 10), Command::SelectRepo(RepoScope::All));
    assert_eq!(at(2, 11), Command::SelectRepo(RepoScope::All));
    assert_eq!(at(21, 14), Command::SelectRepo(RepoScope::Repo(2)));
    assert_eq!(at(21, 15), Command::Ignore);
    assert_eq!(at(21, 16), Command::ShowMarked);
    assert_eq!(at(21, 17), Command::Summarize);
    assert_eq!(at(21, 18), Command::Ignore);
    assert_eq!(at(40, 12), Command::Show(FocusArea::CommitList, CommitTab::Timeframe));
    assert_eq!(at(53, 12), Command::Ignore);
    assert_eq!(at(54, 12), Command::Show(FocusArea::CommitList, CommitTab::Selection));
    assert_eq!(at(66, 10), Command::Show(FocusArea::CommitList, CommitTab::Selection));
    assert_eq!(at(67, 10), Command::Ignore);
    assert_eq!(at(40, 13), Command::Ignore);
    assert_eq!(at(40, 14), Command::ClickRow(0));
    assert_eq!(at(99, 29), Command::ClickRow(15));
    assert_eq!(at(99, 30), Command::Ignore);
    assert_eq!(at(100, 29), Command::Ignore);
    let mut scrolled = state;
    scrolled.sidebar_scroll = 2;
    scrolled.commitlist_scroll = 7;
    let at = |c: u16, r: u16| command_for_mouse(down(c, r), &scrolled, &popup, &marks, 3, &regions);
    assert_eq!(at(2, 11), Command::SelectRepo(RepoScope::Repo(1)));
    assert_eq!(at(2, 12), Command::SelectRepo(RepoScope::Repo(2)));
    assert_eq!(at(2, 13), Command::Ignore);
    assert_eq!(at(40, 14), Command::ClickRow(7));
    let other = MouseEvent { kind: MouseKind::Other, column: 2, row: 11 };
    assert_eq!(command_for_mouse(other, &state, &popup, &marks, 3, &regions), Command::Ignore);
}

#[test]
fn handling_in_given_regions_follows_the_command() {
    let data = two_repos();
    let mut state = ViewState::new(0);
    let mut popup = PopupQuote::new();
    let mut marks = SelectedCommits::new();
    let mut regions = plan_regions(120, 40, false);
    regions.sidebar = Rect { x: 2, y: 10, width: 20, height: 8 };
    handle_mouse_in(down(3, 12), &mut state, &data, &mut popup, &mut marks, &frame(), &regions);
    assert_eq!(state.selected_repo, RepoScope::Repo(0));
}
