//! The transitions of the view state. A key or a mouse event becomes a
//! command; a command changes the state, the marks and the summary overlay,
//! and says what the caller has to do. Each transition is stated as a
//! function on mathematical values, and the code is proved to compute it.

use vstd::prelude::*;
use crate::active::{
    active_count, active_places, list_rows, resolve_active, row_at, RowKind, RowModel,
};
use crate::commits::{line_at, CommitData, RepoModel};
use crate::marks::{toggled, MarksModel, SelectedCommits};
use crate::models::{
    Action, ActionModel, Command, CommitTab, FocusArea, Frame, Key, PopupModel, PopupQuote,
    RepoScope, ViewState,
};
use crate::scroll::{clamp_offset, clamped};
use crate::state::{consistent, scope_valid, settle, settled};
use crate::text::{commit_hash, count_lines, first_token, line_count};
use crate::utils::minus;

verus! {

/// Everything that an event can change, as mathematical values.
pub struct Scene {
    pub state: ViewState,
    pub marks: MarksModel,
    pub popup: PopupModel,
}

/// A scene after an event, and what the caller has to do.
pub struct Outcome {
    pub scene: Scene,
    pub action: ActionModel,
}

/// The scene that the three parts of the session make up.
pub open spec fn scene_of(state: ViewState, marks: &SelectedCommits, popup: &PopupQuote) -> Scene {
    Scene { state, marks: marks@, popup: popup@ }
}

/// Whether an overlay is open. While one is, it takes what would otherwise
/// move through the panes behind it.
pub open spec fn modal_open(scene: Scene) -> bool {
    scene.popup.visible || scene.marks.popup_visible
}

/// The command that a key stands for.
pub open spec fn key_command(key: Key) -> Command {
    match key {
        Key::Char(c) => if c == '1' {
            Command::Show(FocusArea::Sidebar, CommitTab::Timeframe)
        } else if c == '2' {
            Command::Show(FocusArea::CommitList, CommitTab::Timeframe)
        } else if c == '3' {
            Command::Show(FocusArea::CommitList, CommitTab::Selection)
        } else if c == 'w' {
            Command::ShowWeek
        } else if c == 'm' {
            Command::ToggleMark
        } else if c == ' ' {
            Command::ToggleDetails
        } else if c == 'k' {
            Command::Up
        } else if c == 'j' {
            Command::Down
        } else if c == 'h' {
            Command::Left
        } else if c == 'l' {
            Command::Right
        } else if c == 'u' {
            Command::ToggleFilter
        } else if c == 'd' {
            Command::ToggleDetailedView
        } else if c == 'q' {
            Command::Quit
        } else if c == 'a' || c == 'A' {
            Command::Summarize
        } else if c == 'c' {
            Command::Copy
        } else {
            Command::Ignore
        },
        Key::Up => Command::Up,
        Key::Down => Command::Down,
        Key::Left => Command::Left,
        Key::Right => Command::Right,
        Key::Tab => Command::NextInterval,
        Key::BackTab => Command::PreviousInterval,
        Key::Esc => Command::Dismiss,
        Key::Enter => Command::Ignore,
        Key::Other => Command::Ignore,
    }
}

/// The rows of text that the summary overlay shows in a terminal of `rows`
/// rows: the overlay takes four fifths of the height, and four of its rows
/// hold no text.
pub open spec fn popup_height(rows: u16) -> nat {
    minus((rows as nat * 4) / 5, 4)
}

/// The overlay scrolled up by a line.
pub open spec fn popup_up(popup: PopupModel, frame: Frame) -> PopupModel {
    PopupModel {
        scroll: clamped(
            minus(popup.scroll as nat, 1),
            popup_height(frame.rows),
            line_count(popup.text),
        ) as u16,
        ..popup
    }
}

/// The overlay scrolled down by a line, as long as text is left below.
pub open spec fn popup_down(popup: PopupModel, frame: Frame) -> PopupModel {
    let height = popup_height(frame.rows);
    let lines = line_count(popup.text);
    let next = if popup.scroll + height < lines && popup.scroll < u16::MAX {
        (popup.scroll + 1) as nat
    } else {
        popup.scroll as nat
    };
    PopupModel { scroll: clamped(next, height, lines) as u16, ..popup }
}

/// The scope one entry up in the sidebar. The entry for all repositories is
/// the first one, and nothing lies above it.
pub open spec fn sidebar_up(scope: RepoScope) -> RepoScope {
    match scope {
        RepoScope::All => RepoScope::All,
        RepoScope::Repo(i) => if i == 0 {
            RepoScope::All
        } else {
            RepoScope::Repo((i - 1) as usize)
        },
    }
}

/// The scope one entry down in the sidebar; the last repository stays.
pub open spec fn sidebar_down(scope: RepoScope, repos: nat) -> RepoScope {
    match scope {
        RepoScope::All => if repos > 0 {
            RepoScope::Repo(0)
        } else {
            RepoScope::All
        },
        RepoScope::Repo(i) => if i + 1 < repos {
            RepoScope::Repo((i + 1) as usize)
        } else {
            RepoScope::Repo(i)
        },
    }
}

/// The selection one commit up; the first commit stays, and with nothing
/// selected the first commit is taken.
pub open spec fn commit_up(selected: Option<usize>, count: nat) -> Option<usize> {
    match selected {
        Some(k) => if k > 0 {
            Some((k - 1) as usize)
        } else {
            Some(k)
        },
        None => if count > 0 {
            Some(0)
        } else {
            None
        },
    }
}

/// The selection one commit down; the last commit stays, and with nothing
/// selected the first commit is taken.
pub open spec fn commit_down(selected: Option<usize>, count: nat) -> Option<usize> {
    match selected {
        Some(k) => if k + 1 < count {
            Some((k + 1) as usize)
        } else {
            Some(k)
        },
        None => if count > 0 {
            Some(0)
        } else {
            None
        },
    }
}

/// The pane to the left, going round.
pub open spec fn focus_left(focus: FocusArea, show_details: bool) -> FocusArea {
    match focus {
        FocusArea::Sidebar => if show_details {
            FocusArea::Detail
        } else {
            FocusArea::CommitList
        },
        FocusArea::CommitList => FocusArea::Sidebar,
        FocusArea::Detail => FocusArea::CommitList,
    }
}

/// The pane to the right, going round.
pub open spec fn focus_right(focus: FocusArea, show_details: bool) -> FocusArea {
    match focus {
        FocusArea::Sidebar => FocusArea::CommitList,
        FocusArea::CommitList => if show_details {
            FocusArea::Detail
        } else {
            FocusArea::Sidebar
        },
        FocusArea::Detail => FocusArea::Sidebar,
    }
}

/// The time window after `index` among `count` windows, going round.
pub open spec fn next_interval(index: usize, count: usize) -> usize {
    if index + 1 < count {
        (index + 1) as usize
    } else {
        0
    }
}

/// The time window before `index` among `count` windows, going round.
pub open spec fn previous_interval(index: usize, count: usize) -> usize {
    if 0 < index < count {
        (index - 1) as usize
    } else {
        (count - 1) as usize
    }
}

/// The commits on display in a scene.
pub open spec fn places_of(scene: Scene, data: Seq<RepoModel>) -> Seq<(int, int)> {
    active_places(data, scene.state.selected_repo, scene.state.selected_tab, scene.marks.set)
}

/// The scene with the mark of the commit on display at position `k`
/// flipped.
pub open spec fn with_mark_flipped(scene: Scene, data: Seq<RepoModel>, k: int) -> Scene {
    Scene {
        marks: MarksModel {
            set: toggled(scene.marks.set, first_token(line_at(data, places_of(scene, data)[k]))),
            ..scene.marks
        },
        ..scene
    }
}

/// After `Show`: the pane is focused and the tab shown. Another tab lists
/// other commits, so the selection does not carry over to it.
pub open spec fn after_show(s: ViewState, focus: FocusArea, tab: CommitTab) -> ViewState {
    ViewState {
        focus,
        selected_tab: tab,
        selected_commit: if tab == s.selected_tab {
            s.selected_commit
        } else {
            None
        },
        commitlist_scroll: if tab == s.selected_tab {
            s.commitlist_scroll
        } else {
            0
        },
        ..s
    }
}

/// After `ToggleMark`: the mark of the selected commit is flipped. Nothing
/// changes where no commit on display is selected.
pub open spec fn after_mark(scene: Scene, data: Seq<RepoModel>) -> Scene {
    match scene.state.selected_commit {
        Some(k) => if k < places_of(scene, data).len() {
            with_mark_flipped(scene, data, k as int)
        } else {
            scene
        },
        None => scene,
    }
}

/// After `ToggleDetails`: an open detail pane closes. A closed one opens,
/// for the selected commit or else for the first commit on display.
pub open spec fn after_details(scene: Scene, data: Seq<RepoModel>) -> Scene {
    let s = scene.state;
    if s.show_details {
        Scene { state: ViewState { show_details: false, ..s }, ..scene }
    } else {
        Scene {
            state: ViewState {
                show_details: true,
                selected_commit: if s.selected_commit is None && places_of(scene, data).len()
                    > 0 {
                    Some(0)
                } else {
                    s.selected_commit
                },
                ..s
            },
            ..scene
        }
    }
}

/// After `Up`. The summary overlay scrolls where it is open, and the other
/// overlay takes the key. Else the focused pane moves: the sidebar to the
/// entry above, which drops the selection, the commit list to the commit
/// above, the detail pane up by a line.
pub open spec fn after_up(scene: Scene, data: Seq<RepoModel>, frame: Frame) -> Scene {
    let s = scene.state;
    if scene.popup.visible {
        Scene { popup: popup_up(scene.popup, frame), ..scene }
    } else if scene.marks.popup_visible {
        scene
    } else {
        match s.focus {
            FocusArea::Sidebar => Scene {
                state: ViewState {
                    selected_repo: sidebar_up(s.selected_repo),
                    selected_commit: None,
                    ..s
                },
                ..scene
            },
            FocusArea::CommitList => Scene {
                state: ViewState {
                    selected_commit: commit_up(s.selected_commit, places_of(scene, data).len()),
                    ..s
                },
                ..scene
            },
            FocusArea::Detail => Scene {
                state: ViewState { detail_scroll: minus(s.detail_scroll as nat, 1) as u16, ..s },
                ..scene
            },
        }
    }
}

/// After `Down`: as `after_up`, downwards.
pub open spec fn after_down(scene: Scene, data: Seq<RepoModel>, frame: Frame) -> Scene {
    let s = scene.state;
    if scene.popup.visible {
        Scene { popup: popup_down(scene.popup, frame), ..scene }
    } else if scene.marks.popup_visible {
        scene
    } else {
        match s.focus {
            FocusArea::Sidebar => Scene {
                state: ViewState {
                    selected_repo: sidebar_down(s.selected_repo, data.len()),
                    selected_commit: None,
                    ..s
                },
                ..scene
            },
            FocusArea::CommitList => Scene {
                state: ViewState {
                    selected_commit: commit_down(s.selected_commit, places_of(scene, data).len()),
                    ..s
                },
                ..scene
            },
            FocusArea::Detail => Scene {
                state: ViewState {
                    detail_scroll: if s.detail_scroll < u16::MAX {
                        (s.detail_scroll + 1) as u16
                    } else {
                        s.detail_scroll
                    },
                    ..s
                },
                ..scene
            },
        }
    }
}

/// After `Left` or `Right`: the focus moves to the pane on that side, unless
/// an overlay takes the key.
pub open spec fn after_sideways(scene: Scene, right: bool) -> Scene {
    let s = scene.state;
    if modal_open(scene) {
        scene
    } else {
        Scene {
            state: ViewState {
                focus: if right {
                    focus_right(s.focus, s.show_details)
                } else {
                    focus_left(s.focus, s.show_details)
                },
                ..s
            },
            ..scene
        }
    }
}

/// After `Dismiss`: both overlays are closed, and the summary starts from
/// its top when it is opened again.
pub open spec fn after_dismiss(scene: Scene) -> Scene {
    Scene {
        popup: PopupModel { visible: false, scroll: 0, ..scene.popup },
        marks: MarksModel { popup_visible: false, ..scene.marks },
        ..scene
    }
}

/// After `SelectRepo`: the scope is set and the selection dropped; a
/// repository of its own is shown on the time-frame tab. An overlay takes
/// the click.
pub open spec fn after_select_repo(scene: Scene, scope: RepoScope) -> Scene {
    let s = scene.state;
    if modal_open(scene) {
        scene
    } else {
        Scene {
            state: ViewState {
                selected_repo: scope,
                selected_commit: None,
                selected_tab: if scope is Repo {
                    CommitTab::Timeframe
                } else {
                    s.selected_tab
                },
                ..s
            },
            ..scene
        }
    }
}

/// After `ClickRow`: the commit list is focused; where the row holds a
/// commit, that commit is selected and its mark flipped. An overlay takes
/// the click.
pub open spec fn after_click(scene: Scene, data: Seq<RepoModel>, row: usize) -> Scene {
    let s = scene.state;
    let rows = list_rows(data, s.selected_repo, s.selected_tab, scene.marks.set);
    if modal_open(scene) {
        scene
    } else {
        let focused = Scene { state: ViewState { focus: FocusArea::CommitList, ..s }, ..scene };
        if row < rows.len() {
            match rows[row as int] {
                RowModel::Commit(k) => if 0 <= k < places_of(scene, data).len() {
                    with_mark_flipped(
                        Scene {
                            state: ViewState { selected_commit: Some(k as usize), ..focused.state },
                            ..focused
                        },
                        data,
                        k,
                    )
                } else {
                    focused
                },
                RowModel::Header(_) => focused,
            }
        } else {
            focused
        }
    }
}

/// After `ShowMarked`: the overlay of the marked commits opens and the
/// sidebar is focused. An overlay that is open takes the click.
pub open spec fn after_show_marked(scene: Scene) -> Scene {
    if modal_open(scene) {
        scene
    } else {
        Scene {
            state: ViewState { focus: FocusArea::Sidebar, ..scene.state },
            marks: MarksModel { popup_visible: true, ..scene.marks },
            ..scene
        }
    }
}

/// What a command makes of a scene before the state is made to fit the data
/// again, and what it asks of the caller.
pub open spec fn advance(command: Command, scene: Scene, data: Seq<RepoModel>, frame: Frame) -> Outcome {
    let s = scene.state;
    match command {
        Command::Ignore => Outcome { scene, action: ActionModel::Continue },
        Command::Quit => Outcome { scene, action: ActionModel::Quit },
        Command::Show(focus, tab) => Outcome {
            scene: Scene { state: after_show(s, focus, tab), ..scene },
            action: ActionModel::Continue,
        },
        Command::ShowWeek => if 3 < frame.interval_count {
            Outcome {
                scene: Scene { state: ViewState { current_interval_index: 3, ..s }, ..scene },
                action: ActionModel::Reload,
            }
        } else {
            Outcome { scene, action: ActionModel::Continue }
        },
        Command::NextInterval => if frame.interval_count > 0 {
            Outcome {
                scene: Scene {
                    state: ViewState {
                        current_interval_index: next_interval(
                            s.current_interval_index,
                            frame.interval_count,
                        ),
                        ..s
                    },
                    ..scene
                },
                action: ActionModel::Reload,
            }
        } else {
            Outcome { scene, action: ActionModel::Continue }
        },
        Command::PreviousInterval => if frame.interval_count > 0 {
            Outcome {
                scene: Scene {
                    state: ViewState {
                        current_interval_index: previous_interval(
                            s.current_interval_index,
                            frame.interval_count,
                        ),
                        ..s
                    },
                    ..scene
                },
                action: ActionModel::Reload,
            }
        } else {
            Outcome { scene, action: ActionModel::Continue }
        },
        Command::ToggleMark => Outcome {
            scene: after_mark(scene, data),
            action: ActionModel::Continue,
        },
        Command::ToggleDetails => Outcome {
            scene: after_details(scene, data),
            action: ActionModel::Continue,
        },
        Command::Up => Outcome { scene: after_up(scene, data, frame), action: ActionModel::Continue },
        Command::Down => Outcome {
            scene: after_down(scene, data, frame),
            action: ActionModel::Continue,
        },
        Command::Left => Outcome {
            scene: after_sideways(scene, false),
            action: ActionModel::Continue,
        },
        Command::Right => Outcome {
            scene: after_sideways(scene, true),
            action: ActionModel::Continue,
        },
        Command::ToggleFilter => Outcome {
            scene: Scene { state: ViewState { filter_by_user: !s.filter_by_user, ..s }, ..scene },
            action: ActionModel::Reload,
        },
        Command::ToggleDetailedView => Outcome {
            scene: Scene {
                state: ViewState { detailed_commit_view: !s.detailed_commit_view, ..s },
                ..scene
            },
            action: ActionModel::Reload,
        },
        Command::Summarize => Outcome { scene, action: ActionModel::PrepareSummary },
        Command::Copy => Outcome {
            scene,
            action: if scene.popup.visible && !scene.popup.loading {
                ActionModel::Copy(scene.popup.text)
            } else {
                ActionModel::Continue
            },
        },
        Command::Dismiss => Outcome { scene: after_dismiss(scene), action: ActionModel::Continue },
        Command::SelectRepo(scope) => Outcome {
            scene: after_select_repo(scene, scope),
            action: ActionModel::Continue,
        },
        Command::ClickRow(row) => Outcome {
            scene: after_click(scene, data, row),
            action: ActionModel::Continue,
        },
        Command::ShowMarked => Outcome {
            scene: after_show_marked(scene),
            action: ActionModel::Continue,
        },
    }
}

/// What a command makes of a scene: what `advance` says, with the state made
/// to fit the data and the marks as they then are.
pub open spec fn step(command: Command, scene: Scene, data: Seq<RepoModel>, frame: Frame) -> Outcome {
    let raw = advance(command, scene, data, frame);
    Outcome {
        scene: Scene {
            state: settled(scene.state, raw.scene.state, data, raw.scene.marks.set, frame),
            ..raw.scene
        },
        action: raw.action,
    }
}

/// The command that a key stands for.
pub fn command_for_key(key: Key) -> (command: Command)
    ensures
        command == key_command(key),
{
    match key {
        Key::Char(c) => {
            if c == '1' {
                Command::Show(FocusArea::Sidebar, CommitTab::Timeframe)
            } else if c == '2' {
                Command::Show(FocusArea::CommitList, CommitTab::Timeframe)
            } else if c == '3' {
                Command::Show(FocusArea::CommitList, CommitTab::Selection)
            } else if c == 'w' {
                Command::ShowWeek
            } else if c == 'm' {
                Command::ToggleMark
            } else if c == ' ' {
                Command::ToggleDetails
            } else if c == 'k' {
                Command::Up
            } else if c == 'j' {
                Command::Down
            } else if c == 'h' {
                Command::Left
            } else if c == 'l' {
                Command::Right
            } else if c == 'u' {
                Command::ToggleFilter
            } else if c == 'd' {
                Command::ToggleDetailedView
            } else if c == 'q' {
                Command::Quit
            } else if c == 'a' || c == 'A' {
                Command::Summarize
            } else if c == 'c' {
                Command::Copy
            } else {
                Command::Ignore
            }
        },
        Key::Up => Command::Up,
        Key::Down => Command::Down,
        Key::Left => Command::Left,
        Key::Right => Command::Right,
        Key::Tab => Command::NextInterval,
        Key::BackTab => Command::PreviousInterval,
        Key::Esc => Command::Dismiss,
        Key::Enter => Command::Ignore,
        Key::Other => Command::Ignore,
    }
}

/// The rows of text that the summary overlay shows in a terminal of `rows`
/// rows.
pub fn popup_rows(rows: u16) -> (height: usize)
    ensures
        height == popup_height(rows),
{
    let scaled: u32 = (rows as u32) * 4 / 5;
    if scaled > 4 {
        (scaled - 4) as usize
    } else {
        0
    }
}

/// Scrolls the summary overlay by a line, up or down.
pub fn scroll_popup(popup: &mut PopupQuote, frame: &Frame, down: bool)
    ensures
        final(popup)@ == if down {
            popup_down(old(popup)@, *frame)
        } else {
            popup_up(old(popup)@, *frame)
        },
{
    let height = popup_rows(frame.rows);
    let lines = count_lines(popup.text.as_str());
    let scroll: usize = popup.scroll as usize;
    let next: usize = if down {
        if popup.scroll < u16::MAX && lines >= height && scroll < lines - height {
            scroll + 1
        } else {
            scroll
        }
    } else if scroll > 0 {
        scroll - 1
    } else {
        0
    };
    let clamped = clamp_offset(next, height, lines);
    popup.scroll = clamped as u16;
}

/// Flips the mark of the commit on display at position `k`.
fn flip_mark_at(
    state: &ViewState,
    data: &CommitData,
    marks: &mut SelectedCommits,
    popup: &PopupQuote,
    k: usize,
)
    requires
        k < places_of(scene_of(*state, old(marks), popup), data@).len(),
    ensures
        scene_of(*state, final(marks), popup) == with_mark_flipped(
            scene_of(*state, old(marks), popup),
            data@,
            k as int,
        ),
{
    match resolve_active(data, marks, state.selected_repo, state.selected_tab, k) {
        Some(loc) => {
            match data.line(loc) {
                Some(line) => {
                    let hash = commit_hash(line.as_str());
                    marks.toggle(hash);
                },
                None => {},
            }
        },
        None => {},
    }
}

fn do_show(state: &mut ViewState, focus: FocusArea, tab: CommitTab)
    ensures
        *final(state) == after_show(*old(state), focus, tab),
{
    let same = state.selected_tab == tab;
    state.focus = focus;
    state.selected_tab = tab;
    if !same {
        state.selected_commit = None;
        state.commitlist_scroll = 0;
    }
}

fn do_mark(state: &ViewState, data: &CommitData, marks: &mut SelectedCommits, popup: &PopupQuote)
    ensures
        scene_of(*state, final(marks), popup) == after_mark(
            scene_of(*state, old(marks), popup),
            data@,
        ),
{
    match state.selected_commit {
        Some(k) => {
            if k < active_count(data, marks, state.selected_repo, state.selected_tab) {
                flip_mark_at(state, data, marks, popup, k);
            }
        },
        None => {},
    }
}

fn do_details(state: &mut ViewState, data: &CommitData, marks: &SelectedCommits, popup: &PopupQuote)
    ensures
        scene_of(*final(state), marks, popup) == after_details(
            scene_of(*old(state), marks, popup),
            data@,
        ),
{
    if state.show_details {
        state.show_details = false;
    } else {
        if state.selected_commit.is_none() && active_count(
            data,
            marks,
            state.selected_repo,
            state.selected_tab,
        ) > 0 {
            state.selected_commit = Some(0);
        }
        state.show_details = true;
    }
}

fn do_vertical(
    state: &mut ViewState,
    data: &CommitData,
    marks: &SelectedCommits,
    popup: &mut PopupQuote,
    frame: &Frame,
    down: bool,
)
    ensures
        scene_of(*final(state), marks, final(popup)) == if down {
            after_down(scene_of(*old(state), marks, old(popup)), data@, *frame)
        } else {
            after_up(scene_of(*old(state), marks, old(popup)), data@, *frame)
        },
{
    if popup.visible {
        scroll_popup(popup, frame, down);
    } else if marks.popup_visible {
    } else {
        match state.focus {
            FocusArea::Sidebar => {
                let repos = data.repo_count();
                state.selected_repo = match state.selected_repo {
                    RepoScope::All => if down && repos > 0 {
                        RepoScope::Repo(0)
                    } else {
                        RepoScope::All
                    },
                    RepoScope::Repo(i) => if down {
                        if i < repos && i + 1 < repos {
                            RepoScope::Repo(i + 1)
                        } else {
                            RepoScope::Repo(i)
                        }
                    } else if i == 0 {
                        RepoScope::All
                    } else {
                        RepoScope::Repo(i - 1)
                    },
                };
                state.selected_commit = None;
            },
            FocusArea::CommitList => {
                let count = active_count(data, marks, state.selected_repo, state.selected_tab);
                state.selected_commit = match state.selected_commit {
                    Some(k) => if down {
                        if k < count && k + 1 < count {
                            Some(k + 1)
                        } else {
                            Some(k)
                        }
                    } else if k > 0 {
                        Some(k - 1)
                    } else {
                        Some(k)
                    },
                    None => if count > 0 {
                        Some(0)
                    } else {
                        None
                    },
                };
            },
            FocusArea::Detail => {
                if down {
                    if state.detail_scroll < u16::MAX {
                        state.detail_scroll = state.detail_scroll + 1;
                    }
                } else if state.detail_scroll > 0 {
                    state.detail_scroll = state.detail_scroll - 1;
                }
            },
        }
    }
}

fn do_sideways(state: &mut ViewState, marks: &SelectedCommits, popup: &PopupQuote, right: bool)
    ensures
        scene_of(*final(state), marks, popup) == after_sideways(
            scene_of(*old(state), marks, popup),
            right,
        ),
{
    if popup.visible || marks.popup_visible {
        return ;
    }
    state.focus = match state.focus {
        FocusArea::Sidebar => if right || !state.show_details {
            FocusArea::CommitList
        } else {
            FocusArea::Detail
        },
        FocusArea::CommitList => if right {
            if state.show_details {
                FocusArea::Detail
            } else {
                FocusArea::Sidebar
            }
        } else {
            FocusArea::Sidebar
        },
        FocusArea::Detail => if right {
            FocusArea::Sidebar
        } else {
            FocusArea::CommitList
        },
    };
}

fn do_select_repo(
    state: &mut ViewState,
    marks: &SelectedCommits,
    popup: &PopupQuote,
    scope: RepoScope,
)
    ensures
        scene_of(*final(state), marks, popup) == after_select_repo(
            scene_of(*old(state), marks, popup),
            scope,
        ),
{
    if popup.visible || marks.popup_visible {
        return ;
    }
    state.selected_repo = scope;
    state.selected_commit = None;
    match scope {
        RepoScope::Repo(_) => {
            state.selected_tab = CommitTab::Timeframe;
        },
        RepoScope::All => {},
    }
}

fn do_click(
    state: &mut ViewState,
    data: &CommitData,
    marks: &mut SelectedCommits,
    popup: &PopupQuote,
    row: usize,
)
    ensures
        scene_of(*final(state), final(marks), popup) == after_click(
            scene_of(*old(state), old(marks), popup),
            data@,
            row,
        ),
{
    if popup.visible || marks.popup_visible {
        return ;
    }
    state.focus = FocusArea::CommitList;
    match row_at(data, marks, state.selected_repo, state.selected_tab, row) {
        Some(RowKind::Commit(k)) => {
            if k < active_count(data, marks, state.selected_repo, state.selected_tab) {
                state.selected_commit = Some(k);
                flip_mark_at(state, data, marks, popup, k);
            }
        },
        _ => {},
    }
}

/// Carries out a command: changes the state, the marks and the summary
/// overlay as `step` says, and returns what the caller has to do. The state
/// fits the data afterwards, whatever it was before.
pub fn apply(
    command: Command,
    state: &mut ViewState,
    commits: &CommitData,
    popup: &mut PopupQuote,
    marks: &mut SelectedCommits,
    frame: &Frame,
) -> (action: Action)
    ensures
        ({
            let out = step(
                command,
                scene_of(*old(state), old(marks), old(popup)),
                commits@,
                *frame,
            );
            &&& *final(state) == out.scene.state
            &&& final(marks)@ == out.scene.marks
            &&& final(popup)@ == out.scene.popup
            &&& action@ == out.action
        }),
        consistent(*final(state), commits@, final(marks)@.set, *frame),
{
    let before = *state;
    let action = match command {
        Command::Ignore => Action::Continue,
        Command::Quit => Action::Quit,
        Command::Show(focus, tab) => {
            do_show(state, focus, tab);
            Action::Continue
        },
        Command::ShowWeek => {
            if 3 < frame.interval_count {
                state.current_interval_index = 3;
                Action::Reload
            } else {
                Action::Continue
            }
        },
        Command::NextInterval => {
            if frame.interval_count > 0 {
                let index = state.current_interval_index;
                state.current_interval_index = if index < frame.interval_count - 1 {
                    index + 1
                } else {
                    0
                };
                Action::Reload
            } else {
                Action::Continue
            }
        },
        Command::PreviousInterval => {
            if frame.interval_count > 0 {
                let index = state.current_interval_index;
                state.current_interval_index = if 0 < index && index < frame.interval_count {
                    index - 1
                } else {
                    frame.interval_count - 1
                };
                Action::Reload
            } else {
                Action::Continue
            }
        },
        Command::ToggleMark => {
            do_mark(state, commits, marks, popup);
            Action::Continue
        },
        Command::ToggleDetails => {
            do_details(state, commits, marks, popup);
            Action::Continue
        },
        Command::Up => {
            do_vertical(state, commits, marks, popup, frame, false);
            Action::Continue
        },
        Command::Down => {
            do_vertical(state, commits, marks, popup, frame, true);
            Action::Continue
        },
        Command::Left => {
            do_sideways(state, marks, popup, false);
            Action::Continue
        },
        Command::Right => {
            do_sideways(state, marks, popup, true);
            Action::Continue
        },
        Command::ToggleFilter => {
            state.filter_by_user = !state.filter_by_user;
            Action::Reload
        },
        Command::ToggleDetailedView => {
            state.detailed_commit_view = !state.detailed_commit_view;
            Action::Reload
        },
        Command::Summarize => Action::PrepareSummary,
        Command::Copy => {
            if popup.visible && !popup.loading {
                Action::Copy(popup.text.clone())
            } else {
                Action::Continue
            }
        },
        Command::Dismiss => {
            popup.visible = false;
            popup.scroll = 0;
            marks.popup_visible = false;
            Action::Continue
        },
        Command::SelectRepo(scope) => {
            do_select_repo(state, marks, popup, scope);
            Action::Continue
        },
        Command::ClickRow(row) => {
            do_click(state, commits, marks, popup, row);
            Action::Continue
        },
        Command::ShowMarked => {
            if !(popup.visible || marks.popup_visible) {
                state.focus = FocusArea::Sidebar;
                marks.popup_visible = true;
            }
            Action::Continue
        },
    };
    settle(&before, state, commits, marks, frame);
    action
}

/// Handles a key: carries out the command that the key stands for.
pub fn handle_key(
    key: Key,
    state: &mut ViewState,
    commits: &CommitData,
    popup: &mut PopupQuote,
    marks: &mut SelectedCommits,
    frame: &Frame,
) -> (action: Action)
    ensures
        ({
            let out = step(
                key_command(key),
                scene_of(*old(state), old(marks), old(popup)),
                commits@,
                *frame,
            );
            &&& *final(state) == out.scene.state
            &&& final(marks)@ == out.scene.marks
            &&& final(popup)@ == out.scene.popup
            &&& action@ == out.action
        }),
        consistent(*final(state), commits@, final(marks)@.set, *frame),
{
    apply(command_for_key(key), state, commits, popup, marks, frame)
}

/// The state after the commits were loaded again: nothing selected, the
/// lists and the detail pane at their top, and the scope kept only where
/// its repository is still there.
pub open spec fn reloaded(
    s: ViewState,
    data: Seq<RepoModel>,
    marks: Set<Seq<char>>,
    frame: Frame,
) -> ViewState {
    settled(
        s,
        ViewState { selected_commit: None, commitlist_scroll: 0, detail_scroll: 0, ..s },
        data,
        marks,
        frame,
    )
}

/// Takes in the commits that were loaded after a `Reload`. The selection is
/// dropped. A scope whose repository is no longer among the loaded ones
/// becomes the scope of all repositories. The marks are not touched.
pub fn finish_reload(
    state: &mut ViewState,
    commits: &CommitData,
    marks: &SelectedCommits,
    frame: &Frame,
)
    ensures
        *final(state) == reloaded(*old(state), commits@, marks@.set, *frame),
        consistent(*final(state), commits@, marks@.set, *frame),
        final(state).selected_commit is None,
        final(state).selected_repo == if scope_valid(old(state).selected_repo, commits@) {
            old(state).selected_repo
        } else {
            RepoScope::All
        },
{
    let before = *state;
    state.selected_commit = None;
    state.commitlist_scroll = 0;
    state.detail_scroll = 0;
    settle(&before, state, commits, marks, frame);
}

} // verus!
