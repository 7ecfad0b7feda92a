//! What a mouse event asks for: the cell of the event is tested against the
//! regions of the screen and the event becomes the command that a key would
//! have given.

use vstd::prelude::*;
use crate::commits::CommitData;
use crate::input::{apply, scene_of, step, Scene};
use crate::layout::{contains_cell, list_area, plan_regions, regions_of, tabs_area, Rect, Regions};
use crate::marks::SelectedCommits;
use crate::models::{
    Action, Command, CommitTab, FocusArea, Frame, MouseEvent, MouseKind, PopupQuote, RepoScope,
    ViewState,
};
use crate::state::{consistent, shows_detail};

verus! {

/// The cells that a tab takes in the tab bar: its title of nine letters and
/// two cells of padding on either side.
pub const TAB_WIDTH: u16 = 13;

/// Whether a cell lies on the button that closes the summary overlay: three
/// cells in the top row of the overlay, two cells from its right edge.
pub open spec fn on_close_button(popup: Rect, column: u16, row: u16) -> bool {
    row == popup.y && popup.x + popup.width - 5 <= column < popup.x + popup.width - 2
}

/// The tab whose title a cell lies on, if any. The tabs stand side by side
/// from the left edge of the bar, one cell apart.
pub open spec fn tab_at(tabs: Rect, column: u16, row: u16) -> Option<CommitTab> {
    if tabs.y <= row < tabs.y + tabs.height {
        if tabs.x <= column < tabs.x + TAB_WIDTH {
            Some(CommitTab::Timeframe)
        } else if tabs.x + TAB_WIDTH + 1 <= column < tabs.x + 2 * TAB_WIDTH + 1 {
            Some(CommitTab::Selection)
        } else {
            None
        }
    } else {
        None
    }
}

/// What a click into the sidebar asks for. The last three rows hold the two
/// buttons: the one for the marked commits in the middle row, the one for
/// the summary in the last. Every other row counts as an entry of the list,
/// the first one under the top border: the entry for all repositories, then
/// the repositories. A row without an entry asks for nothing.
pub open spec fn sidebar_command(sidebar: Rect, row: u16, scroll: usize, repos: nat) -> Command {
    let buttons = sidebar.y + sidebar.height - 3;
    let line = if row > sidebar.y {
        row - sidebar.y - 1
    } else {
        0
    };
    let entry = line + scroll;
    if row == buttons + 1 {
        Command::ShowMarked
    } else if row == buttons + 2 {
        Command::Summarize
    } else if entry == 0 {
        Command::SelectRepo(RepoScope::All)
    } else if entry <= repos {
        Command::SelectRepo(RepoScope::Repo((entry - 1) as usize))
    } else {
        Command::Ignore
    }
}

/// What a click into the commit list asks for: the row under the pointer,
/// counted from the first row under the top border and past the rows that
/// are scrolled away. The border itself asks for nothing.
pub open spec fn list_command(list: Rect, row: u16, scroll: usize) -> Command {
    if row > list.y && row - list.y - 1 + scroll <= usize::MAX {
        Command::ClickRow((row - list.y - 1 + scroll) as usize)
    } else {
        Command::Ignore
    }
}

/// The command that a mouse event stands for. While the summary overlay is
/// open a click closes it where it hits the close button and does nothing
/// elsewhere, and the wheel scrolls the overlay while the pointer is on it.
/// The other overlay takes every click. Else a click goes to the sidebar,
/// the tab bar or the commit list, whichever it hits.
pub open spec fn mouse_command(
    event: MouseEvent,
    scene: Scene,
    repos: nat,
    regions: Regions,
) -> Command {
    let column = event.column;
    let row = event.row;
    match event.kind {
        MouseKind::Down => if scene.popup.visible {
            if on_close_button(regions.popup, column, row) {
                Command::Dismiss
            } else {
                Command::Ignore
            }
        } else if scene.marks.popup_visible {
            Command::Ignore
        } else if contains_cell(regions.sidebar, column, row) {
            sidebar_command(regions.sidebar, row, scene.state.sidebar_scroll, repos)
        } else {
            match tab_at(tabs_area(regions.commits), column, row) {
                Some(tab) => Command::Show(FocusArea::CommitList, tab),
                None => if contains_cell(list_area(regions.commits), column, row) {
                    list_command(list_area(regions.commits), row, scene.state.commitlist_scroll)
                } else {
                    Command::Ignore
                },
            }
        },
        MouseKind::ScrollUp => if scene.popup.visible && contains_cell(
            regions.popup,
            column,
            row,
        ) {
            Command::Up
        } else {
            Command::Ignore
        },
        MouseKind::ScrollDown => if scene.popup.visible && contains_cell(
            regions.popup,
            column,
            row,
        ) {
            Command::Down
        } else {
            Command::Ignore
        },
        MouseKind::Other => Command::Ignore,
    }
}

/// Whether a cell lies inside a rectangle.
pub fn hits(r: Rect, column: u16, row: u16) -> (inside: bool)
    ensures
        inside == contains_cell(r, column, row),
{
    let right: u32 = r.x as u32 + r.width as u32;
    let bottom: u32 = r.y as u32 + r.height as u32;
    r.x <= column && (column as u32) < right && r.y <= row && (row as u32) < bottom
}

fn hits_close_button(popup: Rect, column: u16, row: u16) -> (inside: bool)
    ensures
        inside == on_close_button(popup, column, row),
{
    let right: u32 = popup.x as u32 + popup.width as u32;
    row == popup.y && right <= column as u32 + 5 && (column as u32) + 2 < right
}

fn hit_tab(tabs: Rect, column: u16, row: u16) -> (tab: Option<CommitTab>)
    ensures
        tab == tab_at(tabs, column, row),
{
    let bottom: u32 = tabs.y as u32 + tabs.height as u32;
    let left: u32 = tabs.x as u32;
    let at: u32 = column as u32;
    let width: u32 = TAB_WIDTH as u32;
    if tabs.y <= row && (row as u32) < bottom {
        if left <= at && at < left + width {
            Some(CommitTab::Timeframe)
        } else if left + width + 1 <= at && at < left + 2 * width + 1 {
            Some(CommitTab::Selection)
        } else {
            None
        }
    } else {
        None
    }
}

fn sidebar_click(sidebar: Rect, row: u16, scroll: usize, repos: usize) -> (command: Command)
    ensures
        command == sidebar_command(sidebar, row, scroll, repos as nat),
{
    let bottom: u32 = sidebar.y as u32 + sidebar.height as u32;
    let line: usize = if row > sidebar.y {
        (row - sidebar.y - 1) as usize
    } else {
        0
    };
    if row as u32 + 2 == bottom {
        Command::ShowMarked
    } else if row as u32 + 1 == bottom {
        Command::Summarize
    } else {
        match scroll.checked_add(line) {
            Some(entry) => {
                if entry == 0 {
                    Command::SelectRepo(RepoScope::All)
                } else if entry <= repos {
                    Command::SelectRepo(RepoScope::Repo(entry - 1))
                } else {
                    Command::Ignore
                }
            },
            None => Command::Ignore,
        }
    }
}

fn list_click(list: Rect, row: u16, scroll: usize) -> (command: Command)
    ensures
        command == list_command(list, row, scroll),
{
    if row > list.y {
        match scroll.checked_add((row - list.y - 1) as usize) {
            Some(clicked) => Command::ClickRow(clicked),
            None => Command::Ignore,
        }
    } else {
        Command::Ignore
    }
}

/// The command that a mouse event stands for in the given regions.
pub fn command_for_mouse(
    event: MouseEvent,
    state: &ViewState,
    popup: &PopupQuote,
    marks: &SelectedCommits,
    repos: usize,
    regions: &Regions,
) -> (command: Command)
    ensures
        command == mouse_command(event, scene_of(*state, marks, popup), repos as nat, *regions),
{
    let column = event.column;
    let row = event.row;
    match event.kind {
        MouseKind::Down => {
            if popup.visible {
                if hits_close_button(regions.popup, column, row) {
                    Command::Dismiss
                } else {
                    Command::Ignore
                }
            } else if marks.popup_visible {
                Command::Ignore
            } else if hits(regions.sidebar, column, row) {
                sidebar_click(regions.sidebar, row, state.sidebar_scroll, repos)
            } else {
                match hit_tab(regions.tabs(), column, row) {
                    Some(tab) => Command::Show(FocusArea::CommitList, tab),
                    None => {
                        if hits(regions.list(), column, row) {
                            list_click(regions.list(), row, state.commitlist_scroll)
                        } else {
                            Command::Ignore
                        }
                    },
                }
            }
        },
        MouseKind::ScrollUp => {
            if popup.visible && hits(regions.popup, column, row) {
                Command::Up
            } else {
                Command::Ignore
            }
        },
        MouseKind::ScrollDown => {
            if popup.visible && hits(regions.popup, column, row) {
                Command::Down
            } else {
                Command::Ignore
            }
        },
        MouseKind::Other => Command::Ignore,
    }
}

/// Handles a mouse event on a screen with the given regions: carries out
/// the command that the event stands for there.
pub fn handle_mouse_in(
    event: MouseEvent,
    state: &mut ViewState,
    commits: &CommitData,
    popup: &mut PopupQuote,
    marks: &mut SelectedCommits,
    frame: &Frame,
    regions: &Regions,
) -> (action: Action)
    ensures
        ({
            let scene = scene_of(*old(state), old(marks), old(popup));
            let out = step(
                mouse_command(event, scene, commits@.len(), *regions),
                scene,
                commits@,
                *frame,
            );
            &&& *final(state) == out.scene.state
            &&& final(marks)@ == out.scene.marks
            &&& final(popup)@ == out.scene.popup
            &&& action@ == out.action
        }),
        consistent(*final(state), commits@, final(marks)@.set, *frame),
{
    let command = command_for_mouse(event, state, popup, marks, commits.repo_count(), regions);
    apply(command, state, commits, popup, marks, frame)
}

/// Handles a mouse event. The screen is laid out for the frame, with the
/// detail pane where it is open for a selected commit, and the event is
/// handled in the regions that come out. What the solver is asked is fixed
/// by `regions_of`; wherever it put the regions, the outcome is that of
/// `handle_mouse_in` for regions that come out of laying out this
/// terminal, and the state fits the data afterwards.
pub fn handle_mouse(
    event: MouseEvent,
    state: &mut ViewState,
    commits: &CommitData,
    popup: &mut PopupQuote,
    marks: &mut SelectedCommits,
    frame: &Frame,
) -> (action: Action)
    ensures
        exists|regions: Regions|
            {
                let scene = scene_of(*old(state), old(marks), old(popup));
                let out = step(
                    mouse_command(event, scene, commits@.len(), regions),
                    scene,
                    commits@,
                    *frame,
                );
                &&& #[trigger] regions_of(
                    regions,
                    frame.cols,
                    frame.rows,
                    shows_detail(*old(state)),
                )
                &&& *final(state) == out.scene.state
                &&& final(marks)@ == out.scene.marks
                &&& final(popup)@ == out.scene.popup
                &&& action@ == out.action
            },
        consistent(*final(state), commits@, final(marks)@.set, *frame),
{
    let three_columns = state.show_details && state.selected_commit.is_some();
    let regions = plan_regions(frame.cols, frame.rows, three_columns);
    let action = handle_mouse_in(event, state, commits, popup, marks, frame, &regions);
    assert(regions_of(regions, frame.cols, frame.rows, shows_detail(*old(state))));
    action
}

} // verus!
