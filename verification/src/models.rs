//! The plain data that the dashboard's state is made of.

use vstd::prelude::*;

verus! {

/// Which pane receives directional input.
#[derive(Clone, Copy, PartialEq, Eq, Debug, Structural)]
pub enum FocusArea {
    Sidebar,
    CommitList,
    Detail,
}

/// Which logical view the commit pane shows.
#[derive(Clone, Copy, PartialEq, Eq, Debug, Structural)]
pub enum CommitTab {
    Timeframe,
    Selection,
    Stats,
}

impl CommitTab {
    /// The position of the tab in the tab bar.
    pub open spec fn index(self) -> nat {
        match self {
            CommitTab::Timeframe => 0,
            CommitTab::Selection => 1,
            CommitTab::Stats => 2,
        }
    }

    /// The tab found at a position of the tab bar; every position past the
    /// last tab falls back to the time-frame tab.
    pub open spec fn at(idx: nat) -> CommitTab {
        if idx == 1 {
            CommitTab::Selection
        } else if idx == 2 {
            CommitTab::Stats
        } else {
            CommitTab::Timeframe
        }
    }

    /// The position of the tab in the tab bar.
    pub fn as_index(self) -> (idx: usize)
        ensures
            idx == self.index(),
    {
        match self {
            CommitTab::Timeframe => 0,
            CommitTab::Selection => 1,
            CommitTab::Stats => 2,
        }
    }

    /// The tab at a position of the tab bar.
    pub fn from_index(idx: usize) -> (tab: CommitTab)
        ensures
            tab == CommitTab::at(idx as nat),
    {
        match idx {
            1 => CommitTab::Selection,
            2 => CommitTab::Stats,
            _ => CommitTab::Timeframe,
        }
    }
}

/// Whose commits are on display: those of every repository, or those of the
/// repository at one position of the loaded data.
#[derive(Clone, Copy, PartialEq, Eq, Debug, Structural)]
pub enum RepoScope {
    All,
    Repo(usize),
}

/// The modal overlay that shows the summary.
#[derive(Debug)]
pub struct PopupQuote {
    pub visible: bool,
    pub text: String,
    pub loading: bool,
    /// How many lines of the text are scrolled past.
    pub scroll: u16,
    /// The frame of the loading animation.
    pub spinner_frame: u8,
}

/// What `PopupQuote` holds, as mathematical values.
pub struct PopupModel {
    pub visible: bool,
    pub text: Seq<char>,
    pub loading: bool,
    pub scroll: u16,
    pub spinner_frame: u8,
}

impl View for PopupQuote {
    type V = PopupModel;

    open spec fn view(&self) -> PopupModel {
        PopupModel {
            visible: self.visible,
            text: self.text@,
            loading: self.loading,
            scroll: self.scroll,
            spinner_frame: self.spinner_frame,
        }
    }
}

/// The size of the terminal and of the text in the detail pane while one
/// event is handled.
#[derive(Clone, Copy, PartialEq, Eq, Debug)]
pub struct Frame {
    pub cols: u16,
    pub rows: u16,
    /// The number of lines of the detail text of the selected commit.
    pub detail_lines: usize,
    /// The number of time windows that can be cycled through.
    pub interval_count: usize,
}

/// Everything that is focused, selected, scrolled and toggled.
#[derive(Clone, Copy, PartialEq, Eq, Debug)]
pub struct ViewState {
    pub focus: FocusArea,
    pub selected_tab: CommitTab,
    pub selected_repo: RepoScope,
    /// A position among the commits on display, if one is selected.
    pub selected_commit: Option<usize>,
    pub show_details: bool,
    pub filter_by_user: bool,
    pub detailed_commit_view: bool,
    pub sidebar_scroll: usize,
    pub commitlist_scroll: usize,
    pub detail_scroll: u16,
    pub current_interval_index: usize,
}

impl ViewState {
    /// The state at startup: the sidebar focused, every repository in scope,
    /// nothing selected, only the user's own commits, the time-frame tab.
    pub fn new(current_interval_index: usize) -> (state: ViewState)
        ensures
            state == (ViewState {
                focus: FocusArea::Sidebar,
                selected_tab: CommitTab::Timeframe,
                selected_repo: RepoScope::All,
                selected_commit: None,
                show_details: false,
                filter_by_user: true,
                detailed_commit_view: false,
                sidebar_scroll: 0,
                commitlist_scroll: 0,
                detail_scroll: 0,
                current_interval_index,
            }),
    {
        ViewState {
            focus: FocusArea::Sidebar,
            selected_tab: CommitTab::Timeframe,
            selected_repo: RepoScope::All,
            selected_commit: None,
            show_details: false,
            filter_by_user: true,
            detailed_commit_view: false,
            sidebar_scroll: 0,
            commitlist_scroll: 0,
            detail_scroll: 0,
            current_interval_index,
        }
    }
}

impl PopupQuote {
    /// The overlay at startup: hidden and empty.
    pub fn new() -> (popup: PopupQuote)
        ensures
            popup@ == (PopupModel {
                visible: false,
                text: Seq::<char>::empty(),
                loading: false,
                scroll: 0,
                spinner_frame: 0,
            }),
    {
        PopupQuote { visible: false, text: String::new(), loading: false, scroll: 0, spinner_frame: 0 }
    }
}

/// A key of the keyboard.
#[derive(Clone, Copy, PartialEq, Eq, Debug)]
pub enum Key {
    Char(char),
    Up,
    Down,
    Left,
    Right,
    Tab,
    BackTab,
    Esc,
    Enter,
    Other,
}

/// What the mouse did.
#[derive(Clone, Copy, PartialEq, Eq, Debug)]
pub enum MouseKind {
    Down,
    ScrollUp,
    ScrollDown,
    Other,
}

/// A mouse event: what happened, and the cell of the terminal it happened
/// on.
#[derive(Clone, Copy, PartialEq, Eq, Debug)]
pub struct MouseEvent {
    pub kind: MouseKind,
    pub column: u16,
    pub row: u16,
}

/// What an event asks for. Keys and mouse events are both turned into
/// commands, so that a click does what the key for it does.
#[derive(Clone, Copy, PartialEq, Eq, Debug)]
pub enum Command {
    /// Nothing.
    Ignore,
    Quit,
    /// Focus a pane and show a tab in the commit pane.
    Show(FocusArea, CommitTab),
    /// Switch to the time window of one week.
    ShowWeek,
    NextInterval,
    PreviousInterval,
    /// Flip the mark of the selected commit.
    ToggleMark,
    /// Open or close the detail pane.
    ToggleDetails,
    Up,
    Down,
    Left,
    Right,
    /// Flip the restriction to the user's own commits.
    ToggleFilter,
    /// Flip between commit lines with and without their body.
    ToggleDetailedView,
    /// Ask for a summary of the commits on display.
    Summarize,
    /// Copy the text of the summary overlay.
    Copy,
    /// Close every overlay.
    Dismiss,
    /// Put a repository, or all of them, in scope.
    SelectRepo(RepoScope),
    /// Select, and mark or unmark, the commit on a row of the commit list.
    ClickRow(usize),
    /// Open the overlay that lists the marked commits.
    ShowMarked,
}

/// What the caller has to do after an event was handled.
#[derive(Debug)]
pub enum Action {
    /// Nothing: go on with the next event.
    Continue,
    /// End the session.
    Quit,
    /// Load the commits again, for the time window and the filters that the
    /// state now holds, and hand them to `finish_reload`.
    Reload,
    /// Gather what a summary request needs and hand it to `request_summary`.
    PrepareSummary,
    /// Put this text on the clipboard; a failure is not reported.
    Copy(String),
}

/// What `Action` holds, as mathematical values.
pub enum ActionModel {
    Continue,
    Quit,
    Reload,
    PrepareSummary,
    Copy(Seq<char>),
}

impl View for Action {
    type V = ActionModel;

    open spec fn view(&self) -> ActionModel {
        match self {
            Action::Continue => ActionModel::Continue,
            Action::Quit => ActionModel::Quit,
            Action::Reload => ActionModel::Reload,
            Action::PrepareSummary => ActionModel::PrepareSummary,
            Action::Copy(text) => ActionModel::Copy(text@),
        }
    }
}

} // verus!
