//! What holds of the transitions, whatever the events and the data.

use vstd::prelude::*;
use crate::active::{
    active_places, lemma_active_places, lemma_list_rows, row_count, row_of, shows_headers,
};
use crate::commits::{
    flatten, lemma_flatten_index, lemma_flatten_len, line_at, total_commits, RepoModel,
};
use crate::input::{
    advance, after_click, key_command, modal_open, places_of, reloaded, step, Scene,
};
use crate::layout::{contains_cell, Regions};
use crate::marks::toggled;
use crate::models::{
    ActionModel, Command, CommitTab, Frame, Key, MouseEvent, MouseKind, PopupModel, RepoScope,
    ViewState,
};
use crate::mouse::mouse_command;
use crate::prompts::{missing_key_text, requested, InputsModel};
use crate::state::sidebar_row;
use crate::ui::{planned_detail, DetailModel};
use crate::text::{
    first_token, has_part, line_count, line_end, lines_from, lines_of, newline_count, replaced,
    word_end, word_start, words_from,
};
use crate::scroll::max_offset;
use crate::state::{consistent, detail_max, lemma_settled_consistent, scope_valid};
use crate::utils::{commitlist_height, sidebar_height};

verus! {

/// Whether the data is such as can be loaded: its commits and repositories
/// together number less than `usize::MAX`.
pub open spec fn loadable(data: Seq<RepoModel>) -> bool {
    total_commits(data) + data.len() < usize::MAX
}

/// The scene after a sequence of commands, carried out one after another.
pub open spec fn run(commands: Seq<Command>, scene: Scene, data: Seq<RepoModel>, frame: Frame) -> Scene
    decreases commands.len(),
{
    if commands.len() == 0 {
        scene
    } else {
        step(commands.last(), run(commands.drop_last(), scene, data, frame), data, frame).scene
    }
}

/// After any command the state fits the data: in particular the selection
/// is either empty or names a commit on display.
pub proof fn lemma_step_consistent(
    command: Command,
    scene: Scene,
    data: Seq<RepoModel>,
    frame: Frame,
)
    requires
        loadable(data),
    ensures
        consistent(
            step(command, scene, data, frame).scene.state,
            data,
            step(command, scene, data, frame).scene.marks.set,
            frame,
        ),
{
    let raw = advance(command, scene, data, frame);
    lemma_settled_consistent(scene.state, raw.scene.state, data, raw.scene.marks.set, frame);
}

/// After any sequence of at least one command, from any scene whatever, the
/// selection is empty or names a commit on display.
pub proof fn lemma_selection_always_valid(
    commands: Seq<Command>,
    scene: Scene,
    data: Seq<RepoModel>,
    frame: Frame,
)
    requires
        loadable(data),
        commands.len() > 0,
    ensures
        ({
            let end = run(commands, scene, data, frame);
            end.state.selected_commit matches Some(k) ==> k < places_of(end, data).len()
        }),
{
    lemma_step_consistent(
        commands.last(),
        run(commands.drop_last(), scene, data, frame),
        data,
        frame,
    );
}

/// After any sequence of at least one command each of the three offsets is
/// at most the number of its items less the height of its window, and at
/// least 0.
pub proof fn lemma_scroll_always_bounded(
    commands: Seq<Command>,
    scene: Scene,
    data: Seq<RepoModel>,
    frame: Frame,
)
    requires
        loadable(data),
        commands.len() > 0,
    ensures
        ({
            let end = run(commands, scene, data, frame);
            let s = end.state;
            &&& 0 <= s.sidebar_scroll <= max_offset(data.len() + 1, sidebar_height(frame.rows))
            &&& 0 <= s.commitlist_scroll <= max_offset(
                row_count(data, s.selected_repo, s.selected_tab, end.marks.set),
                commitlist_height(frame.rows),
            )
            &&& 0 <= s.detail_scroll <= detail_max(frame)
        }),
{
    lemma_step_consistent(
        commands.last(),
        run(commands.drop_last(), scene, data, frame),
        data,
        frame,
    );
}

/// After a reload, a scope whose repository is no longer there has become
/// the scope of all repositories, and nothing is selected.
pub proof fn lemma_reload_resets_scope(
    s: ViewState,
    data: Seq<RepoModel>,
    marks: Set<Seq<char>>,
    frame: Frame,
)
    ensures
        reloaded(s, data, marks, frame).selected_commit is None,
        !scope_valid(s.selected_repo, data) ==> reloaded(s, data, marks, frame).selected_repo
            == RepoScope::All,
        scope_valid(s.selected_repo, data) ==> reloaded(s, data, marks, frame).selected_repo
            == s.selected_repo,
{
}

/// Whether a command flips a mark.
pub open spec fn marks_commit(command: Command) -> bool {
    command is ToggleMark || command is ClickRow
}

/// No command but the two that mark a commit changes the marks; whether the
/// marked commits are among the loaded ones plays no part.
pub proof fn lemma_marks_kept(command: Command, scene: Scene, data: Seq<RepoModel>, frame: Frame)
    requires
        !marks_commit(command),
    ensures
        step(command, scene, data, frame).scene.marks.set == scene.marks.set,
{
}

/// A command that marks a commit changes the mark of at most that one hash.
pub proof fn lemma_mark_flips_one(
    command: Command,
    scene: Scene,
    data: Seq<RepoModel>,
    frame: Frame,
)
    ensures
        step(command, scene, data, frame).scene.marks.set == scene.marks.set || exists|
            hash: Seq<char>,
        |
            step(command, scene, data, frame).scene.marks.set == toggled(scene.marks.set, hash),
{
    let out = step(command, scene, data, frame).scene.marks.set;
    if out != scene.marks.set {
        match command {
            Command::ToggleMark => {
                let k = scene.state.selected_commit->0;
                let hash = crate::text::first_token(
                    crate::commits::line_at(data, places_of(scene, data)[k as int]),
                );
                assert(out == toggled(scene.marks.set, hash));
            },
            Command::ClickRow(row) => {
                let rows = crate::active::list_rows(
                    data,
                    scene.state.selected_repo,
                    scene.state.selected_tab,
                    scene.marks.set,
                );
                let k = rows[row as int]->Commit_0;
                let hash = crate::text::first_token(
                    crate::commits::line_at(data, places_of(scene, data)[k]),
                );
                assert(out == toggled(scene.marks.set, hash));
            },
            _ => {},
        }
    }
}

/// Marking, unmarking and marking again leaves the commit marked, and two
/// flips leave the marks as they were.
pub proof fn lemma_mark_unmark_mark(set: Set<Seq<char>>, hash: Seq<char>)
    requires
        !set.contains(hash),
    ensures
        toggled(set, hash).contains(hash),
        !toggled(toggled(set, hash), hash).contains(hash),
        toggled(toggled(set, hash), hash) == set,
        toggled(toggled(toggled(set, hash), hash), hash) == toggled(set, hash),
{
    crate::marks::lemma_toggle_twice(set, hash);
}

/// With every repository in scope, the commit `j` of repository `i` is the
/// one found at the position that the commits of the repositories before
/// `i`, and `j`, add up to: resolving positions undoes flattening.
pub proof fn lemma_resolving_inverts_flattening(data: Seq<RepoModel>, i: int, j: int)
    requires
        0 <= i < data.len(),
        0 <= j < data[i].commits.len(),
    ensures
        ({
            let k = total_commits(data.take(i)) + j;
            &&& 0 <= k < flatten(data).len()
            &&& flatten(data)[k] == (i, j)
        }),
{
    lemma_flatten_index(data, i, j);
}

/// Opening the detail pane with nothing selected selects the first commit
/// on display, where there is one; where there is none the pane stays
/// closed.
pub proof fn lemma_details_select_first(scene: Scene, data: Seq<RepoModel>, frame: Frame)
    requires
        loadable(data),
        !scene.state.show_details,
        scene.state.selected_commit is None,
        scope_valid(scene.state.selected_repo, data),
    ensures
        ({
            let end = step(Command::ToggleDetails, scene, data, frame).scene.state;
            if places_of(scene, data).len() > 0 {
                end.selected_commit == Some(0usize) && end.show_details
            } else {
                end.selected_commit is None && !end.show_details
            }
        }),
{
}

/// Whether a command changes what is loaded: the time window, the
/// restriction to the user's own commits, or whether commits come with
/// their body.
pub open spec fn changes_load(command: Command, frame: Frame) -> bool {
    match command {
        Command::ToggleFilter => true,
        Command::ToggleDetailedView => true,
        Command::NextInterval => frame.interval_count > 0,
        Command::PreviousInterval => frame.interval_count > 0,
        Command::ShowWeek => 3 < frame.interval_count,
        _ => false,
    }
}

/// A reload is asked for exactly by the commands that change what is
/// loaded.
pub proof fn lemma_reload_when_load_changes(
    command: Command,
    scene: Scene,
    data: Seq<RepoModel>,
    frame: Frame,
)
    ensures
        step(command, scene, data, frame).action == ActionModel::Reload <==> changes_load(
            command,
            frame,
        ),
{
}

/// The time window that is cycled to is one of the windows there are.
pub proof fn lemma_interval_in_range(
    command: Command,
    scene: Scene,
    data: Seq<RepoModel>,
    frame: Frame,
)
    requires
        changes_load(command, frame),
        command is NextInterval || command is PreviousInterval || command is ShowWeek,
    ensures
        step(command, scene, data, frame).scene.state.current_interval_index
            < frame.interval_count,
{
}

/// No command opens an overlay while the other is open: where at most one
/// was open before a command, at most one is open after it.
pub proof fn lemma_one_overlay(command: Command, scene: Scene, data: Seq<RepoModel>, frame: Frame)
    requires
        !(scene.popup.visible && scene.marks.popup_visible),
    ensures
        ({
            let end = step(command, scene, data, frame).scene;
            !(end.popup.visible && end.marks.popup_visible)
        }),
{
}

/// While an overlay is open, the directional keys leave the panes behind it
/// as they are.
pub proof fn lemma_overlay_takes_directions(
    command: Command,
    scene: Scene,
    data: Seq<RepoModel>,
    frame: Frame,
)
    requires
        modal_open(scene),
        command is Up || command is Down || command is Left || command is Right,
    ensures
        advance(command, scene, data, frame).scene.state == scene.state,
{
}

/// A click on the row on which the list shows the commit at position `k`
/// selects that commit: the list and the clicks count rows alike.
pub proof fn lemma_click_selects_shown_commit(scene: Scene, data: Seq<RepoModel>, k: int)
    requires
        loadable(data),
        !modal_open(scene),
        0 <= k < places_of(scene, data).len(),
    ensures
        ({
            let s = scene.state;
            let row = row_of(data, s.selected_repo, s.selected_tab, scene.marks.set, k);
            &&& 0 <= row < row_count(data, s.selected_repo, s.selected_tab, scene.marks.set)
            &&& after_click(scene, data, row as usize).state.selected_commit == Some(k as usize)
        }),
{
    let s = scene.state;
    lemma_list_rows(data, s.selected_repo, s.selected_tab, scene.marks.set);
    lemma_active_places(data, s.selected_repo, s.selected_tab, scene.marks.set);
    lemma_flatten_len(data);
}

/// A text that holds no occurrence of a token is left as it is when the
/// token is replaced.
pub proof fn lemma_replacing_absent_token(s: Seq<char>, token: Seq<char>, with: Seq<char>)
    requires
        !has_part(s, token),
    ensures
        replaced(s, token, with) == s,
{
    assert(s.subrange(0, s.len() as int) == s);
}

/// Words begin and end inside the text, and not before the place from
/// which they are looked for.
pub proof fn lemma_word_bounds(s: Seq<char>, i: int)
    requires
        0 <= i <= s.len(),
    ensures
        i <= word_start(s, i) <= s.len(),
        i <= word_end(s, i) <= s.len(),
        word_start(s, i) < s.len() ==> word_end(s, word_start(s, i)) > word_start(s, i),
    decreases s.len() - i,
{
    if i < s.len() {
        lemma_word_bounds(s, i + 1);
    }
}

/// The hash of a commit line is the first of its words, and a line without
/// words has an empty hash.
pub proof fn lemma_hash_is_first_word(line: Seq<char>)
    ensures
        words_from(line, 0).len() > 0 ==> words_from(line, 0)[0] == first_token(line),
        words_from(line, 0).len() == 0 ==> first_token(line).len() == 0,
{
    lemma_word_bounds(line, 0);
    lemma_word_bounds(line, word_start(line, 0));
}

/// The newlines of two texts put together are those of both.
pub proof fn lemma_newlines_add(a: Seq<char>, b: Seq<char>)
    ensures
        newline_count(a + b) == newline_count(a) + newline_count(b),
    decreases b.len(),
{
    if b.len() == 0 {
        assert(a + b == a);
    } else {
        assert((a + b).drop_last() == a + b.drop_last());
        lemma_newlines_add(a, b.drop_last());
    }
}

/// A single character holds a newline exactly if it is one.
pub proof fn lemma_newlines_single(c: char)
    ensures
        newline_count(seq![c]) == if c == '\n' {
            1nat
        } else {
            0nat
        },
{
    let one = seq![c];
    assert(one.len() == 1);
    assert(one.drop_last() == Seq::<char>::empty());
    assert(one.last() == c);
    assert(newline_count(one.drop_last()) == 0);
    assert(newline_count(one) == newline_count(one.drop_last()) + if one.last() == '\n' {
        1nat
    } else {
        0nat
    });
}

/// A line ends inside the text, at the first newline from its start on.
pub proof fn lemma_line_end(s: Seq<char>, i: int)
    requires
        0 <= i <= s.len(),
    ensures
        i <= line_end(s, i) <= s.len(),
        line_end(s, i) < s.len() ==> s[line_end(s, i)] == '\n',
        newline_count(s.subrange(i, line_end(s, i))) == 0,
    decreases s.len() - i,
{
    if i < s.len() && s[i] != '\n' {
        lemma_line_end(s, i + 1);
        let end = line_end(s, i);
        assert(s.subrange(i, end) == seq![s[i]] + s.subrange(i + 1, end));
        lemma_newlines_add(seq![s[i]], s.subrange(i + 1, end));
        lemma_newlines_single(s[i]);
    } else {
        assert(s.subrange(i, i) == Seq::<char>::empty());
    }
}

/// From any place on, a text has as many lines as newlines, and one more
/// where it does not end in a newline.
pub proof fn lemma_lines_from(s: Seq<char>, i: int)
    requires
        0 <= i <= s.len(),
    ensures
        lines_from(s, i).len() == newline_count(s.subrange(i, s.len() as int)) + if i < s.len()
            && s.last() != '\n' {
            1nat
        } else {
            0nat
        },
    decreases s.len() - i,
{
    let len = s.len() as int;
    if i >= len {
        assert(s.subrange(i, len) == Seq::<char>::empty());
    } else {
        lemma_line_end(s, i);
        let end = line_end(s, i);
        if end >= len {
            let rest = s.subrange(i, len);
            assert(rest.last() == s.last());
            assert(newline_count(rest) == newline_count(rest.drop_last()) + if rest.last() == '\n' {
                1nat
            } else {
                0nat
            });
        } else {
            lemma_lines_from(s, end + 1);
            assert(s.subrange(i, len) == s.subrange(i, end) + seq![s[end]] + s.subrange(
                end + 1,
                len,
            ));
            lemma_newlines_add(s.subrange(i, end) + seq![s[end]], s.subrange(end + 1, len));
            lemma_newlines_add(s.subrange(i, end), seq![s[end]]);
            lemma_newlines_single(s[end]);
        }
    }
}

/// Counting the lines of a text and splitting it into lines agree.
pub proof fn lemma_lines_counted(s: Seq<char>)
    ensures
        lines_of(s).len() == line_count(s),
{
    lemma_lines_from(s, 0);
    assert(s.subrange(0, s.len() as int) == s);
}

/// After a command that changes what is loaded, and the reload it asks
/// for, nothing is selected; a scope that named a repository of the old
/// data is kept where the new data still has a repository at its place,
/// and has become the scope of all repositories where it has not. The
/// marks are what they were.
pub proof fn lemma_reload_after_command(
    command: Command,
    scene: Scene,
    data: Seq<RepoModel>,
    loaded: Seq<RepoModel>,
    frame: Frame,
)
    requires
        changes_load(command, frame),
        scope_valid(scene.state.selected_repo, data),
    ensures
        ({
            let out = step(command, scene, data, frame);
            let end = reloaded(out.scene.state, loaded, out.scene.marks.set, frame);
            &&& out.action == ActionModel::Reload
            &&& out.scene.marks == scene.marks
            &&& end.selected_commit is None
            &&& end.selected_repo == if scope_valid(scene.state.selected_repo, loaded) {
                scene.state.selected_repo
            } else {
                RepoScope::All
            }
        }),
{
}

/// On the time-frame tab the commits on display are counted by the scope
/// alone: all commits, or those of the repository in scope.
pub proof fn lemma_timeframe_count(data: Seq<RepoModel>, scope: RepoScope, marks: Set<Seq<char>>)
    ensures
        active_places(data, scope, CommitTab::Timeframe, marks).len() == match scope {
            RepoScope::All => total_commits(data),
            RepoScope::Repo(i) => if i < data.len() {
                data[i as int].commits.len()
            } else {
                0
            },
        },
{
    lemma_flatten_len(data);
}

/// After Up or Down, in any pane and from any scene, each of the three
/// offsets is within its bound, and what is selected lies in its window
/// where the window has a row at all. The bound of the commit list counts
/// its rows; where no header row is shown these are the commits on
/// display.
pub proof fn lemma_vertical_keeps_offsets(
    down: bool,
    scene: Scene,
    data: Seq<RepoModel>,
    frame: Frame,
)
    requires
        loadable(data),
    ensures
        ({
            let command = if down {
                Command::Down
            } else {
                Command::Up
            };
            let end = step(command, scene, data, frame).scene;
            let s = end.state;
            let rows = row_count(data, s.selected_repo, s.selected_tab, end.marks.set);
            let side = sidebar_height(frame.rows);
            let list = commitlist_height(frame.rows);
            &&& s.sidebar_scroll <= max_offset(data.len() + 1, side)
            &&& s.commitlist_scroll <= max_offset(rows, list)
            &&& s.detail_scroll <= detail_max(frame)
            &&& (!shows_headers(s.selected_repo, s.selected_tab) ==> rows == places_of(
                end,
                data,
            ).len())
            &&& (side > 0 ==> s.sidebar_scroll <= sidebar_row(s.selected_repo) < s.sidebar_scroll
                + side)
            &&& (s.selected_commit matches Some(k) ==> (list > 0 ==> s.commitlist_scroll <= row_of(
                data,
                s.selected_repo,
                s.selected_tab,
                end.marks.set,
                k as int,
            ) < s.commitlist_scroll + list))
        }),
{
    let command = if down {
        Command::Down
    } else {
        Command::Up
    };
    lemma_step_consistent(command, scene, data, frame);
}

/// The space key opens the detail pane for the first commit on display
/// where nothing was selected and there is a commit to show, in whatever
/// pane the focus is. The scope, the marks and the summary overlay stay as
/// they are.
pub proof fn lemma_space_opens_details(scene: Scene, data: Seq<RepoModel>, frame: Frame)
    requires
        loadable(data),
        !scene.state.show_details,
        scene.state.selected_commit is None,
        scope_valid(scene.state.selected_repo, data),
        places_of(scene, data).len() > 0,
    ensures
        ({
            let out = step(key_command(Key::Char(' ')), scene, data, frame);
            &&& out.action == ActionModel::Continue
            &&& out.scene.state.selected_commit == Some(0usize)
            &&& out.scene.state.show_details
            &&& out.scene.state.selected_repo == scene.state.selected_repo
            &&& out.scene.state.selected_tab == scene.state.selected_tab
            &&& out.scene.marks == scene.marks
            &&& out.scene.popup == scene.popup
        }),
{
}

/// A click on the last row of the sidebar asks for the summary as the key
/// does, and changes neither the marks nor the overlays. While the overlay
/// of the marked commits is open the click asks for nothing; while the
/// summary overlay is open it can only close it.
pub proof fn lemma_summary_button(
    event: MouseEvent,
    scene: Scene,
    data: Seq<RepoModel>,
    regions: Regions,
    frame: Frame,
)
    requires
        event.kind == MouseKind::Down,
        contains_cell(regions.sidebar, event.column, event.row),
        event.row == regions.sidebar.y + regions.sidebar.height - 1,
    ensures
        ({
            let command = mouse_command(event, scene, data.len(), regions);
            let out = step(command, scene, data, frame);
            &&& !modal_open(scene) ==> command == Command::Summarize && command == key_command(
                Key::Char('a'),
            ) && out.action == ActionModel::PrepareSummary
            &&& scene.marks.popup_visible && !scene.popup.visible ==> command == Command::Ignore
            &&& scene.popup.visible ==> command == Command::Ignore || command == Command::Dismiss
            &&& out.scene.marks.set == scene.marks.set
            &&& !scene.popup.visible ==> out.scene.marks == scene.marks && out.scene.popup
                == scene.popup
        }),
{
}

/// Without a credential the summary overlay opens with the advice where to
/// put one and is not loading; with one it opens loading.
pub proof fn lemma_request_opens_overlay(
    popup: PopupModel,
    inputs: InputsModel,
    project: Seq<char>,
    commits: Seq<char>,
)
    ensures
        requested(popup, inputs, project, commits).visible,
        requested(popup, inputs, project, commits).loading == inputs.credential_present,
        !inputs.credential_present ==> requested(popup, inputs, project, commits).text
            == missing_key_text(inputs.config_path),
{
}

/// With all repositories in scope on the time-frame tab, the detail pane
/// shows the commit that flattening puts at the selected position: its
/// place, the hash of its line, and the line itself in place of fetched
/// details where commits are loaded with their body.
pub proof fn lemma_detail_follows_flattening(
    s: ViewState,
    data: Seq<RepoModel>,
    marks: Set<Seq<char>>,
    k: usize,
)
    requires
        s.show_details,
        s.selected_repo == RepoScope::All,
        s.selected_tab == CommitTab::Timeframe,
        s.selected_commit == Some(k),
        k < flatten(data).len(),
    ensures
        planned_detail(s, data, marks) == Some(
            DetailModel {
                place: flatten(data)[k as int],
                hash: first_token(line_at(data, flatten(data)[k as int])),
                from_line: s.detailed_commit_view,
                scroll: s.detail_scroll,
            },
        ),
{
}

} // verus!
