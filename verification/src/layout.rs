//! The regions of the screen. Areas are divided by the layout solver of
//! `ratatui`; this module states what every division has in common and
//! derives the named regions from it.

use ratatui::layout;
use vstd::prelude::*;

verus! {

/// A rectangle of terminal cells.
#[derive(Clone, Copy, PartialEq, Eq, Debug)]
pub struct Rect {
    pub x: u16,
    pub y: u16,
    pub width: u16,
    pub height: u16,
}

/// The direction in which an area is divided.
#[derive(Clone, Copy, PartialEq, Eq, Debug)]
pub enum Direction {
    Horizontal,
    Vertical,
}

/// What is asked of one part of a divided area.
#[derive(Clone, Copy, PartialEq, Eq, Debug)]
pub enum Constraint {
    /// Exactly this many cells.
    Length(u16),
    /// At least this many cells.
    Min(u16),
    /// This share of the area, in percent.
    Percentage(u16),
}

/// The width of the sidebar.
pub const SIDEBAR_WIDTH: u16 = 30;

/// The height of the footer, and of the tab bar above the commit list.
pub const BAR_HEIGHT: u16 = 3;

/// Whether a cell lies inside a rectangle.
pub open spec fn contains_cell(r: Rect, column: u16, row: u16) -> bool {
    r.x <= column < r.x + r.width && r.y <= row < r.y + r.height
}

/// Whether a rectangle lies inside another.
pub open spec fn within(inner: Rect, outer: Rect) -> bool {
    &&& outer.x <= inner.x
    &&& inner.x + inner.width <= outer.x + outer.width
    &&& outer.y <= inner.y
    &&& inner.y + inner.height <= outer.y + outer.height
}

/// What a part of a divided area has from the area: across the direction of
/// the division its place and its extent, and along the direction a place
/// inside the area.
pub open spec fn spans(direction: Direction, area: Rect, part: Rect) -> bool {
    match direction {
        Direction::Horizontal => {
            &&& part.y == area.y
            &&& part.height == area.height
            &&& area.x <= part.x
            &&& part.x + part.width <= area.x + area.width
        },
        Direction::Vertical => {
            &&& part.x == area.x
            &&& part.width == area.width
            &&& area.y <= part.y
            &&& part.y + part.height <= area.y + area.height
        },
    }
}

/// The divisions that `ratatui::layout::Layout::split` can give for a layout
/// with this direction, these constraints and no margin, and this area. The
/// solver breaks ties in the order in which it walks its hash maps, which
/// differs from one process to the next, so an area may have more than one
/// division; which divisions there are depends on the three arguments alone.
pub uninterp spec fn divisions(direction: Direction, constraints: Seq<Constraint>, area: Rect) -> Set<
    Seq<Rect>,
>;

/// Divides an area with `ratatui::layout::Layout::split`, called on a layout
/// with the given direction and constraints and no margin. The result is
/// one of the divisions that the solver can give for these arguments. There
/// is one part for each constraint. Each part has the place and extent of
/// the area across the direction of the division. Along the direction each
/// part begins and ends inside the area: the solver is given that as a
/// requirement on every boundary, and a part is no longer than from its
/// start to its end. Where inside the area the parts lie is left to the
/// solver and not stated here.
#[verifier::external_body]
fn split(direction: Direction, constraints: &Vec<Constraint>, area: Rect) -> (parts: Vec<Rect>)
    ensures
        divisions(direction, constraints@, area).contains(parts@),
        parts@.len() == constraints@.len(),
        forall|i: int| 0 <= i < parts@.len() ==> spans(direction, area, #[trigger] parts@[i]),
{
    let wanted = constraints.iter().map(|c| match *c {
        Constraint::Length(n) => layout::Constraint::Length(n),
        Constraint::Min(n) => layout::Constraint::Min(n),
        Constraint::Percentage(p) => layout::Constraint::Percentage(p),
    });
    let along = match direction {
        Direction::Horizontal => layout::Direction::Horizontal,
        Direction::Vertical => layout::Direction::Vertical,
    };
    let whole = layout::Rect { x: area.x, y: area.y, width: area.width, height: area.height };
    let parts = layout::Layout::default().direction(along).constraints(wanted).split(whole);
    parts.iter().map(|r| Rect { x: r.x, y: r.y, width: r.width, height: r.height }).collect()
}

/// The constraints that put a share of `percent` in the middle of an area:
/// the rest is halved, rounded down, to either side.
pub open spec fn centering(percent: u16) -> Seq<Constraint> {
    let side = if percent <= 100 {
        ((100 - percent) / 2) as u16
    } else {
        0
    };
    seq![Constraint::Percentage(side), Constraint::Percentage(percent), Constraint::Percentage(side)]
}

fn centering_constraints(percent: u16) -> (constraints: Vec<Constraint>)
    ensures
        constraints@ == centering(percent),
{
    let side = 100u16.saturating_sub(percent) / 2;
    let mut constraints: Vec<Constraint> = Vec::new();
    constraints.push(Constraint::Percentage(side));
    constraints.push(Constraint::Percentage(percent));
    constraints.push(Constraint::Percentage(side));
    assert(constraints@ =~= centering(percent));
    constraints
}

/// Whether `centered` can come out of centring in `r`: whether it is the
/// middle part of a division of `rows[1]` from left to right by
/// `centering(percent_x)`, where `rows` is a division of `r` from top to
/// bottom by `centering(percent_y)`.
pub open spec fn centered_in(percent_x: u16, percent_y: u16, r: Rect, centered: Rect) -> bool {
    exists|rows: Seq<Rect>, columns: Seq<Rect>|
        {
            &&& divisions(Direction::Vertical, centering(percent_y), r).contains(rows)
            &&& rows.len() == 3
            &&& #[trigger] divisions(Direction::Horizontal, centering(percent_x), rows[1]).contains(
                columns,
            )
            &&& columns.len() == 3
            &&& centered == columns[1]
        }
}

/// A rectangle in the middle of `r` that takes `percent_x` percent of its
/// width and `percent_y` percent of its height: the middle part of `r`
/// divided from top to bottom by `centering(percent_y)`, divided again from
/// left to right by `centering(percent_x)`. The solver places the parts;
/// whatever it gives, the result lies inside `r`.
pub fn centered_rect(percent_x: u16, percent_y: u16, r: Rect) -> (centered: Rect)
    ensures
        centered_in(percent_x, percent_y, r, centered),
        within(centered, r),
{
    let rows = split(Direction::Vertical, &centering_constraints(percent_y), r);
    let columns = split(Direction::Horizontal, &centering_constraints(percent_x), rows[1]);
    assert(divisions(Direction::Horizontal, centering(percent_x), rows@[1]).contains(columns@));
    columns[1]
}

/// The named regions of the screen.
#[derive(Clone, Copy, PartialEq, Eq, Debug)]
pub struct Regions {
    /// The whole terminal.
    pub screen: Rect,
    pub sidebar: Rect,
    /// The commit pane: the tab bar and the commit list below it.
    pub commits: Rect,
    /// The detail pane, where it is laid out.
    pub detail: Option<Rect>,
    pub footer: Rect,
    /// The summary overlay.
    pub popup: Rect,
    /// The overlay that lists the marked commits.
    pub marked: Rect,
}

/// The tab bar of a commit pane: its first rows.
pub open spec fn tabs_area(commits: Rect) -> Rect {
    Rect { x: commits.x, y: commits.y, width: commits.width, height: BAR_HEIGHT }
}

/// The commit list of a commit pane: what lies below the tab bar.
pub open spec fn list_area(commits: Rect) -> Rect {
    Rect {
        x: commits.x,
        y: if commits.y + BAR_HEIGHT <= u16::MAX {
            (commits.y + BAR_HEIGHT) as u16
        } else {
            u16::MAX
        },
        width: commits.width,
        height: if commits.height >= BAR_HEIGHT {
            (commits.height - BAR_HEIGHT) as u16
        } else {
            0
        },
    }
}

impl Regions {
    /// The tab bar above the commit list.
    pub fn tabs(&self) -> (area: Rect)
        ensures
            area == tabs_area(self.commits),
    {
        Rect { x: self.commits.x, y: self.commits.y, width: self.commits.width, height: BAR_HEIGHT }
    }

    /// The commit list.
    pub fn list(&self) -> (area: Rect)
        ensures
            area == list_area(self.commits),
    {
        Rect {
            x: self.commits.x,
            y: self.commits.y.saturating_add(BAR_HEIGHT),
            width: self.commits.width,
            height: self.commits.height.saturating_sub(BAR_HEIGHT),
        }
    }
}

/// What is asked of the two bands of the screen: the band of the panes
/// takes what the footer leaves, at least one row, and the footer its three
/// rows.
pub open spec fn band_constraints() -> Seq<Constraint> {
    seq![Constraint::Min(1), Constraint::Length(BAR_HEIGHT)]
}

/// What is asked of the panes. The sidebar is 30 cells wide. With three
/// columns the commit pane is asked to take 60 percent and the detail pane
/// 40; with two the commit pane takes what the sidebar leaves, at least one
/// cell.
pub open spec fn pane_constraints(three_columns: bool) -> Seq<Constraint> {
    if three_columns {
        seq![
            Constraint::Length(SIDEBAR_WIDTH),
            Constraint::Percentage(60),
            Constraint::Percentage(40),
        ]
    } else {
        seq![Constraint::Length(SIDEBAR_WIDTH), Constraint::Min(1)]
    }
}

/// The regions that are made of a division of the screen into bands and a
/// division of the upper band into panes, with the two overlays.
pub open spec fn assembled(
    screen: Rect,
    bands: Seq<Rect>,
    panes: Seq<Rect>,
    three_columns: bool,
    popup: Rect,
    marked: Rect,
) -> Regions {
    Regions {
        screen,
        sidebar: panes[0],
        commits: panes[1],
        detail: if three_columns {
            Some(panes[2])
        } else {
            None
        },
        footer: bands[1],
        popup,
        marked,
    }
}

/// Whether the regions can come out of laying out a terminal of `cols` by
/// `rows` cells: the screen is the whole terminal; it is divided from top
/// to bottom by `band_constraints()`, and its upper band from left to right
/// by `pane_constraints(three_columns)`; the summary overlay is centred on
/// the screen with 60 percent of its width and 80 of its height, the
/// overlay of the marked commits with 60 and 40.
pub open spec fn laid_out(regions: Regions, cols: u16, rows: u16, three_columns: bool) -> bool {
    let screen = Rect { x: 0, y: 0, width: cols, height: rows };
    &&& centered_in(60, 80, screen, regions.popup)
    &&& centered_in(60, 40, screen, regions.marked)
    &&& exists|bands: Seq<Rect>, panes: Seq<Rect>|
        {
            &&& divisions(Direction::Vertical, band_constraints(), screen).contains(bands)
            &&& bands.len() == 2
            &&& #[trigger] divisions(
                Direction::Horizontal,
                pane_constraints(three_columns),
                bands[0],
            ).contains(panes)
            &&& panes.len() == pane_constraints(three_columns).len()
            &&& regions == assembled(
                screen,
                bands,
                panes,
                three_columns,
                regions.popup,
                regions.marked,
            )
        }
}

/// What holds of the regions of a terminal of `cols` by `rows` cells: they
/// come out of laying out that terminal, and however the solver placed
/// them, every region lies inside the screen, the footer takes its width,
/// the panes stand in one band of rows, and there is a detail pane exactly
/// where three columns were asked for.
pub open spec fn regions_of(regions: Regions, cols: u16, rows: u16, three_columns: bool) -> bool {
    &&& laid_out(regions, cols, rows, three_columns)
    &&& regions.screen == Rect { x: 0, y: 0, width: cols, height: rows }
    &&& spans(Direction::Vertical, regions.screen, regions.footer)
    &&& within(regions.sidebar, regions.screen)
    &&& within(regions.commits, regions.screen)
    &&& within(regions.popup, regions.screen)
    &&& within(regions.marked, regions.screen)
    &&& regions.sidebar.y == regions.commits.y
    &&& regions.sidebar.height == regions.commits.height
    &&& (regions.detail is Some <==> three_columns)
    &&& (regions.detail matches Some(detail) ==> {
        &&& within(detail, regions.screen)
        &&& detail.y == regions.commits.y
        &&& detail.height == regions.commits.height
    })
}

/// What is asked of the two bands of the screen.
fn bands_wanted() -> (constraints: Vec<Constraint>)
    ensures
        constraints@ == band_constraints(),
{
    let mut constraints: Vec<Constraint> = Vec::new();
    constraints.push(Constraint::Min(1));
    constraints.push(Constraint::Length(BAR_HEIGHT));
    assert(constraints@ =~= band_constraints());
    constraints
}

/// What is asked of the panes, two or three of them.
fn panes_wanted(three_columns: bool) -> (constraints: Vec<Constraint>)
    ensures
        constraints@ == pane_constraints(three_columns),
{
    let mut constraints: Vec<Constraint> = Vec::new();
    constraints.push(Constraint::Length(SIDEBAR_WIDTH));
    if three_columns {
        constraints.push(Constraint::Percentage(60));
        constraints.push(Constraint::Percentage(40));
    } else {
        constraints.push(Constraint::Min(1));
    }
    assert(constraints@ =~= pane_constraints(three_columns));
    constraints
}

/// Lays out the screen. The terminal is divided into the footer and the
/// band above it; the band into the sidebar and the commit pane, and the
/// detail pane where `three_columns` is set. Both overlays are centred on
/// the whole terminal. What the solver is asked is fixed; where it puts
/// the parts is its own choice.
pub fn plan_regions(cols: u16, rows: u16, three_columns: bool) -> (regions: Regions)
    ensures
        regions_of(regions, cols, rows, three_columns),
{
    let screen = Rect { x: 0, y: 0, width: cols, height: rows };
    let bands = split(Direction::Vertical, &bands_wanted(), screen);
    let panes = split(Direction::Horizontal, &panes_wanted(three_columns), bands[0]);
    let detail = if three_columns {
        Some(panes[2])
    } else {
        None
    };
    let regions = Regions {
        screen,
        sidebar: panes[0],
        commits: panes[1],
        detail,
        footer: bands[1],
        popup: centered_rect(60, 80, screen),
        marked: centered_rect(60, 40, screen),
    };
    proof {
        assert(divisions(Direction::Horizontal, pane_constraints(three_columns), bands@[0]).contains(
            panes@,
        ));
        assert(regions == assembled(
            screen,
            bands@,
            panes@,
            three_columns,
            regions.popup,
            regions.marked,
        ));
    }
    regions
}

} // verus!
