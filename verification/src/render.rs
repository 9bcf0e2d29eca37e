//! The timeline renderer: draws the axis, the bars of the visible intervals
//! and the marker of today into a grid of character cells.
//!
//! Row 0 of the grid is the axis. Row `r` below it shows lane `r - 1`; lanes
//! that find no row are left out. Bars are painted in list order, so that of
//! two bars that meet in a cell the later one is seen, and the marker of
//! today is painted last.

use vstd::prelude::*;
use vstd::string::*;
use vstd::arithmetic::div_mod::{lemma_fundamental_div_mod, lemma_fundamental_div_mod_converse};
use crate::interval::{Interval, IntervalStatus};
use crate::lanes::{allocate_lanes, LaneLayout};
use crate::ticks::{
    axis_ticks,
    label_text,
    lemma_label_width,
    stride_for,
    tick_count,
    tick_stride,
    Granularity,
    Tick,
};
use crate::viewport::Viewport;

verus! {

/// The character of an empty cell.
pub const BLANK_SYMBOL: char = ' ';

/// The character of a bar.
pub const BAR_SYMBOL: char = '=';

/// The character of the marker of today.
pub const TODAY_SYMBOL: char = '|';

/// What a cell shows; the caller picks colours by it.
#[derive(Debug, Clone, Copy, PartialEq, Eq)]
pub enum CellKind {
    /// Nothing.
    Empty,
    /// A character of an axis label.
    Axis,
    /// A bar of an interval with the given status.
    Bar(IntervalStatus),
    /// A bar of the selected interval.
    Selected,
    /// The marker of today.
    Today,
}

/// One character cell.
#[derive(Debug, Clone, Copy, PartialEq, Eq)]
pub struct Cell {
    pub symbol: char,
    pub kind: CellKind,
}

/// An empty cell.
pub open spec fn blank_cell() -> Cell {
    Cell { symbol: BLANK_SYMBOL, kind: CellKind::Empty }
}

/// A cell of the marker of today.
pub open spec fn today_cell() -> Cell {
    Cell { symbol: TODAY_SYMBOL, kind: CellKind::Today }
}

/// A cell of the bar of `iv`: highlighted where the interval is selected,
/// else marked with its status on the day `today`.
pub open spec fn bar_cell(iv: Interval, selected: bool, today: int) -> Cell {
    Cell {
        symbol: BAR_SYMBOL,
        kind: if selected {
            CellKind::Selected
        } else {
            CellKind::Bar(iv.status_at(today))
        },
    }
}

/// The bar of interval `i` lies in `lane` and passes through `column`.
pub open spec fn bar_covers(
    ivs: Seq<Interval>,
    lanes: Seq<usize>,
    v: Viewport,
    i: int,
    lane: int,
    column: int,
) -> bool {
    &&& 0 <= i < ivs.len()
    &&& i < lanes.len()
    &&& lanes[i] == lane
    &&& v.column_of_day(ivs[i].start as int) <= column <= v.column_of_day(ivs[i].layout_end())
}

/// The cell of `lane` at `column` after the bars of the first `k` intervals
/// have been painted.
pub open spec fn painted(
    ivs: Seq<Interval>,
    lanes: Seq<usize>,
    v: Viewport,
    today: int,
    k: int,
    lane: int,
    column: int,
) -> Cell
    decreases k,
{
    if k <= 0 {
        blank_cell()
    } else if bar_covers(ivs, lanes, v, k - 1, lane, column) {
        bar_cell(ivs[k - 1], v.selection() == Some((k - 1) as usize), today)
    } else {
        painted(ivs, lanes, v, today, k - 1, lane, column)
    }
}

/// The cell of `lane` at `column`: the marker of today in the column of
/// today, else what the bars leave there.
pub open spec fn lane_cell(
    ivs: Seq<Interval>,
    lanes: Seq<usize>,
    v: Viewport,
    today: int,
    lane: int,
    column: int,
) -> Cell {
    if v.column_of_day(today) == column {
        today_cell()
    } else {
        painted(ivs, lanes, v, today, ivs.len() as int, lane, column)
    }
}

/// The cell of the axis at `column`: a character of the label of the tick
/// at or before the column, or a blank behind the label.
pub open spec fn header_cell(v: Viewport, column: int) -> Cell {
    let stride = tick_stride(v.zoom_days());
    let label = label_text(
        Granularity::for_zoom(v.zoom_days()),
        v.day_of_column((column / stride) * stride),
    );
    if column % stride < label.len() {
        Cell { symbol: label[column % stride], kind: CellKind::Axis }
    } else {
        blank_cell()
    }
}

/// The cell of the timeline at `row` and `column`.
pub open spec fn timeline_cell(
    ivs: Seq<Interval>,
    lanes: Seq<usize>,
    v: Viewport,
    today: int,
    row: int,
    column: int,
) -> Cell {
    if row == 0 {
        header_cell(v, column)
    } else {
        lane_cell(ivs, lanes, v, today, row - 1, column)
    }
}

/// A rectangle of cells, row by row.
#[derive(Debug, Clone)]
pub struct Grid {
    pub width: u16,
    pub height: u16,
    pub rows: Vec<Vec<Cell>>,
}

impl Grid {
    /// The grid has `height` rows of `width` cells each.
    pub open spec fn wf(self) -> bool {
        &&& self.rows@.len() == self.height
        &&& forall|r: int| 0 <= r < self.height ==> (#[trigger] self.rows@[r])@.len() == self.width
    }

    /// The cell at `row` and `column`.
    pub open spec fn cell(self, row: int, column: int) -> Cell {
        self.rows@[row]@[column]
    }

    /// The grid shows the timeline of `ivs` laid out by `lanes`.
    pub open spec fn shows(self, ivs: Seq<Interval>, lanes: Seq<usize>, v: Viewport, today: int) -> bool {
        &&& self.wf()
        &&& forall|r: int, c: int|
            0 <= r < self.height && 0 <= c < self.width ==> #[trigger] self.cell(r, c)
                == timeline_cell(ivs, lanes, v, today, r, c)
    }

    /// The cell at `row` and `column`, or `None` outside the grid.
    pub fn get(&self, row: u16, column: u16) -> (r: Option<Cell>)
        requires
            self.wf(),
        ensures
            r == if row < self.height && column < self.width {
                Some(self.cell(row as int, column as int))
            } else {
                None
            },
    {
        if row < self.height && column < self.width {
            Some(self.rows[row as usize][column as usize])
        } else {
            None
        }
    }
}

/// A rectangle inside a grid: its top-left corner and its size in cells.
#[derive(Debug, Clone, Copy, PartialEq, Eq, Structural)]
pub struct Area {
    pub x: u16,
    pub y: u16,
    pub width: u16,
    pub height: u16,
}

impl Area {
    /// The cell at `row` and `column` lies inside the rectangle.
    pub open spec fn contains(self, row: int, column: int) -> bool {
        self.y <= row < self.y + self.height && self.x <= column < self.x + self.width
    }
}

/// Height of the error popup in rows.
pub const ERROR_POPUP_HEIGHT: u16 = 7;

/// Width of the help overlay in columns.
pub const HELP_WIDTH: u16 = 50;

/// Height of the help overlay in rows.
pub const HELP_HEIGHT: u16 = 18;

/// The smaller of two numbers.
pub open spec fn min_of(a: int, b: int) -> int {
    if a <= b {
        a
    } else {
        b
    }
}

/// The rectangle of `width` by `height` cells in the middle of `area`, cut
/// down to the size of `area` where it is larger.
pub open spec fn centered_in(width: int, height: int, area: Area) -> Area {
    Area {
        x: (area.x + (area.width - min_of(width, area.width as int)) / 2) as u16,
        y: (area.y + (area.height - min_of(height, area.height as int)) / 2) as u16,
        width: min_of(width, area.width as int) as u16,
        height: min_of(height, area.height as int) as u16,
    }
}

/// The width of the error popup in an area `area_width` columns wide: six
/// tenths of the area, but at least 30 and at most 60 columns.
pub open spec fn error_popup_width(area_width: int) -> int {
    let w = area_width * 60 / 100;
    if w > 60 {
        60
    } else if w < 30 {
        30
    } else {
        w
    }
}

/// The rectangle of `width` by `height` cells in the middle of `area`.
pub fn centered_rect(width: u16, height: u16, area: Area) -> (r: Area)
    requires
        area.x + area.width <= u16::MAX,
        area.y + area.height <= u16::MAX,
    ensures
        r == centered_in(width as int, height as int, area),
{
    let w: u16 = if width <= area.width {
        width
    } else {
        area.width
    };
    let h: u16 = if height <= area.height {
        height
    } else {
        area.height
    };
    Area { x: area.x + (area.width - w) / 2, y: area.y + (area.height - h) / 2, width: w, height: h }
}

/// The rectangle of the error popup in `area`.
pub fn error_popup_area(area: Area) -> (r: Area)
    requires
        area.x + area.width <= u16::MAX,
        area.y + area.height <= u16::MAX,
    ensures
        r == centered_in(error_popup_width(area.width as int), ERROR_POPUP_HEIGHT as int, area),
{
    let w: u32 = (area.width as u32) * 60 / 100;
    let width: u16 = if w > 60 {
        60
    } else if w < 30 {
        30
    } else {
        w as u16
    };
    centered_rect(width, ERROR_POPUP_HEIGHT, area)
}

/// The rectangle of the help overlay in `area`.
pub fn help_area(area: Area) -> (r: Area)
    requires
        area.x + area.width <= u16::MAX,
        area.y + area.height <= u16::MAX,
    ensures
        r == centered_in(HELP_WIDTH as int, HELP_HEIGHT as int, area),
{
    centered_rect(HELP_WIDTH, HELP_HEIGHT, area)
}

/// A row of `width` empty cells.
pub fn blank_row(width: u16) -> (row: Vec<Cell>)
    ensures
        row@.len() == width,
        forall|c: int| 0 <= c < width ==> #[trigger] row@[c] == blank_cell(),
{
    let mut row: Vec<Cell> = Vec::new();
    let mut c: u16 = 0;
    while c < width
        invariant
            c <= width,
            row@.len() == c,
            forall|x: int| 0 <= x < c ==> #[trigger] row@[x] == blank_cell(),
        decreases width - c,
    {
        row.push(Cell { symbol: BLANK_SYMBOL, kind: CellKind::Empty });
        c = c + 1;
    }
    row
}

/// The cell of the axis at `column` while the labels of the first `k` ticks,
/// and the first `off` characters of the next, are written.
spec fn header_progress(v: Viewport, k: int, off: int, column: int) -> Cell {
    let stride = tick_stride(v.zoom_days());
    if column / stride < k || (column / stride == k && column % stride < off) {
        header_cell(v, column)
    } else {
        blank_cell()
    }
}

/// The axis row of a grid `width` columns wide: the labels of the ticks, each
/// from the column of its tick on, cut off at the right edge.
pub fn render_header(viewport: &Viewport, width: u16) -> (row: Vec<Cell>)
    requires
        viewport.wf(),
    ensures
        row@.len() == width,
        forall|c: int| 0 <= c < width ==> #[trigger] row@[c] == header_cell(*viewport, c),
{
    let mut row = blank_row(width);
    let ticks = axis_ticks(viewport, width);
    let stride = stride_for(viewport.zoom());
    let ghost v = *viewport;
    let ghost st = stride as int;
    let ghost g = Granularity::for_zoom(v.zoom_days());
    let mut k: usize = 0;
    while k < ticks.len()
        invariant
            v == *viewport,
            v.wf(),
            st == tick_stride(v.zoom_days()),
            st == stride as int,
            g == Granularity::for_zoom(v.zoom_days()),
            g.label_width() < st <= 100,
            k <= ticks@.len(),
            ticks@.len() == tick_count(v.zoom_days(), width as int),
            forall|x: int| 0 <= x < ticks@.len() ==> (#[trigger] ticks@[x]).is_tick(v, x),
            row@.len() == width,
            forall|c: int| 0 <= c < width ==> #[trigger] row@[c] == header_progress(v, k as int, 0, c),
        decreases ticks@.len() - k,
    {
        let tick = &ticks[k];
        assert(tick.is_tick(v, k as int));
        let len = tick.label.as_str().unicode_len();
        proof {
            lemma_label_width(g, v.day_of_column(k * st));
        }
        let mut off: usize = 0;
        while off < len
            invariant
                v.wf(),
                st == tick_stride(v.zoom_days()),
                g == Granularity::for_zoom(v.zoom_days()),
                0 < st <= 100,
                len < st,
                off <= len,
                k < ticks@.len(),
                tick == ticks@[k as int],
                tick.column == k * st,
                tick.label@ == label_text(g, v.day_of_column(k * st)),
                len == tick.label@.len(),
                row@.len() == width,
                forall|c: int|
                    0 <= c < width ==> #[trigger] row@[c] == header_progress(
                        v,
                        k as int,
                        off as int,
                        c,
                    ),
            decreases len - off,
        {
            let column: u32 = tick.column as u32 + off as u32;
            let ghost before = row@;
            proof {
                lemma_fundamental_div_mod_converse(column as int, st, k as int, off as int);
            }
            if column < width as u32 {
                let symbol = tick.label.as_str().get_char(off);
                row.set(column as usize, Cell { symbol, kind: CellKind::Axis });
            }
            proof {
                assert forall|c: int| 0 <= c < width implies #[trigger] row@[c] == header_progress(
                    v,
                    k as int,
                    off + 1,
                    c,
                ) by {
                    lemma_fundamental_div_mod(c, st);
                    if c != column {
                        assert(row@[c] == before[c]);
                        if c / st == k && c % st == off {
                            assert(st * k == k * st) by (nonlinear_arith);
                            assert(false);
                        }
                    }
                }
            }
            off = off + 1;
        }
        proof {
            assert forall|c: int| 0 <= c < width implies #[trigger] row@[c] == header_progress(
                v,
                k + 1,
                0,
                c,
            ) by {
                assert(row@[c] == header_progress(v, k as int, len as int, c));
            }
        }
        k = k + 1;
    }
    proof {
        let n = ticks@.len() as int;
        let w = width as int;
        assert forall|c: int| 0 <= c < width implies #[trigger] row@[c] == header_cell(v, c) by {
            assert(row@[c] == header_progress(v, n, 0, c));
            lemma_fundamental_div_mod(c, st);
            lemma_fundamental_div_mod(w + st - 1, st);
            assert(c / st < n) by (nonlinear_arith)
                requires
                    0 <= c < w,
                    st > 0,
                    n == (w + st - 1) / st,
                    c == st * (c / st) + c % st,
                    0 <= c % st < st,
                    w + st - 1 == st * ((w + st - 1) / st) + (w + st - 1) % st,
                    0 <= (w + st - 1) % st < st,
            ;
        }
    }
    row
}

/// A cell of the bar of `iv`.
pub fn bar_of(iv: &Interval, selected: bool, today: i32) -> (r: Cell)
    ensures
        r == bar_cell(*iv, selected, today as int),
{
    let kind = if selected {
        CellKind::Selected
    } else {
        CellKind::Bar(iv.status(today))
    };
    Cell { symbol: BAR_SYMBOL, kind }
}

/// The row of one lane: the bars of the intervals of that lane, cut off at
/// the edges of the grid, and the marker of today on top of them.
pub fn render_lane(
    intervals: &Vec<Interval>,
    lanes: &Vec<usize>,
    viewport: &Viewport,
    today: i32,
    width: u16,
    lane: usize,
) -> (row: Vec<Cell>)
    requires
        viewport.wf(),
    ensures
        row@.len() == width,
        forall|c: int|
            0 <= c < width ==> #[trigger] row@[c] == lane_cell(
                intervals@,
                lanes@,
                *viewport,
                today as int,
                lane as int,
                c,
            ),
{
    let n = intervals.len();
    let selected = viewport.selected_index();
    let ghost ivs = intervals@;
    let ghost v = *viewport;
    let mut row = blank_row(width);
    let mut k: usize = 0;
    while k < n
        invariant
            n == intervals.len(),
            ivs == intervals@,
            v == *viewport,
            v.wf(),
            selected == v.selection(),
            k <= n,
            row@.len() == width,
            forall|c: int|
                0 <= c < width ==> #[trigger] row@[c] == painted(
                    ivs,
                    lanes@,
                    v,
                    today as int,
                    k as int,
                    lane as int,
                    c,
                ),
        decreases n - k,
    {
        let ghost before = row@;
        if k < lanes.len() && lanes[k] == lane {
            let first = viewport.date_to_column(intervals[k].start);
            let last = viewport.date_to_column(intervals[k].effective_end());
            if width > 0 && last >= 0 && first < width as i64 && first <= last {
                let lo: usize = if first < 0 {
                    0
                } else {
                    first as usize
                };
                let hi: usize = if last >= width as i64 {
                    (width - 1) as usize
                } else {
                    last as usize
                };
                let is_selected = match selected {
                    Some(s) => s == k,
                    None => false,
                };
                let cell = bar_of(&intervals[k], is_selected, today);
                let mut c: usize = lo;
                while c <= hi
                    invariant
                        lo <= c <= hi + 1,
                        hi < width,
                        row@.len() == width,
                        before.len() == width,
                        forall|x: int|
                            0 <= x < width ==> #[trigger] row@[x] == if lo <= x < c {
                                cell
                            } else {
                                before[x]
                            },
                    decreases hi + 1 - c,
                {
                    row.set(c, cell);
                    c = c + 1;
                }
            }
        }
        proof {
            assert forall|c: int| 0 <= c < width implies #[trigger] row@[c] == painted(
                ivs,
                lanes@,
                v,
                today as int,
                k + 1,
                lane as int,
                c,
            ) by {
                assert(before[c] == painted(ivs, lanes@, v, today as int, k as int, lane as int, c));
            }
        }
        k = k + 1;
    }
    let t = viewport.date_to_column(today);
    if 0 <= t && t < width as i64 {
        row.set(t as usize, Cell { symbol: TODAY_SYMBOL, kind: CellKind::Today });
    }
    row
}

/// Draws the timeline into a grid of `width` by `height` cells.
///
/// A grid without rows or without columns shows nothing. With no intervals
/// the grid shows the axis and the marker of today alone.
pub fn render_timeline(
    intervals: &Vec<Interval>,
    layout: &LaneLayout,
    viewport: &Viewport,
    today: i32,
    width: u16,
    height: u16,
) -> (grid: Grid)
    requires
        viewport.wf(),
    ensures
        grid.width == width,
        grid.height == height,
        grid.shows(intervals@, layout.lanes@, *viewport, today as int),
{
    let mut rows: Vec<Vec<Cell>> = Vec::new();
    let mut r: u16 = 0;
    while r < height
        invariant
            viewport.wf(),
            r <= height,
            rows@.len() == r,
            forall|y: int| 0 <= y < r ==> (#[trigger] rows@[y])@.len() == width,
            forall|y: int, c: int|
                0 <= y < r && 0 <= c < width ==> #[trigger] rows@[y]@[c] == timeline_cell(
                    intervals@,
                    layout.lanes@,
                    *viewport,
                    today as int,
                    y,
                    c,
                ),
        decreases height - r,
    {
        let row = if r == 0 {
            render_header(viewport, width)
        } else {
            render_lane(intervals, &layout.lanes, viewport, today, width, (r - 1) as usize)
        };
        rows.push(row);
        r = r + 1;
    }
    Grid { width, height, rows }
}

/// A grid of `width` by `height` empty cells.
pub fn blank_grid(width: u16, height: u16) -> (grid: Grid)
    ensures
        grid.wf(),
        grid.width == width,
        grid.height == height,
        forall|r: int, c: int|
            0 <= r < height && 0 <= c < width ==> #[trigger] grid.cell(r, c) == blank_cell(),
{
    let mut rows: Vec<Vec<Cell>> = Vec::new();
    let mut r: u16 = 0;
    while r < height
        invariant
            r <= height,
            rows@.len() == r,
            forall|y: int| 0 <= y < r ==> (#[trigger] rows@[y])@.len() == width,
            forall|y: int, c: int|
                0 <= y < r && 0 <= c < width ==> #[trigger] rows@[y]@[c] == blank_cell(),
        decreases height - r,
    {
        rows.push(blank_row(width));
        r = r + 1;
    }
    Grid { width, height, rows }
}

/// Paints the timeline into the rectangle `area` of a grid that the caller
/// owns.
///
/// The timeline is laid out as wide and as high as the rectangle. Every cell
/// of the grid inside the rectangle takes the cell of the timeline at its
/// place relative to the corner of the rectangle; every other cell stays as
/// it is. The parts of the rectangle that lie outside the grid are left out,
/// and so are rows of the timeline that fall on no row of the grid.
pub fn paint_timeline(
    target: &mut Grid,
    area: Area,
    intervals: &Vec<Interval>,
    layout: &LaneLayout,
    viewport: &Viewport,
    today: i32,
)
    requires
        old(target).wf(),
        viewport.wf(),
    ensures
        final(target).wf(),
        final(target).width == old(target).width,
        final(target).height == old(target).height,
        forall|r: int, c: int|
            0 <= r < old(target).height && 0 <= c < old(target).width ==> #[trigger] final(target).cell(
                r,
                c,
            ) == if area.contains(r, c) {
                timeline_cell(
                    intervals@,
                    layout.lanes@,
                    *viewport,
                    today as int,
                    r - area.y,
                    c - area.x,
                )
            } else {
                old(target).cell(r, c)
            },
{
    let width = target.width;
    let height = target.height;
    let ghost before = *target;
    let mut rows: Vec<Vec<Cell>> = Vec::new();
    let mut r: u16 = 0;
    while r < height
        invariant
            before == *target,
            before.wf(),
            viewport.wf(),
            width == before.width,
            height == before.height,
            r <= height,
            rows@.len() == r,
            forall|y: int| 0 <= y < r ==> (#[trigger] rows@[y])@.len() == width,
            forall|y: int, c: int|
                0 <= y < r && 0 <= c < width ==> #[trigger] rows@[y]@[c] == if area.contains(y, c) {
                    timeline_cell(
                        intervals@,
                        layout.lanes@,
                        *viewport,
                        today as int,
                        y - area.y,
                        c - area.x,
                    )
                } else {
                    before.cell(y, c)
                },
        decreases height - r,
    {
        let in_rows = r >= area.y && r - area.y < area.height;
        // The row of the timeline that falls on this row of the grid.
        let line: Vec<Cell> = if !in_rows {
            Vec::new()
        } else if r == area.y {
            render_header(viewport, area.width)
        } else {
            render_lane(
                intervals,
                &layout.lanes,
                viewport,
                today,
                area.width,
                (r - area.y - 1) as usize,
            )
        };
        let mut row: Vec<Cell> = Vec::new();
        let mut c: u16 = 0;
        while c < width
            invariant
                before == *target,
                before.wf(),
                width == before.width,
                height == before.height,
                r < height,
                in_rows == (area.y <= r < area.y + area.height),
                in_rows ==> line@.len() == area.width,
                in_rows ==> forall|x: int|
                    0 <= x < area.width ==> #[trigger] line@[x] == timeline_cell(
                        intervals@,
                        layout.lanes@,
                        *viewport,
                        today as int,
                        r - area.y,
                        x,
                    ),
                c <= width,
                row@.len() == c,
                forall|x: int|
                    0 <= x < c ==> #[trigger] row@[x] == if area.contains(r as int, x) {
                        timeline_cell(
                            intervals@,
                            layout.lanes@,
                            *viewport,
                            today as int,
                            r - area.y,
                            x - area.x,
                        )
                    } else {
                        before.cell(r as int, x)
                    },
            decreases width - c,
        {
            let inside = in_rows && c >= area.x && c - area.x < area.width;
            let cell = if inside {
                line[(c - area.x) as usize]
            } else {
                target.rows[r as usize][c as usize]
            };
            row.push(cell);
            c = c + 1;
        }
        rows.push(row);
        r = r + 1;
    }
    target.rows = rows;
    proof {
        assert forall|y: int, c: int| 0 <= y < height && 0 <= c < width implies #[trigger] target.cell(
            y,
            c,
        ) == if area.contains(y, c) {
            timeline_cell(
                intervals@,
                layout.lanes@,
                *viewport,
                today as int,
                y - area.y,
                c - area.x,
            )
        } else {
            before.cell(y, c)
        } by {
            assert(target.cell(y, c) == target.rows@[y]@[c]);
        }
    }
}

/// Lays the intervals out in lanes and draws them: the layout is the
/// allocator's, and the grid shows the timeline under that layout.
pub fn draw_timeline(
    intervals: &Vec<Interval>,
    viewport: &Viewport,
    today: i32,
    width: u16,
    height: u16,
) -> (r: (LaneLayout, Grid))
    requires
        viewport.wf(),
    ensures
        r.0.is_layout_of(intervals@),
        r.1.width == width,
        r.1.height == height,
        r.1.shows(intervals@, r.0.lanes@, *viewport, today as int),
{
    let layout = allocate_lanes(intervals);
    let grid = render_timeline(intervals, &layout, viewport, today, width, height);
    (layout, grid)
}

/// What the bars leave in a cell: nothing where no bar passes, else the bar
/// of the last interval in list order whose bar passes there.
pub proof fn lemma_painted_last_bar(
    ivs: Seq<Interval>,
    lanes: Seq<usize>,
    v: Viewport,
    today: int,
    k: int,
    lane: int,
    column: int,
)
    requires
        0 <= k <= ivs.len(),
    ensures
        (forall|i: int| 0 <= i < k ==> !bar_covers(ivs, lanes, v, i, lane, column)) ==> painted(
            ivs,
            lanes,
            v,
            today,
            k,
            lane,
            column,
        ) == blank_cell(),
        forall|i: int|
            0 <= i < k && #[trigger] bar_covers(ivs, lanes, v, i, lane, column) && (forall|j: int|
                i < j < k ==> !bar_covers(ivs, lanes, v, j, lane, column)) ==> painted(
                ivs,
                lanes,
                v,
                today,
                k,
                lane,
                column,
            ) == bar_cell(ivs[i], v.selection() == Some(i as usize), today),
    decreases k,
{
    if k > 0 {
        lemma_painted_last_bar(ivs, lanes, v, today, k - 1, lane, column);
    }
}

/// The marker of today is seen in every lane row, whatever bars pass there.
pub proof fn lemma_today_on_top(
    ivs: Seq<Interval>,
    lanes: Seq<usize>,
    v: Viewport,
    today: int,
    row: int,
    column: int,
)
    requires
        row >= 1,
        v.column_of_day(today) == column,
    ensures
        timeline_cell(ivs, lanes, v, today, row, column) == today_cell(),
{
}

} // verus!
