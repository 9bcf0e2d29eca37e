//! The viewport over the day axis and the mapping between days and grid
//! columns.
//!
//! A viewport holds the zoom (days per column), the scroll offset (the day
//! shown in column 0) and the selection. Every transition keeps the zoom and
//! the scroll offset within their bounds; the bounds on the scroll offset are
//! such that the day of every grid column is a day number that fits in `i32`.

use vstd::prelude::*;
use vstd::arithmetic::div_mod::{lemma_fundamental_div_mod, lemma_fundamental_div_mod_converse};

verus! {

/// Smallest number of days per column.
pub const ZOOM_MIN: u32 = 1;

/// Largest number of days per column.
pub const ZOOM_MAX: u32 = 30;

/// Smallest scroll offset.
pub const SCROLL_MIN: i32 = -2_000_000_000;

/// Largest scroll offset.
pub const SCROLL_MAX: i32 = 2_000_000_000;

/// The scroll offset that `jump_to_start` goes to.
pub const SCROLL_START: i32 = 0;

/// Direction of a scroll step.
#[derive(Debug, Clone, Copy, PartialEq, Eq, Structural)]
pub enum Direction {
    /// Towards earlier days.
    Left,
    /// Towards later days.
    Right,
}

/// A navigation command for the viewport.
#[derive(Debug, Clone, Copy, PartialEq, Eq, Structural)]
pub enum NavCommand {
    /// Scroll the given number of columns towards earlier days.
    ScrollLeft(u32),
    /// Scroll the given number of columns towards later days.
    ScrollRight(u32),
    /// Select the next interval.
    SelectNext,
    /// Select the previous interval.
    SelectPrevious,
    /// Show fewer days per column.
    ZoomIn,
    /// Show more days per column.
    ZoomOut,
    /// Put today in the middle column.
    CenterOnToday,
    /// Go back to the start of the day axis.
    JumpToStart,
}

/// `v` brought into the bounds of the scroll offset.
pub open spec fn clamp_scroll(v: int) -> int {
    if v < SCROLL_MIN {
        SCROLL_MIN as int
    } else if v > SCROLL_MAX {
        SCROLL_MAX as int
    } else {
        v
    }
}

/// `z` brought into the bounds of the zoom.
pub open spec fn clamp_zoom(z: int) -> int {
    if z < ZOOM_MIN {
        ZOOM_MIN as int
    } else if z > ZOOM_MAX {
        ZOOM_MAX as int
    } else {
        z
    }
}

/// The column in which `day` falls: the number of whole columns between the
/// scroll offset and the day, rounded towards earlier columns.
pub open spec fn column_of(scroll: int, zoom: int, day: int) -> int {
    (day - scroll) / zoom
}

/// The first day of a column.
pub open spec fn day_of(scroll: int, zoom: int, column: int) -> int {
    scroll + column * zoom
}

/// The selection after a step forward in a list of `total` entries.
pub open spec fn next_selection(selected: Option<usize>, total: usize) -> Option<usize> {
    if total == 0 {
        selected
    } else {
        match selected {
            None => Some(0usize),
            Some(i) => if i >= total - 1 {
                Some(0usize)
            } else {
                Some((i + 1) as usize)
            },
        }
    }
}

/// The selection after a step back in a list of `total` entries.
pub open spec fn previous_selection(selected: Option<usize>, total: usize) -> Option<usize> {
    if total == 0 {
        selected
    } else {
        match selected {
            None => Some((total - 1) as usize),
            Some(i) => if i == 0 {
                Some((total - 1) as usize)
            } else if i >= total {
                Some((total - 1) as usize)
            } else {
                Some((i - 1) as usize)
            },
        }
    }
}

/// The selection brought into a list of `total` entries.
pub open spec fn clamped_selection(selected: Option<usize>, total: usize) -> Option<usize> {
    if total == 0 {
        None
    } else {
        match selected {
            None => None,
            Some(i) => if i >= total {
                Some((total - 1) as usize)
            } else {
                Some(i)
            },
        }
    }
}

/// Whether a selection points into a list of `total` entries.
pub open spec fn selection_in_range(selected: Option<usize>, total: usize) -> bool {
    match selected {
        None => true,
        Some(i) => i < total,
    }
}

/// `a / b` rounded towards negative infinity.
fn floor_div(a: i64, b: i64) -> (q: i64)
    requires
        b > 0,
        -0x4000_0000_0000_0000 < a < 0x4000_0000_0000_0000,
        b < 0x4000_0000_0000_0000,
    ensures
        q == a as int / b as int,
{
    if a >= 0 {
        let q: u64 = (a as u64) / (b as u64);
        q as i64
    } else {
        let m: u64 = (-a) as u64;
        let d: u64 = b as u64;
        let q: u64 = (m + d - 1) / d;
        proof {
            let qi = q as int;
            let x = m as int + d as int - 1;
            lemma_fundamental_div_mod(x, d as int);
            let r = x % (d as int);
            assert(x == d as int * qi + r);
            let rem = d as int - 1 - r;
            assert(a as int == (-qi) * (b as int) + rem) by (nonlinear_arith)
                requires
                    x == d as int * qi + r,
                    x == -(a as int) + d as int - 1,
                    rem == d as int - 1 - r,
                    b as int == d as int,
            ;
            lemma_fundamental_div_mod_converse(a as int, b as int, -qi, rem);
        }
        -(q as i64)
    }
}

/// The window through which the timeline is seen.
#[derive(Debug, Clone, Copy, PartialEq, Eq)]
pub struct Viewport {
    zoom: u32,
    scroll_offset: i32,
    selected_index: Option<usize>,
}

impl Viewport {
    /// Days per column.
    pub closed spec fn zoom_days(self) -> int {
        self.zoom as int
    }

    /// The day shown in column 0.
    pub closed spec fn first_day(self) -> int {
        self.scroll_offset as int
    }

    /// The selected position in the interval list, if any.
    pub closed spec fn selection(self) -> Option<usize> {
        self.selected_index
    }

    /// Zoom and scroll offset lie within their bounds.
    pub open spec fn wf(self) -> bool {
        &&& ZOOM_MIN <= self.zoom_days() <= ZOOM_MAX
        &&& SCROLL_MIN <= self.first_day() <= SCROLL_MAX
    }

    /// The column of a day in this viewport.
    pub open spec fn column_of_day(self, day: int) -> int {
        column_of(self.first_day(), self.zoom_days(), day)
    }

    /// The first day of a column in this viewport.
    pub open spec fn day_of_column(self, column: int) -> int {
        day_of(self.first_day(), self.zoom_days(), column)
    }

    /// The first day of the column in the middle of a viewport that is
    /// `width` columns wide.
    pub open spec fn center_day(self, width: int) -> int {
        self.day_of_column(width / 2)
    }

    /// The scroll offset that puts `day` on the first day of the middle
    /// column at a zoom of `zoom`, before it is brought into bounds.
    pub open spec fn centered_offset(day: int, zoom: int, width: int) -> int {
        day - (width / 2) * zoom
    }

    /// A viewport with one day per column, no selection, and `today` in the
    /// middle column of a grid `width` columns wide.
    pub fn new(today: i32, width: u16) -> (r: Viewport)
        ensures
            r.wf(),
            r.zoom_days() == 1,
            r.selection() is None,
            r.first_day() == clamp_scroll(Self::centered_offset(today as int, 1, width as int)),
    {
        let mut v = Viewport { zoom: 1, scroll_offset: 0, selected_index: None };
        v.center_on_today(today, width);
        v
    }

    /// A viewport with the given zoom and scroll offset, each brought into
    /// its bounds, and no selection.
    pub fn with_zoom_and_scroll(zoom: u32, scroll_offset: i32) -> (r: Viewport)
        ensures
            r.wf(),
            r.zoom_days() == clamp_zoom(zoom as int),
            r.first_day() == clamp_scroll(scroll_offset as int),
            r.selection() is None,
    {
        let z: u32 = if zoom < ZOOM_MIN {
            ZOOM_MIN
        } else if zoom > ZOOM_MAX {
            ZOOM_MAX
        } else {
            zoom
        };
        Viewport { zoom: z, scroll_offset: Self::clamp(scroll_offset as i64), selected_index: None }
    }

    fn clamp(v: i64) -> (r: i32)
        ensures
            r == clamp_scroll(v as int),
    {
        if v < SCROLL_MIN as i64 {
            SCROLL_MIN
        } else if v > SCROLL_MAX as i64 {
            SCROLL_MAX
        } else {
            v as i32
        }
    }

    /// Days per column.
    pub fn zoom(&self) -> (r: u32)
        ensures
            r == self.zoom_days(),
    {
        self.zoom
    }

    /// The day shown in column 0.
    pub fn scroll_offset(&self) -> (r: i32)
        ensures
            r == self.first_day(),
    {
        self.scroll_offset
    }

    /// The selected position in the interval list, if any.
    pub fn selected_index(&self) -> (r: Option<usize>)
        ensures
            r == self.selection(),
    {
        self.selected_index
    }

    /// Moves the viewport by `amount_columns` columns in the given
    /// direction. The scroll offset stops at its bounds.
    pub fn scroll(&mut self, amount_columns: u32, direction: Direction)
        requires
            old(self).wf(),
        ensures
            final(self).wf(),
            final(self).zoom_days() == old(self).zoom_days(),
            final(self).selection() == old(self).selection(),
            final(self).first_day() == clamp_scroll(
                old(self).first_day() + match direction {
                    Direction::Left => -(amount_columns * old(self).zoom_days()),
                    Direction::Right => amount_columns * old(self).zoom_days(),
                },
            ),
    {
        assert(amount_columns * self.zoom <= 0xFFFF_FFFF * 30) by (nonlinear_arith)
            requires
                amount_columns <= 0xFFFF_FFFF,
                self.zoom <= 30,
        ;
        let days: i64 = (amount_columns as i64) * (self.zoom as i64);
        let target: i64 = match direction {
            Direction::Left => self.scroll_offset as i64 - days,
            Direction::Right => self.scroll_offset as i64 + days,
        };
        self.scroll_offset = Self::clamp(target);
    }

    /// Moves the viewport `amount_columns` columns towards earlier days.
    pub fn scroll_left(&mut self, amount_columns: u32)
        requires
            old(self).wf(),
        ensures
            final(self).wf(),
            final(self).zoom_days() == old(self).zoom_days(),
            final(self).selection() == old(self).selection(),
            final(self).first_day() == clamp_scroll(
                old(self).first_day() - amount_columns * old(self).zoom_days(),
            ),
    {
        self.scroll(amount_columns, Direction::Left)
    }

    /// Moves the viewport `amount_columns` columns towards later days.
    pub fn scroll_right(&mut self, amount_columns: u32)
        requires
            old(self).wf(),
        ensures
            final(self).wf(),
            final(self).zoom_days() == old(self).zoom_days(),
            final(self).selection() == old(self).selection(),
            final(self).first_day() == clamp_scroll(
                old(self).first_day() + amount_columns * old(self).zoom_days(),
            ),
    {
        self.scroll(amount_columns, Direction::Right)
    }

    /// Sets the zoom to `zoom` and keeps the first day of the middle column
    /// of a grid `width` columns wide where it is.
    fn rezoom(&mut self, zoom: u32, width: u16)
        requires
            old(self).wf(),
            ZOOM_MIN <= zoom <= ZOOM_MAX,
        ensures
            final(self).wf(),
            final(self).zoom_days() == zoom,
            final(self).selection() == old(self).selection(),
            final(self).first_day() == clamp_scroll(
                Self::centered_offset(old(self).center_day(width as int), zoom as int, width as int),
            ),
    {
        let half: i64 = (width / 2) as i64;
        assert(half * self.zoom <= 32767 * 30 && half * zoom <= 32767 * 30) by (nonlinear_arith)
            requires
                0 <= half <= 32767,
                self.zoom <= 30,
                zoom <= 30,
        ;
        let center: i64 = self.scroll_offset as i64 + half * (self.zoom as i64);
        self.scroll_offset = Self::clamp(center - half * (zoom as i64));
        self.zoom = zoom;
    }

    /// Shows fewer days per column: the zoom goes down by one, but not below
    /// `ZOOM_MIN`. The first day of the middle column of a grid `width`
    /// columns wide stays in that column unless the scroll offset meets its
    /// bounds.
    pub fn zoom_in(&mut self, width: u16)
        requires
            old(self).wf(),
        ensures
            final(self).wf(),
            final(self).zoom_days() == clamp_zoom(old(self).zoom_days() - 1),
            final(self).selection() == old(self).selection(),
            final(self).first_day() == clamp_scroll(
                Self::centered_offset(
                    old(self).center_day(width as int),
                    final(self).zoom_days(),
                    width as int,
                ),
            ),
    {
        let z: u32 = if self.zoom > ZOOM_MIN {
            self.zoom - 1
        } else {
            ZOOM_MIN
        };
        self.rezoom(z, width)
    }

    /// Shows more days per column: the zoom goes up by one, but not above
    /// `ZOOM_MAX`. The first day of the middle column of a grid `width`
    /// columns wide stays in that column unless the scroll offset meets its
    /// bounds.
    pub fn zoom_out(&mut self, width: u16)
        requires
            old(self).wf(),
        ensures
            final(self).wf(),
            final(self).zoom_days() == clamp_zoom(old(self).zoom_days() + 1),
            final(self).selection() == old(self).selection(),
            final(self).first_day() == clamp_scroll(
                Self::centered_offset(
                    old(self).center_day(width as int),
                    final(self).zoom_days(),
                    width as int,
                ),
            ),
    {
        let z: u32 = if self.zoom < ZOOM_MAX {
            self.zoom + 1
        } else {
            ZOOM_MAX
        };
        self.rezoom(z, width)
    }

    /// Selects the entry after the selected one in a list of `total`
    /// entries; after the last comes the first. With nothing selected the
    /// first entry is selected. Nothing changes when the list is empty.
    pub fn select_next(&mut self, total: usize)
        requires
            old(self).wf(),
        ensures
            final(self).wf(),
            final(self).zoom_days() == old(self).zoom_days(),
            final(self).first_day() == old(self).first_day(),
            final(self).selection() == next_selection(old(self).selection(), total),
            total > 0 ==> selection_in_range(final(self).selection(), total),
    {
        if total == 0 {
            return ;
        }
        self.selected_index = match self.selected_index {
            None => Some(0),
            Some(i) => if i >= total - 1 {
                Some(0)
            } else {
                Some(i + 1)
            },
        };
    }

    /// Selects the entry before the selected one in a list of `total`
    /// entries; before the first comes the last. With nothing selected the
    /// last entry is selected. Nothing changes when the list is empty.
    pub fn select_previous(&mut self, total: usize)
        requires
            old(self).wf(),
        ensures
            final(self).wf(),
            final(self).zoom_days() == old(self).zoom_days(),
            final(self).first_day() == old(self).first_day(),
            final(self).selection() == previous_selection(old(self).selection(), total),
            total > 0 ==> selection_in_range(final(self).selection(), total),
    {
        if total == 0 {
            return ;
        }
        self.selected_index = match self.selected_index {
            None => Some(total - 1),
            Some(i) => if i == 0 || i >= total {
                Some(total - 1)
            } else {
                Some(i - 1)
            },
        };
    }

    /// Brings the selection into a list of `total` entries after the list
    /// has changed: it is dropped when the list is empty, and moved to the
    /// last entry when it points behind it.
    pub fn clamp_selection(&mut self, total: usize)
        requires
            old(self).wf(),
        ensures
            final(self).wf(),
            final(self).zoom_days() == old(self).zoom_days(),
            final(self).first_day() == old(self).first_day(),
            final(self).selection() == clamped_selection(old(self).selection(), total),
            selection_in_range(final(self).selection(), total),
    {
        self.selected_index = if total == 0 {
            None
        } else {
            match self.selected_index {
                None => None,
                Some(i) => if i >= total {
                    Some(total - 1)
                } else {
                    Some(i)
                },
            }
        };
    }

    /// Scrolls so that `today` falls on the first day of the middle column
    /// of a grid `width` columns wide, as far as the bounds of the scroll
    /// offset allow.
    pub fn center_on_today(&mut self, today: i32, width: u16)
        requires
            old(self).wf(),
        ensures
            final(self).wf(),
            final(self).zoom_days() == old(self).zoom_days(),
            final(self).selection() == old(self).selection(),
            final(self).first_day() == clamp_scroll(
                Self::centered_offset(today as int, old(self).zoom_days(), width as int),
            ),
    {
        let half: i64 = (width / 2) as i64;
        assert(half * self.zoom <= 32767 * 30) by (nonlinear_arith)
            requires
                0 <= half <= 32767,
                self.zoom <= 30,
        ;
        self.scroll_offset = Self::clamp(today as i64 - half * (self.zoom as i64));
    }

    /// Scrolls back to the start of the day axis.
    pub fn jump_to_start(&mut self)
        requires
            old(self).wf(),
        ensures
            final(self).wf(),
            final(self).zoom_days() == old(self).zoom_days(),
            final(self).selection() == old(self).selection(),
            final(self).first_day() == SCROLL_START,
    {
        self.scroll_offset = SCROLL_START;
    }

    /// The zoom after a command.
    pub open spec fn zoom_after(self, command: NavCommand) -> int {
        match command {
            NavCommand::ZoomIn => clamp_zoom(self.zoom_days() - 1),
            NavCommand::ZoomOut => clamp_zoom(self.zoom_days() + 1),
            _ => self.zoom_days(),
        }
    }

    /// The scroll offset after a command, in a grid `width` columns wide on
    /// the day `today`.
    pub open spec fn first_day_after(self, command: NavCommand, today: int, width: int) -> int {
        match command {
            NavCommand::ScrollLeft(n) => clamp_scroll(self.first_day() - n * self.zoom_days()),
            NavCommand::ScrollRight(n) => clamp_scroll(self.first_day() + n * self.zoom_days()),
            NavCommand::ZoomIn | NavCommand::ZoomOut => clamp_scroll(
                Self::centered_offset(self.center_day(width), self.zoom_after(command), width),
            ),
            NavCommand::CenterOnToday => clamp_scroll(
                Self::centered_offset(today, self.zoom_days(), width),
            ),
            NavCommand::JumpToStart => SCROLL_START as int,
            _ => self.first_day(),
        }
    }

    /// The selection after a command, in a list of `total` intervals.
    pub open spec fn selection_after(self, command: NavCommand, total: usize) -> Option<usize> {
        match command {
            NavCommand::SelectNext => next_selection(self.selection(), total),
            NavCommand::SelectPrevious => previous_selection(self.selection(), total),
            _ => self.selection(),
        }
    }

    /// This viewport is what `command` makes of `before`, over a list of
    /// `total` intervals, in a grid `width` columns wide, on the day `today`.
    pub open spec fn follows(
        self,
        before: Viewport,
        command: NavCommand,
        total: usize,
        today: int,
        width: int,
    ) -> bool {
        &&& self.zoom_days() == before.zoom_after(command)
        &&& self.first_day() == before.first_day_after(command, today, width)
        &&& self.selection() == before.selection_after(command, total)
    }

    /// Carries out a navigation command over a list of `total` intervals, in
    /// a grid `width` columns wide, on the day `today`.
    pub fn apply(&mut self, command: NavCommand, total: usize, today: i32, width: u16)
        requires
            old(self).wf(),
        ensures
            final(self).wf(),
            final(self).follows(*old(self), command, total, today as int, width as int),
    {
        match command {
            NavCommand::ScrollLeft(n) => self.scroll_left(n),
            NavCommand::ScrollRight(n) => self.scroll_right(n),
            NavCommand::SelectNext => self.select_next(total),
            NavCommand::SelectPrevious => self.select_previous(total),
            NavCommand::ZoomIn => self.zoom_in(width),
            NavCommand::ZoomOut => self.zoom_out(width),
            NavCommand::CenterOnToday => self.center_on_today(today, width),
            NavCommand::JumpToStart => self.jump_to_start(),
        }
    }

    /// The column in which `day` falls. It is negative for a day before the
    /// scroll offset and may lie beyond the width of the grid: the caller
    /// clips.
    pub fn date_to_column(&self, day: i32) -> (c: i64)
        requires
            self.wf(),
        ensures
            c == self.column_of_day(day as int),
    {
        floor_div(day as i64 - self.scroll_offset as i64, self.zoom as i64)
    }

    /// The first day of a grid column.
    pub fn column_to_date(&self, column: u16) -> (d: i32)
        requires
            self.wf(),
        ensures
            d == self.day_of_column(column as int),
    {
        assert(column * self.zoom <= 65535 * 30) by (nonlinear_arith)
            requires
                column <= 65535,
                self.zoom <= 30,
        ;
        let d: i64 = self.scroll_offset as i64 + (column as i64) * (self.zoom as i64);
        d as i32
    }
}

/// A day is shown in the column whose first day it is: mapping a grid
/// column to its day and the day back to a column gives the column. The
/// other direction loses the place of a day within its column when a column
/// stands for more than one day.
pub proof fn lemma_column_round_trip(v: Viewport, column: int)
    requires
        v.wf(),
    ensures
        v.column_of_day(v.day_of_column(column)) == column,
{
    let z = v.zoom_days();
    lemma_fundamental_div_mod_converse(column * z, z, column, 0);
}

/// Every day of a column maps to that column.
pub proof fn lemma_column_of_days_within(v: Viewport, column: int, k: int)
    requires
        v.wf(),
        0 <= k < v.zoom_days(),
    ensures
        v.column_of_day(v.day_of_column(column) + k) == column,
{
    let z = v.zoom_days();
    lemma_fundamental_div_mod_converse(column * z + k, z, column, k);
}

/// A change of zoom keeps the day in the middle of the viewport in the
/// middle: where the scroll offset that centres that day at the new zoom
/// lies within the bounds of the scroll offset, the first day of the old
/// middle column falls in the middle column of the new viewport.
pub proof fn lemma_zoom_keeps_center(before: Viewport, after: Viewport, width: int)
    requires
        before.wf(),
        after.wf(),
        0 <= width,
        after.first_day() == clamp_scroll(
            Viewport::centered_offset(before.center_day(width), after.zoom_days(), width),
        ),
        SCROLL_MIN <= Viewport::centered_offset(before.center_day(width), after.zoom_days(), width)
            <= SCROLL_MAX,
    ensures
        after.column_of_day(before.center_day(width)) == width / 2,
{
    let z = after.zoom_days();
    let half = width / 2;
    lemma_fundamental_div_mod_converse(half * z, z, half, 0);
}

/// A step forward from the last entry selects the first, a step back from
/// the first selects the last, and neither changes anything in an empty
/// list.
pub proof fn lemma_selection_wraps(selected: Option<usize>, total: usize)
    ensures
        total > 0 ==> next_selection(Some((total - 1) as usize), total) == Some(0usize),
        total > 0 ==> previous_selection(Some(0usize), total) == Some((total - 1) as usize),
        next_selection(selected, 0) == selected,
        previous_selection(selected, 0) == selected,
{
}

} // verus!
