//! The interval model: a project's date range with its identity and status.

use vstd::prelude::*;

verus! {

/// How an interval stands relative to today. It decides the colour of a bar
/// and never its place.
#[derive(Debug, Clone, Copy, PartialEq, Eq, Structural)]
pub enum IntervalStatus {
    /// An actual end date is recorded.
    Completed,
    /// Not completed, and today lies after the planned end.
    Overdue,
    /// Neither of the two.
    Active,
}

/// A date range on the timeline. Dates are day numbers; both ends are
/// inclusive.
#[derive(Debug, Clone)]
pub struct Interval {
    /// Stable identifier of the record the interval was made from.
    pub id: u128,
    /// First day.
    pub start: i32,
    /// Planned last day.
    pub end: i32,
    /// Day on which the work was finished, if it was.
    pub actual_end: Option<i32>,
    /// Text shown for the interval.
    pub label: String,
}

impl Interval {
    /// The last day used for layout: the planned end, or the start where the
    /// planned end lies before it, so that no interval has negative length.
    pub open spec fn layout_end(self) -> int {
        if self.end < self.start {
            self.start as int
        } else {
            self.end as int
        }
    }

    /// The status on the day `today`.
    pub open spec fn status_at(self, today: int) -> IntervalStatus {
        if self.actual_end is Some {
            IntervalStatus::Completed
        } else if today > self.end {
            IntervalStatus::Overdue
        } else {
            IntervalStatus::Active
        }
    }

    /// Whether the inclusive layout range contains `day`.
    pub open spec fn covers(self, day: int) -> bool {
        self.start <= day <= self.layout_end()
    }

    /// An interval with the given fields.
    pub fn new(id: u128, label: String, start: i32, end: i32, actual_end: Option<i32>) -> (r:
        Interval)
        ensures
            r.id == id,
            r.label == label,
            r.start == start,
            r.end == end,
            r.actual_end == actual_end,
    {
        Interval { id, start, end, actual_end, label }
    }

    /// The last day used for layout.
    pub fn effective_end(&self) -> (r: i32)
        ensures
            r == self.layout_end(),
    {
        if self.end < self.start {
            self.start
        } else {
            self.end
        }
    }

    /// The status on the day `today`.
    pub fn status(&self, today: i32) -> (r: IntervalStatus)
        ensures
            r == self.status_at(today as int),
    {
        if self.actual_end.is_some() {
            IntervalStatus::Completed
        } else if today > self.end {
            IntervalStatus::Overdue
        } else {
            IntervalStatus::Active
        }
    }
}

/// A completed interval is never overdue, whatever the day.
pub proof fn lemma_completed_never_overdue(iv: Interval, today: int)
    requires
        iv.actual_end is Some,
    ensures
        iv.status_at(today) == IntervalStatus::Completed,
{
}

} // verus!
