//! Tick marks of the day axis.
//!
//! The labels of the axis name days, weeks, months or quarters, whichever is
//! the finest unit that is at least `MIN_TICK_COLUMNS` columns wide at the
//! current zoom. Ticks stand a whole number of such units apart, far enough
//! for a label and a blank between two ticks.

use vstd::prelude::*;
use vstd::string::*;
use crate::calendar::{
    civil_from_day,
    civil_of_day,
    decimal,
    digit,
    digit_char,
    push_char,
    push_four_digits,
    push_two_digits,
    push_unknown,
};
use crate::viewport::Viewport;

verus! {

/// Columns that a unit of the axis must span to be used for the labels.
pub const MIN_TICK_COLUMNS: u32 = 1;

/// The unit that the labels of the axis name.
#[derive(Debug, Clone, Copy, PartialEq, Eq, Structural)]
pub enum Granularity {
    Day,
    Week,
    Month,
    Quarter,
}

impl Granularity {
    /// The nominal length of the unit in days.
    pub open spec fn days(self) -> int {
        match self {
            Granularity::Day => 1,
            Granularity::Week => 7,
            Granularity::Month => 30,
            Granularity::Quarter => 90,
        }
    }

    /// The number of characters of a label of this unit.
    pub open spec fn label_width(self) -> int {
        match self {
            Granularity::Day => 2,
            Granularity::Week => 5,
            Granularity::Month => 7,
            Granularity::Quarter => 7,
        }
    }

    /// The finest unit that spans at least `MIN_TICK_COLUMNS` columns at a
    /// zoom of `zoom` days per column; quarters where none does.
    pub open spec fn for_zoom(zoom: int) -> Granularity {
        if Granularity::Day.days() >= MIN_TICK_COLUMNS * zoom {
            Granularity::Day
        } else if Granularity::Week.days() >= MIN_TICK_COLUMNS * zoom {
            Granularity::Week
        } else if Granularity::Month.days() >= MIN_TICK_COLUMNS * zoom {
            Granularity::Month
        } else {
            Granularity::Quarter
        }
    }

    /// The nominal length of the unit in days.
    pub fn nominal_days(&self) -> (r: u32)
        ensures
            r == self.days(),
    {
        match self {
            Granularity::Day => 1,
            Granularity::Week => 7,
            Granularity::Month => 30,
            Granularity::Quarter => 90,
        }
    }

    /// The number of characters of a label of this unit.
    pub fn width(&self) -> (r: u32)
        ensures
            r == self.label_width(),
    {
        match self {
            Granularity::Day => 2,
            Granularity::Week => 5,
            Granularity::Month => 7,
            Granularity::Quarter => 7,
        }
    }

    /// The unit of the labels at a zoom of `zoom` days per column.
    pub fn of_zoom(zoom: u32) -> (r: Granularity)
        ensures
            r == Granularity::for_zoom(zoom as int),
    {
        let need: u64 = (MIN_TICK_COLUMNS as u64) * (zoom as u64);
        if 1 >= need {
            Granularity::Day
        } else if 7 >= need {
            Granularity::Week
        } else if 30 >= need {
            Granularity::Month
        } else {
            Granularity::Quarter
        }
    }
}

/// The columns that one unit of the labels spans at a zoom of `zoom`, at
/// least one.
pub open spec fn unit_columns(zoom: int) -> int {
    let u = Granularity::for_zoom(zoom).days() / zoom;
    if u < 1 {
        1
    } else {
        u
    }
}

/// The distance between two ticks in columns: the least whole number of
/// units that leaves room for a label and a blank.
pub open spec fn tick_stride(zoom: int) -> int {
    let unit = unit_columns(zoom);
    let need = Granularity::for_zoom(zoom).label_width() + 1;
    ((need + unit - 1) / unit) * unit
}

/// The number of ticks on an axis of `width` columns: one at column 0 and
/// one at every further multiple of the stride below `width`.
pub open spec fn tick_count(zoom: int, width: int) -> int {
    (width + tick_stride(zoom) - 1) / tick_stride(zoom)
}

/// `width` question marks: the label of a day without a printable date.
pub open spec fn unknown_text(width: nat) -> Seq<char> {
    Seq::new(width, |i: int| '?')
}

/// The label of the tick that stands on `day`.
///
/// Days are labelled with the day of the month, weeks with month and day,
/// months with year and month, quarters with year and quarter. A day that
/// has no calendar date, or whose year is needed and has not four digits,
/// is labelled with question marks.
pub open spec fn label_text(g: Granularity, day: int) -> Seq<char> {
    match civil_of_day(day) {
        None => unknown_text(g.label_width() as nat),
        Some(t) => match g {
            Granularity::Day => decimal(t.2, 2),
            Granularity::Week => decimal(t.1, 2) + seq!['-'] + decimal(t.2, 2),
            Granularity::Month => if 0 <= t.0 <= 9999 {
                decimal(t.0, 4) + seq!['-'] + decimal(t.1, 2)
            } else {
                unknown_text(7)
            },
            Granularity::Quarter => if 0 <= t.0 <= 9999 {
                decimal(t.0, 4) + seq!['-', 'Q'] + seq![digit_char((t.1 - 1) / 3 + 1)]
            } else {
                unknown_text(7)
            },
        },
    }
}

/// The decimal text of a number has as many characters as were asked for.
pub proof fn lemma_decimal_len(n: int, width: nat)
    ensures
        decimal(n, width).len() == width,
    decreases width,
{
    if width > 0 {
        lemma_decimal_len(n / 10, (width - 1) as nat);
    }
}

/// Every label has the width of its unit.
pub proof fn lemma_label_width(g: Granularity, day: int)
    ensures
        label_text(g, day).len() == g.label_width(),
{
    match civil_of_day(day) {
        None => {},
        Some(t) => {
            lemma_decimal_len(t.0, 4);
            lemma_decimal_len(t.1, 2);
            lemma_decimal_len(t.2, 2);
        },
    }
}

/// Labels of neighbouring ticks do not touch: at every zoom, the distance
/// between two ticks is larger than the width of a label.
pub proof fn lemma_labels_apart(zoom: int, day: int)
    requires
        zoom >= 1,
    ensures
        label_text(Granularity::for_zoom(zoom), day).len() < tick_stride(zoom),
{
    let g = Granularity::for_zoom(zoom);
    lemma_label_width(g, day);
    let unit = unit_columns(zoom);
    let need = g.label_width() + 1;
    assert(((need + unit - 1) / unit) * unit >= need) by (nonlinear_arith)
        requires
            unit >= 1,
            need >= 1,
    ;
}

/// One tick of the axis.
#[derive(Debug, Clone)]
pub struct Tick {
    /// The grid column of the tick.
    pub column: u16,
    /// The unit that the label names.
    pub granularity: Granularity,
    /// The text of the label.
    pub label: String,
}

impl Tick {
    /// The tick with number `k` (from 0) of the axis of `v`.
    pub open spec fn is_tick(self, v: Viewport, k: int) -> bool {
        let g = Granularity::for_zoom(v.zoom_days());
        let column = k * tick_stride(v.zoom_days());
        &&& self.column == column
        &&& self.granularity == g
        &&& self.label@ == label_text(g, v.day_of_column(column))
    }
}

/// The label of the tick that stands on `day`.
pub fn tick_label(g: Granularity, day: i32) -> (r: String)
    ensures
        r@ == label_text(g, day as int),
{
    let mut s = String::new();
    let civil = civil_from_day(day);
    match civil {
        None => {
            push_unknown(&mut s, g.width() as usize);
        },
        Some((y, m, d)) => {
            match g {
                Granularity::Day => {
                    push_two_digits(&mut s, d);
                },
                Granularity::Week => {
                    push_two_digits(&mut s, m);
                    push_char(&mut s, '-');
                    push_two_digits(&mut s, d);
                },
                Granularity::Month => {
                    if 0 <= y && y <= 9999 {
                        push_four_digits(&mut s, y as u32);
                        push_char(&mut s, '-');
                        push_two_digits(&mut s, m);
                    } else {
                        push_unknown(&mut s, 7);
                    }
                },
                Granularity::Quarter => {
                    if 0 <= y && y <= 9999 {
                        push_four_digits(&mut s, y as u32);
                        push_char(&mut s, '-');
                        push_char(&mut s, 'Q');
                        push_char(&mut s, digit((m - 1) / 3 + 1));
                    } else {
                        push_unknown(&mut s, 7);
                    }
                },
            }
        },
    }
    assert(s@ =~= label_text(g, day as int));
    s
}

/// The distance between two ticks at a zoom of `zoom`, in columns.
pub fn stride_for(zoom: u32) -> (r: u16)
    requires
        zoom >= 1,
    ensures
        r == tick_stride(zoom as int),
        Granularity::for_zoom(zoom as int).label_width() < r <= 100,
{
    let g = Granularity::of_zoom(zoom);
    let u: u32 = g.nominal_days() / zoom;
    let unit: u32 = if u < 1 {
        1
    } else {
        u
    };
    let need: u32 = g.width() + 1;
    let n: u32 = (need + unit - 1) / unit;
    assert(n * unit >= need && n * unit <= need + unit - 1 && n <= 98) by (nonlinear_arith)
        requires
            n == (need + unit - 1) / (unit as int),
            1 <= unit <= 90,
            need <= 8,
    ;
    (n * unit) as u16
}

/// The ticks of an axis of `width` columns: a tick at column 0 and at every
/// further multiple of the stride below `width`, each labelled with the
/// first day of its column.
pub fn axis_ticks(viewport: &Viewport, width: u16) -> (r: Vec<Tick>)
    requires
        viewport.wf(),
    ensures
        r@.len() == tick_count(viewport.zoom_days(), width as int),
        forall|k: int| 0 <= k < r@.len() ==> (#[trigger] r@[k]).is_tick(*viewport, k),
{
    let zoom = viewport.zoom();
    let g = Granularity::of_zoom(zoom);
    let stride = stride_for(zoom);
    let mut ticks: Vec<Tick> = Vec::new();
    let mut column: u32 = 0;
    let ghost st = stride as int;
    while column < width as u32
        invariant
            viewport.wf(),
            zoom == viewport.zoom_days(),
            g == Granularity::for_zoom(zoom as int),
            stride == tick_stride(zoom as int),
            st == stride as int,
            0 < stride <= 100,
            column == ticks@.len() * st,
            column < width + st,
            forall|k: int| 0 <= k < ticks@.len() ==> (#[trigger] ticks@[k]).is_tick(*viewport, k),
        decreases width + st - column,
    {
        let day = viewport.column_to_date(column as u16);
        let label = tick_label(g, day);
        ticks.push(Tick { column: column as u16, granularity: g, label });
        proof {
            let k = ticks@.len() as int;
            assert(k * st == (k - 1) * st + st) by (nonlinear_arith);
        }
        column = column + stride as u32;
    }
    proof {
        let k = ticks@.len() as int;
        let w = width as int;
        if k == 0 {
            assert(w == 0);
            assert((w + st - 1) / st == 0) by (nonlinear_arith)
                requires
                    w == 0,
                    st > 0,
            ;
        } else {
            assert((k - 1) * st == k * st - st) by (nonlinear_arith);
            assert((w + st - 1) / st == k) by (nonlinear_arith)
                requires
                    k * st - st < w <= k * st,
                    st > 0,
            ;
        }
    }
    ticks
}

} // verus!
