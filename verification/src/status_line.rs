//! The status line: zoom, scroll position and selection in one line of text.

use vstd::prelude::*;
use vstd::string::*;
use crate::calendar::{decimal, digit, digit_char, iso_text, push_char, push_iso_date, push_two_digits};
use crate::interval::Interval;
use crate::viewport::Viewport;

verus! {

/// What a segment of the status line tells; the caller picks colours by it.
#[derive(Debug, Clone, Copy, PartialEq, Eq, Structural)]
pub enum SegmentHint {
    /// The zoom.
    Zoom,
    /// The day in column 0.
    Scroll,
    /// The selected interval.
    Selection,
    /// The text shown where nothing is selected.
    Placeholder,
}

/// One piece of the status line.
#[derive(Debug, Clone)]
pub struct Segment {
    pub text: String,
    pub hint: SegmentHint,
}

/// The status line: the zoom, the scroll position and the selection, in
/// this order.
#[derive(Debug, Clone)]
pub struct StatusLine {
    pub zoom: Segment,
    pub scroll: Segment,
    pub selection: Segment,
}

/// A number below 100 without leading zero.
pub open spec fn number_text(n: int) -> Seq<char> {
    if n < 10 {
        seq![digit_char(n)]
    } else {
        decimal(n, 2)
    }
}

/// The zoom as text: the number of days that a column stands for.
pub open spec fn zoom_text(zoom: int) -> Seq<char> {
    if zoom == 1 {
        number_text(zoom) + " day/column"@
    } else {
        number_text(zoom) + " days/column"@
    }
}

/// Whether the selection points at an interval of the list.
pub open spec fn has_selection(ivs: Seq<Interval>, selected: Option<usize>) -> bool {
    selected is Some && selected->0 < ivs.len()
}

/// The selected interval as text: its label and its first and planned last
/// day; a placeholder where nothing is selected.
pub open spec fn selection_text(ivs: Seq<Interval>, selected: Option<usize>) -> Seq<char> {
    if has_selection(ivs, selected) {
        let iv = ivs[selected->0 as int];
        iv.label@ + " ["@ + iso_text(iv.start as int) + " .. "@ + iso_text(iv.end as int) + "]"@
    } else {
        "no selection"@
    }
}

impl StatusLine {
    /// The status line of viewport `v` over the intervals `ivs`.
    pub open spec fn describes(self, v: Viewport, ivs: Seq<Interval>) -> bool {
        &&& self.zoom.text@ == zoom_text(v.zoom_days())
        &&& self.zoom.hint == SegmentHint::Zoom
        &&& self.scroll.text@ == iso_text(v.first_day())
        &&& self.scroll.hint == SegmentHint::Scroll
        &&& self.selection.text@ == selection_text(ivs, v.selection())
        &&& self.selection.hint == if has_selection(ivs, v.selection()) {
            SegmentHint::Selection
        } else {
            SegmentHint::Placeholder
        }
    }

    /// The whole line as text.
    pub open spec fn line(self) -> Seq<char> {
        self.zoom.text@ + " | "@ + self.scroll.text@ + " | "@ + self.selection.text@
    }

    /// The three segments in one line, with a bar between them.
    pub fn text(&self) -> (r: String)
        ensures
            r@ == self.line(),
    {
        let mut s = String::new();
        s.append(self.zoom.text.as_str());
        s.append(" | ");
        s.append(self.scroll.text.as_str());
        s.append(" | ");
        s.append(self.selection.text.as_str());
        assert(s@ =~= self.line());
        s
    }
}

/// Renders the status line of a viewport over a list of intervals.
pub fn render_status_line(viewport: &Viewport, intervals: &Vec<Interval>) -> (r: StatusLine)
    requires
        viewport.wf(),
    ensures
        r.describes(*viewport, intervals@),
{
    let zoom = viewport.zoom();
    let mut zoom_part = String::new();
    if zoom < 10 {
        push_char(&mut zoom_part, digit(zoom));
    } else {
        push_two_digits(&mut zoom_part, zoom);
    }
    assert(zoom_part@ =~= number_text(zoom as int));
    if zoom == 1 {
        zoom_part.append(" day/column");
    } else {
        zoom_part.append(" days/column");
    }
    let mut scroll_part = String::new();
    push_iso_date(&mut scroll_part, viewport.scroll_offset());
    assert(scroll_part@ =~= iso_text(viewport.first_day()));
    let mut selection_part = String::new();
    let mut hint = SegmentHint::Placeholder;
    let mut found = false;
    match viewport.selected_index() {
        Some(i) => {
            if i < intervals.len() {
                let iv = &intervals[i];
                selection_part.append(iv.label.as_str());
                selection_part.append(" [");
                push_iso_date(&mut selection_part, iv.start);
                selection_part.append(" .. ");
                push_iso_date(&mut selection_part, iv.end);
                selection_part.append("]");
                hint = SegmentHint::Selection;
                found = true;
            }
        },
        None => {},
    }
    if !found {
        selection_part.append("no selection");
    }
    assert(selection_part@ =~= selection_text(intervals@, viewport.selection()));
    StatusLine {
        zoom: Segment { text: zoom_part, hint: SegmentHint::Zoom },
        scroll: Segment { text: scroll_part, hint: SegmentHint::Scroll },
        selection: Segment { text: selection_part, hint },
    }
}

} // verus!
