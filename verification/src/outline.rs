//! Builds an outline — an ordered sequence of segments — from a stream of
//! move/line/quad/curve/close events, as a font's glyph walker emits them.
//!
//! Every event after the first takes the previous segment's end point as
//! its start point, so the built sequence satisfies the chain invariant:
//! each geometric segment starts where its predecessor ended.

use vstd::prelude::*;

use crate::segment::COORD_BOUND;
use crate::segment::Segment;
use crate::segment::SegmentType;
use crate::segment::seg_in_bounds;

verus! {

/// The chain invariant of an outline: every geometric segment (line or
/// curve) starts at the previous segment's end point.
pub open spec fn chained(segs: Seq<Segment>) -> bool {
    forall|i: int|
        1 <= i < segs.len() && (segs[i].segment_type == SegmentType::Line
            || segs[i].segment_type == SegmentType::Quad || segs[i].segment_type
            == SegmentType::Cubic) ==> segs[i].x_start == segs[i - 1].x_end && segs[i].y_start
            == segs[i - 1].y_end
}

/// Every segment's coordinates are within the intersection engine's
/// machine limits.
pub open spec fn all_in_bounds(segs: Seq<Segment>) -> bool {
    forall|i: int| 0 <= i < segs.len() ==> seg_in_bounds(#[trigger] segs[i])
}

/// Collects a glyph's outline events into the chained segment sequence.
pub struct Builder {
    pub segments: Vec<Segment>,
}

impl Builder {
    /// An empty outline.
    pub fn new() -> (r: Builder)
        ensures
            r.segments@.len() == 0,
    {
        Builder { segments: Vec::new() }
    }

    /// Starts a subpath at `(x, y)`: appends an `Origin` marker whose start
    /// and end both equal `(x, y)`.
    pub fn move_to(&mut self, x: i64, y: i64)
        requires
            -COORD_BOUND <= x <= COORD_BOUND,
            -COORD_BOUND <= y <= COORD_BOUND,
        ensures
            final(self).segments@ == old(self).segments@.push(
                Segment {
                    segment_type: SegmentType::Origin,
                    x_start: x,
                    y_start: y,
                    x1: 0,
                    y1: 0,
                    x2: 0,
                    y2: 0,
                    x_end: x,
                    y_end: y,
                },
            ),
            chained(old(self).segments@) ==> chained(final(self).segments@),
            all_in_bounds(old(self).segments@) ==> all_in_bounds(final(self).segments@),
    {
        let seg = Segment {
            segment_type: SegmentType::Origin,
            x_start: x,
            y_start: y,
            x1: 0,
            y1: 0,
            x2: 0,
            y2: 0,
            x_end: x,
            y_end: y,
        };
        self.segments.push(seg);
    }

    /// Appends a line from the previous end point to `(x, y)`.
    pub fn line_to(&mut self, x: i64, y: i64)
        requires
            old(self).segments@.len() > 0,
            -COORD_BOUND <= x <= COORD_BOUND,
            -COORD_BOUND <= y <= COORD_BOUND,
        ensures
            final(self).segments@ == old(self).segments@.push(
                Segment {
                    segment_type: SegmentType::Line,
                    x_start: old(self).segments@.last().x_end,
                    y_start: old(self).segments@.last().y_end,
                    x1: 0,
                    y1: 0,
                    x2: 0,
                    y2: 0,
                    x_end: x,
                    y_end: y,
                },
            ),
            chained(old(self).segments@) ==> chained(final(self).segments@),
            all_in_bounds(old(self).segments@) ==> all_in_bounds(final(self).segments@),
    {
        let last = &self.segments[self.segments.len() - 1];
        let seg = Segment {
            segment_type: SegmentType::Line,
            x_start: last.x_end,
            y_start: last.y_end,
            x1: 0,
            y1: 0,
            x2: 0,
            y2: 0,
            x_end: x,
            y_end: y,
        };
        self.segments.push(seg);
    }

    /// Appends a quadratic curve from the previous end point through the
    /// control point `(x1, y1)` to `(x, y)`.
    pub fn quad_to(&mut self, x1: i64, y1: i64, x: i64, y: i64)
        requires
            old(self).segments@.len() > 0,
            -COORD_BOUND <= x1 <= COORD_BOUND,
            -COORD_BOUND <= y1 <= COORD_BOUND,
            -COORD_BOUND <= x <= COORD_BOUND,
            -COORD_BOUND <= y <= COORD_BOUND,
        ensures
            final(self).segments@ == old(self).segments@.push(
                Segment {
                    segment_type: SegmentType::Quad,
                    x_start: old(self).segments@.last().x_end,
                    y_start: old(self).segments@.last().y_end,
                    x1: x1,
                    y1: y1,
                    x2: 0,
                    y2: 0,
                    x_end: x,
                    y_end: y,
                },
            ),
            chained(old(self).segments@) ==> chained(final(self).segments@),
            all_in_bounds(old(self).segments@) ==> all_in_bounds(final(self).segments@),
    {
        let last = &self.segments[self.segments.len() - 1];
        let seg = Segment {
            segment_type: SegmentType::Quad,
            x_start: last.x_end,
            y_start: last.y_end,
            x1: x1,
            y1: y1,
            x2: 0,
            y2: 0,
            x_end: x,
            y_end: y,
        };
        self.segments.push(seg);
    }

    /// Appends a cubic curve from the previous end point through the
    /// control points `(x1, y1)` and `(x2, y2)` to `(x, y)`.
    pub fn curve_to(&mut self, x1: i64, y1: i64, x2: i64, y2: i64, x: i64, y: i64)
        requires
            old(self).segments@.len() > 0,
            -COORD_BOUND <= x1 <= COORD_BOUND,
            -COORD_BOUND <= y1 <= COORD_BOUND,
            -COORD_BOUND <= x2 <= COORD_BOUND,
            -COORD_BOUND <= y2 <= COORD_BOUND,
            -COORD_BOUND <= x <= COORD_BOUND,
            -COORD_BOUND <= y <= COORD_BOUND,
        ensures
            final(self).segments@ == old(self).segments@.push(
                Segment {
                    segment_type: SegmentType::Cubic,
                    x_start: old(self).segments@.last().x_end,
                    y_start: old(self).segments@.last().y_end,
                    x1: x1,
                    y1: y1,
                    x2: x2,
                    y2: y2,
                    x_end: x,
                    y_end: y,
                },
            ),
            chained(old(self).segments@) ==> chained(final(self).segments@),
            all_in_bounds(old(self).segments@) ==> all_in_bounds(final(self).segments@),
    {
        let last = &self.segments[self.segments.len() - 1];
        let seg = Segment {
            segment_type: SegmentType::Cubic,
            x_start: last.x_end,
            y_start: last.y_end,
            x1: x1,
            y1: y1,
            x2: x2,
            y2: y2,
            x_end: x,
            y_end: y,
        };
        self.segments.push(seg);
    }

    /// Ends the current subpath: appends a `Close` marker, which carries no
    /// meaningful coordinates and contributes no intersections.
    pub fn close(&mut self)
        ensures
            final(self).segments@ == old(self).segments@.push(
                Segment {
                    segment_type: SegmentType::Close,
                    x_start: 0,
                    y_start: 0,
                    x1: 0,
                    y1: 0,
                    x2: 0,
                    y2: 0,
                    x_end: 0,
                    y_end: 0,
                },
            ),
            chained(old(self).segments@) ==> chained(final(self).segments@),
            all_in_bounds(old(self).segments@) ==> all_in_bounds(final(self).segments@),
    {
        let seg = Segment {
            segment_type: SegmentType::Close,
            x_start: 0,
            y_start: 0,
            x1: 0,
            y1: 0,
            x2: 0,
            y2: 0,
            x_end: 0,
            y_end: 0,
        };
        self.segments.push(seg);
    }
}

} // verus!
