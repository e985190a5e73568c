//! The freehand painting surface: converts per-frame pointer input into a
//! persisted sequence of polylines and reports which of them are drawn.
//!
//! A polyline is an ordered sequence of canvas-local points; the last element
//! of the sequence is the one open polyline (still receiving points), all
//! earlier ones are closed. Coordinates and stroke widths are fixed-point:
//! 1000 units stand for one logical pixel, so the host loop can hand
//! positions over without losing sub-pixel precision.

use vstd::prelude::*;

verus! {

/// A canvas-local position: a pointer coordinate relative to the top-left
/// corner of the drawing region, in fixed-point canvas units (1000 to one
/// logical pixel).
#[derive(Clone, Copy, PartialEq, Eq, Structural, Debug)]
pub struct Point {
    pub x: i64,
    pub y: i64,
}

/// A colour with four 8-bit channels.
#[derive(Clone, Copy, PartialEq, Eq, Structural, Debug)]
pub struct Color {
    pub r: u8,
    pub g: u8,
    pub b: u8,
    pub a: u8,
}

/// The style lines are drawn with: a positive width (fixed-point, 1000 to a
/// width of one) and a colour. Every polyline is redrawn each frame with the
/// current style, so a style change recolours existing lines as well.
#[derive(Clone, Copy, PartialEq, Eq, Structural, Debug)]
pub struct Stroke {
    pub width: u32,
    pub color: Color,
}

impl Stroke {
    /// A stroke style is well formed when its width is positive.
    pub open spec fn wf(&self) -> bool {
        self.width > 0
    }
}

/// The stroke a fresh painting starts with: width one, light blue.
pub open spec fn default_stroke() -> Stroke {
    Stroke { width: 1000, color: Color { r: 144, g: 209, b: 255, a: 255 } }
}

/// The painting: its polylines in draw order (the last one open, all earlier
/// ones closed) and the active stroke style.
pub struct Painting {
    pub lines: Vec<Vec<Point>>,
    pub stroke: Stroke,
}

/// The mathematical view of a polyline sequence.
pub open spec fn lines_view(lines: Seq<Vec<Point>>) -> Seq<Seq<Point>> {
    lines.map_values(|l: Vec<Point>| l@)
}

/// A sequence with one empty polyline appended where none is open yet.
pub open spec fn ensure_open(lines: Seq<Seq<Point>>) -> Seq<Seq<Point>> {
    if lines.len() == 0 {
        seq![Seq::<Point>::empty()]
    } else {
        lines
    }
}

/// The open (last) polyline extended by `p`, unless `p` equals its current
/// last point: a stationary held pointer adds no degenerate segment.
pub open spec fn append_point(lines: Seq<Seq<Point>>, p: Point) -> Seq<Seq<Point>>
    recommends
        lines.len() > 0,
{
    let open = lines.last();
    if open.len() > 0 && open.last() == p {
        lines
    } else {
        lines.update(lines.len() - 1, open.push(p))
    }
}

/// The open polyline closed by starting a fresh empty one, where it has any
/// points; an already empty open polyline stays as it is.
pub open spec fn close_open(lines: Seq<Seq<Point>>) -> Seq<Seq<Point>>
    recommends
        lines.len() > 0,
{
    if lines.last().len() > 0 {
        lines.push(Seq::<Point>::empty())
    } else {
        lines
    }
}

/// One frame of pointer input applied to the polyline sequence: make sure an
/// open polyline exists, then either extend it (pointer held inside the
/// canvas) or close it (pointer released or outside).
pub open spec fn frame_step(lines: Seq<Seq<Point>>, pointer: Option<Point>) -> Seq<Seq<Point>> {
    let l = ensure_open(lines);
    match pointer {
        Some(p) => append_point(l, p),
        None => close_open(l),
    }
}

/// The polylines that are drawn: those with at least two points, in draw
/// order. A lone point is invisible, so shorter polylines are left out.
pub open spec fn drawn_lines(lines: Seq<Seq<Point>>) -> Seq<Seq<Point>>
    decreases lines.len(),
{
    if lines.len() == 0 {
        Seq::<Seq<Point>>::empty()
    } else {
        let rest = drawn_lines(lines.drop_last());
        if lines.last().len() >= 2 {
            rest.push(lines.last())
        } else {
            rest
        }
    }
}

/// How many polylines are closed: every one but the last, which is the open
/// one; an empty painting has none.
pub open spec fn closed_count(lines: Seq<Seq<Point>>) -> int {
    if lines.len() == 0 {
        0
    } else {
        lines.len() - 1
    }
}

/// Whether the open polyline has received any points: true exactly while a
/// stroke is in progress.
pub open spec fn open_nonempty(lines: Seq<Seq<Point>>) -> bool {
    lines.len() > 0 && lines.last().len() > 0
}

/// The polyline sequence after a whole run of frames, first frame first.
pub open spec fn run(lines: Seq<Seq<Point>>, inputs: Seq<Option<Point>>) -> Seq<Seq<Point>>
    decreases inputs.len(),
{
    if inputs.len() == 0 {
        lines
    } else {
        run(frame_step(lines, inputs.first()), inputs.drop_first())
    }
}

/// How many press-to-release cycles a run of frames completes: a release
/// observed while a stroke is in progress ends one cycle. `in_progress` says
/// whether a stroke is under way as the run begins.
pub open spec fn cycles(in_progress: bool, inputs: Seq<Option<Point>>) -> int
    decreases inputs.len(),
{
    if inputs.len() == 0 {
        0
    } else {
        match inputs.first() {
            Some(_) => cycles(true, inputs.drop_first()),
            None => (if in_progress {
                1int
            } else {
                0int
            }) + cycles(false, inputs.drop_first()),
        }
    }
}

/// One frame's bookkeeping: after the frame, a stroke is in progress exactly
/// while the pointer is held, and the frame closes one polyline exactly when
/// a release ends a stroke in progress.
pub proof fn lemma_frame_step_effects(lines: Seq<Seq<Point>>, pointer: Option<Point>)
    ensures
        open_nonempty(frame_step(lines, pointer)) == pointer is Some,
        closed_count(frame_step(lines, pointer)) == closed_count(lines) + (
        if pointer is None && open_nonempty(lines) {
            1int
        } else {
            0int
        }),
{
}

/// Over any run of frames from any starting state, the number of closed
/// polylines grows by exactly the number of press-to-release cycles the run
/// completes.
pub proof fn lemma_closed_count_counts_cycles(lines: Seq<Seq<Point>>, inputs: Seq<Option<Point>>)
    ensures
        closed_count(run(lines, inputs)) == closed_count(lines) + cycles(
            open_nonempty(lines),
            inputs,
        ),
    decreases inputs.len(),
{
    if inputs.len() > 0 {
        lemma_frame_step_effects(lines, inputs.first());
        lemma_closed_count_counts_cycles(frame_step(lines, inputs.first()), inputs.drop_first());
    }
}

/// After any non-empty run of frames, the open polyline holds points exactly
/// when the run's last frame still held the pointer inside the canvas.
pub proof fn lemma_open_iff_pointer_held(lines: Seq<Seq<Point>>, inputs: Seq<Option<Point>>)
    requires
        inputs.len() > 0,
    ensures
        open_nonempty(run(lines, inputs)) == inputs.last() is Some,
    decreases inputs.len(),
{
    if inputs.len() == 1 {
        reveal_with_fuel(run, 2);
        lemma_frame_step_effects(lines, inputs.first());
        assert(inputs.last() == inputs.first());
    } else {
        lemma_open_iff_pointer_held(frame_step(lines, inputs.first()), inputs.drop_first());
        assert(inputs.drop_first().last() == inputs.last());
    }
}

/// Appending a canvas-local position equal to the open polyline's current
/// last point changes nothing: the de-duplication of a stationary held
/// pointer is idempotent.
pub proof fn lemma_duplicate_point_unchanged(lines: Seq<Seq<Point>>, p: Point)
    requires
        open_nonempty(lines),
        lines.last().last() == p,
    ensures
        frame_step(lines, Some(p)) == lines,
{
}

/// The line segments a drawn polyline is rendered as: one segment between
/// each pair of neighbouring points, so a polyline of `n >= 2` points yields
/// exactly `n - 1` segments, and a shorter one yields none.
pub fn segments(line: &Vec<Point>) -> (segs: Vec<(Point, Point)>)
    ensures
        line@.len() >= 2 ==> segs@.len() == line@.len() - 1,
        line@.len() < 2 ==> segs@.len() == 0,
        forall|k: int| 0 <= k < segs@.len() ==> segs@[k] == (line@[k], line@[k + 1]),
{
    let mut segs: Vec<(Point, Point)> = Vec::new();
    if line.len() < 2 {
        return segs;
    }
    let mut i: usize = 0;
    while i < line.len() - 1
        invariant
            line@.len() >= 2,
            i <= line@.len() - 1,
            segs@.len() == i,
            forall|k: int| 0 <= k < i ==> segs@[k] == (line@[k], line@[k + 1]),
        decreases line.len() - 1 - i,
    {
        segs.push((line[i], line[i + 1]));
        i += 1;
    }
    segs
}

/// Extending a polyline sequence by one line extends the drawn output by
/// that line exactly when it has two or more points.
proof fn lemma_drawn_lines_extend(m: Seq<Seq<Point>>, i: int)
    requires
        0 <= i < m.len(),
    ensures
        drawn_lines(m.subrange(0, i + 1)) == (if m[i].len() >= 2 {
            drawn_lines(m.subrange(0, i)).push(m[i])
        } else {
            drawn_lines(m.subrange(0, i))
        }),
{
    let s1 = m.subrange(0, i + 1);
    assert(s1.drop_last() =~= m.subrange(0, i));
    assert(s1.last() == m[i]);
}

impl Painting {
    /// The polyline sequence as a mathematical value.
    pub open spec fn polylines(&self) -> Seq<Seq<Point>> {
        lines_view(self.lines@)
    }

    /// One frame of the canvas. Makes sure an open polyline exists, appends
    /// the pointer's canvas-local position to it while the pointer is held
    /// inside the region — skipping a position equal to its last point — and
    /// closes it when the pointer is released or outside. Returns the
    /// polylines to draw, in draw order: exactly those with two or more
    /// points.
    pub fn ui_content(&mut self, pointer: Option<Point>) -> (drawn: Vec<Vec<Point>>)
        ensures
            final(self).polylines() == frame_step(old(self).polylines(), pointer),
            final(self).stroke == old(self).stroke,
            lines_view(drawn@) == drawn_lines(final(self).polylines()),
    {
        let ghost pre = self.polylines();
        if self.lines.len() == 0 {
            self.lines.push(Vec::new());
        }
        assert(self.polylines() =~= ensure_open(pre));
        let ghost opened = self.polylines();
        match pointer {
            Some(p) => {
                let mut cur = self.lines.pop().unwrap();
                assert(cur@ == opened.last());
                let n = cur.len();
                let dup = n > 0 && cur[n - 1] == p;
                if !dup {
                    cur.push(p);
                }
                self.lines.push(cur);
                assert(self.polylines() =~= append_point(opened, p));
            },
            None => {
                let n = self.lines.len();
                if self.lines[n - 1].len() > 0 {
                    self.lines.push(Vec::new());
                }
                assert(self.polylines() =~= close_open(opened));
            },
        }
        let ghost stepped = self.polylines();
        assert(stepped == frame_step(pre, pointer));

        let mut drawn: Vec<Vec<Point>> = Vec::new();
        let mut i: usize = 0;
        while i < self.lines.len()
            invariant
                i <= self.lines.len(),
                self.polylines() == stepped,
                self.stroke == old(self).stroke,
                lines_view(drawn@) == drawn_lines(stepped.subrange(0, i as int)),
            decreases self.lines.len() - i,
        {
            let line = &self.lines[i];
            if line.len() >= 2 {
                let mut copy: Vec<Point> = Vec::new();
                let mut j: usize = 0;
                while j < line.len()
                    invariant
                        j <= line.len(),
                        copy@ == line@.subrange(0, j as int),
                    decreases line.len() - j,
                {
                    copy.push(line[j]);
                    j += 1;
                }
                assert(copy@ =~= line@);
                drawn.push(copy);
                proof {
                    lemma_drawn_lines_extend(stepped, i as int);
                    assert(lines_view(drawn@) =~= drawn_lines(stepped.subrange(0, i + 1)));
                }
            } else {
                proof {
                    lemma_drawn_lines_extend(stepped, i as int);
                }
            }
            i += 1;
        }
        assert(stepped.subrange(0, stepped.len() as int) =~= stepped);
        drawn
    }

    /// The painting's control surface: a style edit (where the editor was
    /// touched this frame) and the Clear action, which discards every
    /// polyline atomically and leaves the style as it is. An edited stroke
    /// keeps a positive width.
    pub fn ui_control(&mut self, new_stroke: Option<Stroke>, clear: bool)
        requires
            new_stroke matches Some(s) ==> s.wf(),
        ensures
            final(self).stroke == (match new_stroke {
                Some(s) => s,
                None => old(self).stroke,
            }),
            final(self).polylines() == (if clear {
                Seq::<Seq<Point>>::empty()
            } else {
                old(self).polylines()
            }),
    {
        if let Some(s) = new_stroke {
            self.stroke = s;
        }
        if clear {
            self.lines.clear();
            assert(self.polylines() =~= Seq::<Seq<Point>>::empty());
        }
    }
}

impl Default for Painting {
    /// A fresh painting: no polylines, the default stroke.
    fn default() -> (p: Painting)
        ensures
            p.polylines() == Seq::<Seq<Point>>::empty(),
            p.stroke == default_stroke(),
    {
        let p = Painting {
            lines: Vec::new(),
            stroke: Stroke { width: 1000, color: Color { r: 144, g: 209, b: 255, a: 255 } },
        };
        assert(p.polylines() =~= Seq::<Seq<Point>>::empty());
        p
    }
}

} // verus!
