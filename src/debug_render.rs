//! Turning a physics engine's debug render buffer into strokes to draw.
//!
//! The buffer holds points, lines and triangles, each vertex or primitive
//! carrying a packed colour. Positions are of any copyable type `P`: they are
//! handed through untouched. A point becomes a short tick at its position, a
//! line one segment coloured by its first colour, and a triangle its three
//! edges, each coloured by the colour of the vertex it was assigned to.

use vstd::prelude::*;
use crate::color_conv::{NormalizedColor, unpack_color, unpacked};

verus! {

/// A point of the debug buffer.
#[derive(Debug)]
pub struct DebugPoint<P> {
    pub pos: P,
    pub color: u32,
}

/// A line of the debug buffer, with a packed colour at each end.
#[derive(Debug)]
pub struct DebugLine<P> {
    pub pos0: P,
    pub pos1: P,
    pub color0: u32,
    pub color1: u32,
}

/// A triangle of the debug buffer, with a packed colour at each vertex.
#[derive(Debug)]
pub struct DebugTriangle<P> {
    pub pos0: P,
    pub pos1: P,
    pub pos2: P,
    pub color0: u32,
    pub color1: u32,
    pub color2: u32,
}

/// One thing to draw.
#[derive(Debug)]
pub enum Stroke<P> {
    /// A short mark that starts at `at`, standing for a single point.
    Tick { at: P, color: NormalizedColor },
    /// A straight segment from `from` to `to`.
    Segment { from: P, to: P, color: NormalizedColor },
}

pub open spec fn point_stroke<P>(p: DebugPoint<P>) -> Stroke<P> {
    Stroke::Tick { at: p.pos, color: unpacked(p.color) }
}

pub open spec fn line_stroke<P>(l: DebugLine<P>) -> Stroke<P> {
    Stroke::Segment { from: l.pos0, to: l.pos1, color: unpacked(l.color0) }
}

/// The outline of a triangle: edges 0-1, 1-2 and 0-2, coloured by the
/// colours of vertices 0, 1 and 2 in that order.
pub open spec fn triangle_strokes<P>(t: DebugTriangle<P>) -> Seq<Stroke<P>> {
    seq![
        Stroke::Segment { from: t.pos0, to: t.pos1, color: unpacked(t.color0) },
        Stroke::Segment { from: t.pos1, to: t.pos2, color: unpacked(t.color1) },
        Stroke::Segment { from: t.pos0, to: t.pos2, color: unpacked(t.color2) },
    ]
}

/// The strokes of the first `n` triangles, in buffer order.
pub open spec fn triangles_strokes<P>(ts: Seq<DebugTriangle<P>>, n: nat) -> Seq<Stroke<P>>
    decreases n,
{
    if n == 0 {
        Seq::empty()
    } else {
        triangles_strokes(ts, (n - 1) as nat) + triangle_strokes(ts[n - 1])
    }
}

/// All strokes of a buffer: its points, then its lines, then the edges of
/// its triangles, each group in buffer order.
pub open spec fn buffer_strokes<P>(
    points: Seq<DebugPoint<P>>,
    lines: Seq<DebugLine<P>>,
    triangles: Seq<DebugTriangle<P>>,
) -> Seq<Stroke<P>> {
    points.map_values(|p: DebugPoint<P>| point_stroke(p)) + lines.map_values(
        |l: DebugLine<P>| line_stroke(l),
    ) + triangles_strokes(triangles, triangles.len())
}

/// Each triangle gives exactly three strokes.
pub proof fn lemma_triangles_strokes_len<P>(ts: Seq<DebugTriangle<P>>, n: nat)
    ensures
        triangles_strokes(ts, n).len() == 3 * n,
    decreases n,
{
    if n > 0 {
        lemma_triangles_strokes_len(ts, (n - 1) as nat);
    }
}

/// Collects the strokes that draw a debug render buffer.
pub fn buffer_to_strokes<P: Copy>(
    points: &Vec<DebugPoint<P>>,
    lines: &Vec<DebugLine<P>>,
    triangles: &Vec<DebugTriangle<P>>,
) -> (r: Vec<Stroke<P>>)
    ensures
        r@ == buffer_strokes(points@, lines@, triangles@),
        r@.len() == points@.len() + lines@.len() + 3 * triangles@.len(),
{
    let mut out: Vec<Stroke<P>> = Vec::new();
    let mut i: usize = 0;
    while i < points.len()
        invariant
            i <= points.len(),
            out@ == points@.subrange(0, i as int).map_values(|p: DebugPoint<P>| point_stroke(p)),
        decreases points.len() - i,
    {
        let p = &points[i];
        out.push(Stroke::Tick { at: p.pos, color: unpack_color(p.color) });
        i = i + 1;
        assert(out@ =~= points@.subrange(0, i as int).map_values(
            |p: DebugPoint<P>| point_stroke(p),
        ));
    }
    assert(points@.subrange(0, points@.len() as int) =~= points@);
    let ghost after_points = out@;
    let mut j: usize = 0;
    while j < lines.len()
        invariant
            j <= lines.len(),
            out@ == after_points + lines@.subrange(0, j as int).map_values(
                |l: DebugLine<P>| line_stroke(l),
            ),
        decreases lines.len() - j,
    {
        let l = &lines[j];
        out.push(Stroke::Segment { from: l.pos0, to: l.pos1, color: unpack_color(l.color0) });
        j = j + 1;
        assert(out@ =~= after_points + lines@.subrange(0, j as int).map_values(
            |l: DebugLine<P>| line_stroke(l),
        ));
    }
    assert(lines@.subrange(0, lines@.len() as int) =~= lines@);
    let ghost after_lines = out@;
    let mut k: usize = 0;
    while k < triangles.len()
        invariant
            k <= triangles.len(),
            out@ == after_lines + triangles_strokes(triangles@, k as nat),
        decreases triangles.len() - k,
    {
        let t = &triangles[k];
        out.push(Stroke::Segment { from: t.pos0, to: t.pos1, color: unpack_color(t.color0) });
        out.push(Stroke::Segment { from: t.pos1, to: t.pos2, color: unpack_color(t.color1) });
        out.push(Stroke::Segment { from: t.pos0, to: t.pos2, color: unpack_color(t.color2) });
        k = k + 1;
        assert(out@ =~= after_lines + triangles_strokes(triangles@, k as nat));
    }
    proof {
        lemma_triangles_strokes_len(triangles@, triangles@.len());
    }
    out
}

} // verus!
