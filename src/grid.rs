//! Layout of the reference floor grid.
//!
//! The grid is `width` by `depth` unit cells. Across each axis it has one main
//! line per unit, from 0 to the extent inclusive, and past the last main line
//! a fan of finer sub-lines, one for each step of `1 / SUBDIVISIONS` strictly
//! between that line and the next unit. Coordinates here are grid-relative
//! and exact; placing them in the world is left to the renderer.

use vstd::prelude::*;

verus! {

/// Number of steps a unit is divided into for the sub-lines.
pub const SUBDIVISIONS: u32 = 10;

/// The axis along which a family of grid lines is laid out.
#[derive(Clone, Copy, Debug, PartialEq, Eq, Structural)]
pub enum GridAxis {
    /// Lines placed along the X axis, each running parallel to Z.
    X,
    /// Lines placed along the Z axis, each running parallel to X.
    Z,
}

/// How strongly a grid line is drawn.
#[derive(Clone, Copy, Debug, PartialEq, Eq, Structural)]
pub enum GridShade {
    Main,
    Sub,
}

/// A grid line at coordinate `index + step / SUBDIVISIONS` along `axis`.
#[derive(Clone, Copy, Debug, PartialEq, Eq, Structural)]
pub struct GridLine {
    pub axis: GridAxis,
    pub index: u32,
    pub step: u32,
    pub shade: GridShade,
}

pub open spec fn main_line(axis: GridAxis, index: u32) -> GridLine {
    GridLine { axis, index, step: 0, shade: GridShade::Main }
}

pub open spec fn sub_line(axis: GridAxis, index: u32, step: u32) -> GridLine {
    GridLine { axis, index, step, shade: GridShade::Sub }
}

/// The lines laid out along `axis` for an extent of `extent` units: main
/// lines `0..=extent`, then sub-lines at steps `1..SUBDIVISIONS` past the
/// last main line.
pub open spec fn axis_lines(axis: GridAxis, extent: u32) -> Seq<GridLine> {
    Seq::new((extent + 1) as nat, |i: int| main_line(axis, i as u32)) + Seq::new(
        (SUBDIVISIONS - 1) as nat,
        |s: int| sub_line(axis, extent, (s + 1) as u32),
    )
}

/// The whole grid: the lines along X, then those along Z.
pub open spec fn grid_lines(width: u32, depth: u32) -> Seq<GridLine> {
    axis_lines(GridAxis::X, width) + axis_lines(GridAxis::Z, depth)
}

fn push_axis_lines(out: &mut Vec<GridLine>, axis: GridAxis, extent: u32)
    ensures
        final(out)@ == old(out)@ + axis_lines(axis, extent),
{
    let ghost start = out@;
    let mut i: u32 = 0;
    while i < extent
        invariant
            i <= extent,
            out@ == start + Seq::new(i as nat, |k: int| main_line(axis, k as u32)),
        decreases extent - i,
    {
        out.push(GridLine { axis, index: i, step: 0, shade: GridShade::Main });
        i = i + 1;
        assert(out@ =~= start + Seq::new(i as nat, |k: int| main_line(axis, k as u32)));
    }
    out.push(GridLine { axis, index: extent, step: 0, shade: GridShade::Main });
    let ghost mains = out@;
    assert(mains =~= start + Seq::new((extent + 1) as nat, |k: int| main_line(axis, k as u32)));
    let mut s: u32 = 1;
    while s < SUBDIVISIONS
        invariant
            1 <= s <= SUBDIVISIONS,
            out@ == mains + Seq::new((s - 1) as nat, |k: int| sub_line(axis, extent, (k + 1) as u32)),
        decreases SUBDIVISIONS - s,
    {
        out.push(GridLine { axis, index: extent, step: s, shade: GridShade::Sub });
        s = s + 1;
        assert(out@ =~= mains + Seq::new(
            (s - 1) as nat,
            |k: int| sub_line(axis, extent, (k + 1) as u32),
        ));
    }
    assert(out@ =~= start + axis_lines(axis, extent));
}

/// The lines of a reference grid of `width` by `depth` unit cells.
pub fn reference_grid(width: u32, depth: u32) -> (r: Vec<GridLine>)
    ensures
        r@ == grid_lines(width, depth),
        r@.len() == width + depth + 2 * SUBDIVISIONS,
{
    let mut out: Vec<GridLine> = Vec::new();
    push_axis_lines(&mut out, GridAxis::X, width);
    push_axis_lines(&mut out, GridAxis::Z, depth);
    assert(out@ =~= grid_lines(width, depth));
    out
}

} // verus!
