//! Random placement of an item inside the fixed spawn region.

use vstd::prelude::*;

use rand::Rng;

use crate::grid::GridCoordinate;
use crate::projection::{placement_of, project_cell, LayoutConfig, RenderPlacement, VisualWeight};

verus! {

/// Side of the square spawn region, in cells.
pub const SPAWN_SIDE: i32 = 10;

/// Relies on rand::Rng::gen_range over the half-open range 0..bound, on a
/// thread-local generator: the sample lies in [0, bound), and the call
/// panics only on an empty range, which the precondition rules out.
#[verifier::external_body]
fn gen_below(bound: i32) -> (r: i32)
    requires
        0 < bound,
    ensures
        0 <= r < bound,
{
    rand::thread_rng().gen_range(0..bound)
}

/// Draw a random cell inside the spawn region [0, SPAWN_SIDE)².
pub fn random_cell() -> (c: GridCoordinate)
    ensures
        0 <= c.x < SPAWN_SIDE,
        0 <= c.y < SPAWN_SIDE,
{
    GridCoordinate { x: gen_below(SPAWN_SIDE), y: gen_below(SPAWN_SIDE) }
}

/// Project a randomly drawn spawn cell: a placement for an item dropped
/// somewhere inside the spawn region, with the given visual weight.
pub fn random_placement(cfg: &LayoutConfig, w: VisualWeight) -> (p: RenderPlacement)
    ensures
        exists|c: GridCoordinate|
            0 <= c.x < SPAWN_SIDE && 0 <= c.y < SPAWN_SIDE && #[trigger] placement_of(
                c,
                *cfg,
                w,
                p,
            ),
{
    let c = random_cell();
    project_cell(c, cfg, w)
}

} // verus!
