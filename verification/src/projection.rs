//! Spatial projection: the pure mapping from grid state to screen-space
//! placements. Read-only over the snake; never part of the simulation.

use vstd::prelude::*;

use crate::grid::GridCoordinate;
use crate::snake::Snake;

verus! {

/// Fixed screen layout, configured once for the process lifetime: the
/// screen size of one cell and the border left between neighbouring cells.
#[derive(Clone, Copy, PartialEq, Eq, Structural, Debug)]
pub struct LayoutConfig {
    pub cell_size: u16,
    pub border: u16,
}

/// Distinguishes the head's placement (primary colour) from a body part's
/// (secondary colour). Display-only; no effect on simulation state.
#[derive(Clone, Copy, PartialEq, Eq, Structural, Debug)]
pub enum VisualWeight {
    Head,
    Body,
}

/// A renderable placement: screen position, a rough z-order, and the
/// visual weight to draw with. Computed fresh on every render pass from
/// the snake's grid state; never stored back.
#[derive(Clone, Copy, PartialEq, Eq, Structural, Debug)]
pub struct RenderPlacement {
    pub x: i64,
    pub y: i64,
    pub z: i64,
    pub weight: VisualWeight,
}

/// The screen span of one grid cell: cell size plus inter-cell border.
pub open spec fn layout_scale(cfg: LayoutConfig) -> int {
    cfg.cell_size + cfg.border
}

/// Whether `p` places grid cell `c` under layout `cfg` with weight `w`:
/// screen position (x·(S+B), y·(S+B)) at z-order 1, where S is the cell
/// size and B the border.
pub open spec fn placement_of(
    c: GridCoordinate,
    cfg: LayoutConfig,
    w: VisualWeight,
    p: RenderPlacement,
) -> bool {
    &&& p.x == c.x * layout_scale(cfg)
    &&& p.y == c.y * layout_scale(cfg)
    &&& p.z == 1
    &&& p.weight == w
}

/// Whether `out` is the full projection of `s` under `cfg`: the head's
/// placement first, then one placement per body part, in chain order.
pub open spec fn snake_projection(s: Snake, cfg: LayoutConfig, out: Seq<RenderPlacement>) -> bool {
    &&& out.len() == 1 + s.body@.len()
    &&& placement_of(s.head.position, cfg, VisualWeight::Head, out[0])
    &&& forall|i: int|
        1 <= i < out.len() ==> placement_of(
            s.body@[i - 1].position,
            cfg,
            VisualWeight::Body,
            #[trigger] out[i],
        )
}

/// Project a single grid cell to its screen placement.
pub fn project_cell(c: GridCoordinate, cfg: &LayoutConfig, w: VisualWeight) -> (p: RenderPlacement)
    ensures
        placement_of(c, *cfg, w, p),
{
    let scale: i64 = cfg.cell_size as i64 + cfg.border as i64;
    proof {
        assert(-281474976710656 <= (c.x as int) * (scale as int) <= 281474976710656
            && -281474976710656 <= (c.y as int) * (scale as int) <= 281474976710656)
            by (nonlinear_arith)
            requires
                -2147483648 <= c.x as int <= 2147483647,
                -2147483648 <= c.y as int <= 2147483647,
                0 <= scale as int <= 131070,
        ;
    }
    RenderPlacement { x: (c.x as i64) * scale, y: (c.y as i64) * scale, z: 1, weight: w }
}

/// Compute draw placements for the whole snake: the head first, tagged
/// with the primary weight, then each body part in chain order, tagged
/// with the secondary weight. Borrows the snake immutably: projection can
/// never mutate simulation state.
pub fn project_snake(s: &Snake, cfg: &LayoutConfig) -> (out: Vec<RenderPlacement>)
    ensures
        snake_projection(*s, *cfg, out@),
{
    let mut out: Vec<RenderPlacement> = Vec::new();
    out.push(project_cell(s.head.position, cfg, VisualWeight::Head));
    let mut i: usize = 0;
    while i < s.body.len()
        invariant
            i <= s.body@.len(),
            out@.len() == 1 + i,
            placement_of(s.head.position, *cfg, VisualWeight::Head, out@[0]),
            forall|j: int|
                1 <= j < out@.len() ==> placement_of(
                    s.body@[j - 1].position,
                    *cfg,
                    VisualWeight::Body,
                    #[trigger] out@[j],
                ),
        decreases s.body@.len() - i,
    {
        out.push(project_cell(s.body[i].position, cfg, VisualWeight::Body));
        i += 1;
    }
    out
}

/// Determinism law: projection is a function of the snake and the layout
/// alone, so two projections of an unchanged snake under the same layout
/// are identical sequences.
pub proof fn lemma_projection_deterministic(
    s: Snake,
    cfg: LayoutConfig,
    a: Seq<RenderPlacement>,
    b: Seq<RenderPlacement>,
)
    requires
        snake_projection(s, cfg, a),
        snake_projection(s, cfg, b),
    ensures
        a == b,
{
    assert forall|i: int| 0 <= i < a.len() implies a[i] == b[i] by {
        if i == 0 {
        } else {
            assert(placement_of(s.body@[i - 1].position, cfg, VisualWeight::Body, a[i]));
            assert(placement_of(s.body@[i - 1].position, cfg, VisualWeight::Body, b[i]));
        }
    }
    assert(a =~= b);
}

} // verus!
