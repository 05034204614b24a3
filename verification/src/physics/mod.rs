//! Physical behaviour of the world's tiles.
use vstd::prelude::*;
use crate::worldgen::terrain::{tile_heavy, tile_solid, Tile};

pub mod liquid;
pub mod stone;

verus! {

/// Whether a thing blocks movement and whether it falls.
pub trait PhysicsActor {
    fn solid(&self) -> bool;
    fn heavy(&self) -> bool;
}

/// How many tiles at the front of `adj` are solid.
pub open spec fn leading_solid(adj: Seq<Tile>) -> nat
    decreases adj.len(),
{
    if adj.len() > 0 && tile_solid(adj[0]) {
        1 + leading_solid(adj.drop_first())
    } else {
        0
    }
}

/// A tile falls when nothing solid is below it, it is not a heavy tile
/// under something solid, and fewer than two of its leading neighbours are
/// solid.
pub open spec fn spec_unsupported(tile: Tile, adj: Seq<Tile>, above: Tile, below: Tile) -> bool {
    !tile_solid(below) && (!tile_solid(above) || !tile_heavy(tile)) && leading_solid(adj) < 2
}

pub fn unsupported(tile: Tile, adj: Vec<Tile>, above: Tile, below: Tile) -> (r: bool)
    ensures
        r == spec_unsupported(tile, adj@, above, below),
{
    let mut solid_cnt: usize = 0;
    let mut i: usize = 0;
    assert(adj@.skip(0) =~= adj@);
    while i < adj.len() && adj[i].solid()
        invariant
            i <= adj@.len(),
            solid_cnt == i,
            forall|j: int| 0 <= j < i ==> tile_solid(#[trigger] adj@[j]),
            leading_solid(adj@) == i + leading_solid(adj@.skip(i as int)),
        decreases adj@.len() - i,
    {
        assert(adj@.skip(i as int).drop_first() =~= adj@.skip(i + 1));
        solid_cnt += 1;
        i += 1;
    }
    !below.solid() && (!above.solid() || !tile.heavy()) && solid_cnt < 2
}


/// Runs the physics of the world for `dt` minutes: nothing falls or flows
/// yet, so the world is left as it is.
pub fn run(ws: &mut crate::worldgen::state::WorldState, dt: usize)
    ensures
        *final(ws) == *old(ws),
{
}

} // verus!
