use vstd::prelude::*;
use crate::tile_map::TileType;

verus! {

/// Digs out a tile: whatever it held, it becomes a tunnel.
pub fn dig(tile_type: &mut TileType)
    ensures
        *final(tile_type) == TileType::Tunnel,
{
    *tile_type = TileType::Tunnel;
}

} // verus!
