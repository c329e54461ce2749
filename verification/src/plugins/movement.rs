use vstd::prelude::*;
use bevy_ecs_tilemap::tiles::{TilePos, TileStorage};
use crate::components::Delta;
use crate::tile_map::TileType;

verus! {

/// The plugin that moves whatever has a step to take.
pub struct MovementPlugin;

/// The tile storage of a tile map, which finds a tile's entity by position.
#[verifier::external_type_specification]
#[verifier::external_body]
pub struct ExTileStorage(TileStorage);

/// The entities a tile storage holds, row by row, each by its `Entity::to_bits`
/// value; `None` where no entity is set.
pub uninterp spec fn tile_storage_entities(storage: TileStorage) -> Seq<Option<u64>>;

/// The size of the tile map a tile storage is for: columns, then rows.
pub uninterp spec fn tile_storage_size(storage: TileStorage) -> (u32, u32);

/// `TileStorage::size`, read from the public field: the map's columns and rows.
#[verifier::external_body]
fn storage_size(storage: &TileStorage) -> (r: (u32, u32))
    ensures
        r == tile_storage_size(*storage),
{
    (storage.size.x, storage.size.y)
}

/// The number of tile slots: `TileStorage::iter` yields each slot once.
#[verifier::external_body]
fn storage_slot_count(storage: &TileStorage) -> (n: usize)
    ensures
        n == tile_storage_entities(*storage).len(),
{
    storage.iter().count()
}

/// `TileStorage::get` at `(x, y)`: the entity in slot `y * columns + x`, as its
/// `to_bits` value. The slot index is computed in `u32` and must lie among the
/// slots, else `get` panics.
#[verifier::external_body]
fn storage_get(storage: &TileStorage, x: u32, y: u32) -> (r: Option<u64>)
    requires
        y * tile_storage_size(*storage).0 + x <= u32::MAX,
        y * tile_storage_size(*storage).0 + x < tile_storage_entities(*storage).len(),
    ensures
        r == tile_storage_entities(*storage)[y * tile_storage_size(*storage).0 + x],
{
    match storage.get(&TilePos { x, y }) {
        Some(e) => Some(e.to_bits()),
        None => None,
    }
}

/// The tile a step leads to, computed as the game does: the position is taken
/// as `i32`, the step added, and the sum taken back as `u32`.
pub open spec fn destination_of(pos_x: u32, pos_y: u32, delta: Delta) -> (u32, u32) {
    (((pos_x as i32) + delta.x) as u32, ((pos_y as i32) + delta.y) as u32)
}

/// Whether the sums of `destination_of` do not overflow `i32`.
pub open spec fn step_fits(pos_x: u32, pos_y: u32, delta: Delta) -> bool {
    &&& i32::MIN <= (pos_x as i32) + delta.x <= i32::MAX
    &&& i32::MIN <= (pos_y as i32) + delta.y <= i32::MAX
}

/// The tile a step leads to.
pub fn destination(pos_x: u32, pos_y: u32, delta: Delta) -> (d: (u32, u32))
    requires
        step_fits(pos_x, pos_y, delta),
    ensures
        d == destination_of(pos_x, pos_y, delta),
        pos_x <= i32::MAX && pos_x + delta.x >= 0 ==> d.0 == pos_x + delta.x,
        pos_y <= i32::MAX && pos_y + delta.y >= 0 ==> d.1 == pos_y + delta.y,
{
    let x: i32 = #[verifier::truncate] (pos_x as i32);
    let y: i32 = #[verifier::truncate] (pos_y as i32);
    let sx: i32 = x + delta.x;
    let sy: i32 = y + delta.y;
    (#[verifier::truncate] (sx as u32), #[verifier::truncate] (sy as u32))
}

/// The slot of a storage that the tile `(x, y)` is kept in.
pub open spec fn slot_of(storage: TileStorage, x: u32, y: u32) -> int {
    y * tile_storage_size(storage).0 + x
}

/// Whether `TileStorage::get` can look up the tile `(x, y)` without panicking.
pub open spec fn slot_in_storage(storage: TileStorage, x: u32, y: u32) -> bool {
    &&& slot_of(storage, x, y) <= u32::MAX
    &&& slot_of(storage, x, y) < tile_storage_entities(storage).len()
}

/// The entity (by its bits) on the tile that a step from `(pos_x, pos_y)` leads to.
pub fn movement_target(storage: &TileStorage, pos_x: u32, pos_y: u32, delta: Delta) -> (t: Option<u64>)
    requires
        step_fits(pos_x, pos_y, delta),
        slot_in_storage(
            *storage,
            destination_of(pos_x, pos_y, delta).0,
            destination_of(pos_x, pos_y, delta).1,
        ),
    ensures
        t == tile_storage_entities(*storage)[slot_of(
            *storage,
            destination_of(pos_x, pos_y, delta).0,
            destination_of(pos_x, pos_y, delta).1,
        )],
{
    let (x, y) = destination(pos_x, pos_y, delta);
    storage_get(storage, x, y)
}

/// The entity on the tile that a step leads to, or `None` when the step or the
/// lookup would overflow or the tile lies past the storage's slots (where
/// `movement_target` may not be called).
pub fn checked_movement_target(storage: &TileStorage, pos_x: u32, pos_y: u32, delta: Delta) -> (t: Option<u64>)
    ensures
        !step_fits(pos_x, pos_y, delta) ==> t is None,
        step_fits(pos_x, pos_y, delta) ==> {
            let (x, y) = destination_of(pos_x, pos_y, delta);
            if slot_in_storage(*storage, x, y) {
                t == tile_storage_entities(*storage)[slot_of(*storage, x, y)]
            } else {
                t is None
            }
        },
{
    let x: i32 = #[verifier::truncate] (pos_x as i32);
    let y: i32 = #[verifier::truncate] (pos_y as i32);
    let sx: i64 = x as i64 + delta.x as i64;
    let sy: i64 = y as i64 + delta.y as i64;
    if sx < i32::MIN as i64 || sx > i32::MAX as i64 || sy < i32::MIN as i64 || sy > i32::MAX as i64 {
        return None;
    }
    let (dx, dy) = destination(pos_x, pos_y, delta);
    let (columns, _rows) = storage_size(storage);
    let (a, b, c) = (dy as u64, columns as u64, dx as u64);
    assert(a * b + c <= u64::MAX) by (nonlinear_arith)
        requires
            a <= u32::MAX,
            b <= u32::MAX,
            c <= u32::MAX,
    ;
    let slot: u64 = a * b + c;
    let slots = storage_slot_count(storage);
    if slot > u32::MAX as u64 || slot >= slots as u64 {
        return None;
    }
    storage_get(storage, dx, dy)
}

/// What the mover does about the tile it wants to enter.
#[derive(PartialEq, Eq, Structural, Copy, Clone, Debug)]
pub enum MoveAction {
    /// Nothing happens.
    Stay,
    /// The target tile (by its entity bits) is marked to be dug out.
    MakeWay(u64),
    /// The player leaves tile `from` for tile `to` (both by their entity bits).
    Enter { from: u64, to: u64 },
}

/// What moving onto a tile does: dirt is marked to be dug out, a tunnel is
/// entered, anything else stops the mover. A target whose tile type is unknown,
/// or that is already marked to be dug, stops it too.
pub open spec fn move_action_for(mover: u64, target: u64, target_tile: Option<TileType>) -> MoveAction {
    match target_tile {
        Some(TileType::Dirt) => MoveAction::MakeWay(target),
        Some(TileType::Tunnel) => MoveAction::Enter { from: mover, to: target },
        _ => MoveAction::Stay,
    }
}

/// What moving onto a tile does.
pub fn movement_action(mover: u64, target: u64, target_tile: Option<TileType>) -> (a: MoveAction)
    ensures
        a == move_action_for(mover, target, target_tile),
{
    match target_tile {
        Some(TileType::Dirt) => MoveAction::MakeWay(target),
        Some(TileType::Tunnel) => MoveAction::Enter { from: mover, to: target },
        _ => MoveAction::Stay,
    }
}

/// An entity that has a step to take, with its tile position and whether it is
/// the player.
#[derive(PartialEq, Eq, Structural, Copy, Clone, Debug)]
pub struct MoveCandidate {
    pub entity: u64,
    pub pos_x: u32,
    pub pos_y: u32,
    pub delta: Delta,
    pub is_player: bool,
}

/// The index of the last candidate that is the player, as a pass over all of
/// them that remembers each player it meets would end with.
pub fn select_mover(candidates: &Vec<MoveCandidate>) -> (r: Option<usize>)
    ensures
        r is None <==> forall|i: int| 0 <= i < candidates@.len() ==> !(#[trigger] candidates@[i]).is_player,
        r matches Some(k) ==> {
            &&& k < candidates@.len()
            &&& candidates@[k as int].is_player
            &&& forall|j: int| k < j < candidates@.len() ==> !(#[trigger] candidates@[j]).is_player
        },
{
    let mut found: Option<usize> = None;
    let n = candidates.len();
    for i in 0..n
        invariant
            n == candidates@.len(),
            found is None <==> forall|j: int| 0 <= j < i ==> !(#[trigger] candidates@[j]).is_player,
            found matches Some(k) ==> {
                &&& k < i
                &&& candidates@[k as int].is_player
                &&& forall|j: int| k < j < i ==> !(#[trigger] candidates@[j]).is_player
            },
    {
        if candidates[i].is_player {
            found = Some(i);
        }
    }
    found
}

/// Only a tunnel can be entered and only dirt is dug; walls, boulders,
/// diamonds, exits and entrances stop the mover.
pub proof fn lemma_only_tunnels_are_entered(mover: u64, target: u64, tile: TileType)
    ensures
        move_action_for(mover, target, Some(tile)) is Enter <==> tile == TileType::Tunnel,
        move_action_for(mover, target, Some(tile)) is MakeWay <==> tile == TileType::Dirt,
        move_action_for(mover, target, None) == MoveAction::Stay,
{
}

/// Digging is what lets the player through dirt: a step onto dirt marks it to
/// be dug, and once the tile is dug out the same step enters it.
pub proof fn lemma_dig_then_enter(mover: u64, target: u64)
    ensures
        move_action_for(mover, target, Some(TileType::Dirt)) == MoveAction::MakeWay(target),
        move_action_for(mover, target, Some(TileType::Tunnel)) == (MoveAction::Enter {
            from: mover,
            to: target,
        }),
{
}

/// A step that stays on the map's non-negative coordinates lands where the
/// position plus the step says.
pub proof fn lemma_destination_adds(pos_x: u32, pos_y: u32, delta: Delta)
    requires
        pos_x <= i32::MAX,
        pos_y <= i32::MAX,
        0 <= pos_x + delta.x <= i32::MAX,
        0 <= pos_y + delta.y <= i32::MAX,
    ensures
        destination_of(pos_x, pos_y, delta) == ((pos_x + delta.x) as u32, (pos_y + delta.y) as u32),
        destination_of(pos_x, pos_y, delta).0 == pos_x + delta.x,
        destination_of(pos_x, pos_y, delta).1 == pos_y + delta.y,
{
}

} // verus!
