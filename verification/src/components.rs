use vstd::prelude::*;
use bevy::ecs::entity::Entity;

verus! {

/// Entities of the ECS world are carried through the library unchanged.
#[verifier::external_type_specification]
#[verifier::external_body]
pub struct ExEntity(Entity);

/// The plugin of the player on the tile grid; its systems run in the app.
pub struct PlayerPlugin;

/// Marks the player: the entity the camera follows and that moves on input.
pub struct Player {
    /// Bit pattern of the `f32` speed; the library never computes with it.
    pub speed_bits: u32,
    pub active: bool,
}

/// Bit pattern of the `f32` value 3.0.
pub open spec fn speed_three_bits() -> u32 {
    0x4040_0000u32
}

impl Player {
    pub fn new() -> (p: Player)
        ensures
            p.active,
            p.speed_bits == speed_three_bits(),
    {
        Player { speed_bits: 0x4040_0000u32, active: true }
    }
}

/// A diamond on the map.
pub struct Diamond {}

/// Asks for the data of a tile (its animation) to be carried onto another tile.
pub struct DataTransfer {
    pub to: Entity,
}

impl DataTransfer {
    /// For transferring the player with its data onto another tile.
    pub fn move_to(to: Entity) -> (d: DataTransfer)
        ensures
            d.to == to,
    {
        DataTransfer { to }
    }
}

/// A named sequence of sprite indices, borrowed from the sequence store.
pub struct SpriteAnimationSequence<'a> {
    pub name: String,
    pub sequence: &'a Vec<u32>,
    pub duration: u32,
}

impl<'a> SpriteAnimationSequence<'a> {
    /// The duration is the number of frames, truncated to `u32`.
    pub fn new(name: String, sequence: &'a Vec<u32>) -> (s: SpriteAnimationSequence<'a>)
        ensures
            s.name@ == name@,
            s.sequence@ == sequence@,
            s.duration == sequence@.len() as u32,
    {
        let n: usize = sequence.len();
        SpriteAnimationSequence { name, sequence, duration: n as u32 }
    }
}

/// Marks a tile that is to be dug out.
#[derive(PartialEq, Eq, Structural, Copy, Clone, Debug, Hash)]
pub struct MakeWay;

/// A step on the tile grid (or a point), in tile units. Whatever has it is to move.
#[derive(PartialEq, Eq, Structural, Copy, Clone, Debug, Hash)]
pub struct Delta {
    pub x: i32,
    pub y: i32,
}

/// The value an integer takes when converted to `i32`, or 0 when it does not fit.
pub open spec fn fit_i32(v: int) -> i32 {
    if i32::MIN <= v <= i32::MAX {
        v as i32
    } else {
        0i32
    }
}

/// The row-major index of the cell `(x, y)` in a grid `width` cells wide.
pub open spec fn grid_index(x: int, y: int, width: int) -> int {
    y * width + x
}

impl Delta {
    /// Create a new point from an x/y coordinate; a coordinate that does not
    /// fit in an `i32` becomes 0.
    pub fn new(x: i128, y: i128) -> (d: Delta)
        ensures
            d.x == fit_i32(x as int),
            d.y == fit_i32(y as int),
    {
        let dx: i32 = if i32::MIN as i128 <= x && x <= i32::MAX as i128 {
            x as i32
        } else {
            0
        };
        let dy: i32 = if i32::MIN as i128 <= y && y <= i32::MAX as i128 {
            y as i32
        } else {
            0
        };
        Delta { x: dx, y: dy }
    }

    /// Create a new point from two `i32`.
    pub fn constant(x: i32, y: i32) -> (d: Delta)
        ensures
            d.x == x,
            d.y == y,
    {
        Delta { x, y }
    }

    /// Create a zero point.
    pub fn zero() -> (d: Delta)
        ensures
            d.x == 0,
            d.y == 0,
    {
        Delta { x: 0, y: 0 }
    }

    /// Create a point from a tuple of two coordinates, as `new` does.
    pub fn from_tuple(t: (i128, i128)) -> (d: Delta)
        ensures
            d.x == fit_i32(t.0 as int),
            d.y == fit_i32(t.1 as int),
    {
        Delta::new(t.0, t.1)
    }

    /// Helper for map index conversion: the row-major index of this point in a
    /// grid `width` cells wide.
    pub fn to_index(self, width: i128) -> (i: usize)
        requires
            self.x >= 0,
            self.y >= 0,
            0 <= width <= usize::MAX,
            grid_index(self.x as int, self.y as int, width as int) <= usize::MAX,
        ensures
            i as int == grid_index(self.x as int, self.y as int, width as int),
    {
        let x: usize = self.x as usize;
        let y: usize = self.y as usize;
        let w: usize = width as usize;
        assert(0 <= y * w <= y * w + x) by (nonlinear_arith)
            requires
                y >= 0,
                w >= 0,
                x >= 0,
        ;
        (y * w) + x
    }

    /// Converts the point to an `i32` tuple.
    pub fn to_tuple(self) -> (t: (i32, i32))
        ensures
            t == (self.x, self.y),
    {
        (self.x, self.y)
    }

    /// Converts the point to a `usize` tuple.
    pub fn to_unsigned_tuple(self) -> (t: (usize, usize))
        requires
            self.x >= 0,
            self.y >= 0,
        ensures
            t.0 as int == self.x as int,
            t.1 as int == self.y as int,
    {
        (self.x as usize, self.y as usize)
    }
}

impl From<(i32, i32)> for Delta {
    fn from(item: (i32, i32)) -> (d: Delta) {
        Delta { x: item.0, y: item.1 }
    }
}

impl vstd::std_specs::convert::FromSpecImpl<(i32, i32)> for Delta {
    open spec fn obeys_from_spec() -> bool {
        true
    }

    open spec fn from_spec(item: (i32, i32)) -> Delta {
        Delta { x: item.0, y: item.1 }
    }
}

/// The step taken in the previous frame.
#[derive(PartialEq, Eq, Structural, Copy, Clone, Debug, Hash)]
pub struct PreviousDelta(pub Delta);

/// An entity's wish to move to a destination.
pub struct WantsToMove {
    entity: Entity,
    destination: Delta,
}

/// Building a point from coordinates that fit in `i32` keeps them: `new` and
/// `from_tuple` then agree with `constant`.
pub proof fn lemma_fit_i32_keeps_in_range(x: i32, y: i32)
    ensures
        fit_i32(x as int) == x,
        fit_i32(y as int) == y,
{
}

/// The row-major index of a cell inside a row of `width` cells gives back the
/// cell: its remainder by the width is the column and its quotient the row.
pub proof fn lemma_grid_index_inverse(x: int, y: int, width: int)
    requires
        0 <= x < width,
        0 <= y,
    ensures
        grid_index(x, y, width) % width == x,
        grid_index(x, y, width) / width == y,
{
    vstd::arithmetic::div_mod::lemma_fundamental_div_mod_converse(
        grid_index(x, y, width),
        width,
        y,
        x,
    );
}

/// A coordinate outside the `i32` range becomes 0.
pub proof fn lemma_fit_i32_out_of_range(v: int)
    requires
        v < i32::MIN || v > i32::MAX,
    ensures
        fit_i32(v) == 0,
{
}

} // verus!
