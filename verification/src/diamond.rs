use vstd::prelude::*;

verus! {

/// The plugin of diamonds; diamonds are animated by the tile animation systems.
pub struct DiamondPlugin;

/// A diamond on the map.
pub struct Diamond {}

} // verus!
