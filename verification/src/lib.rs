//! Game rules of a Boulder Dash style tile game: motion and animation state
//! machines, sprite index sequences, map parsing and the movement and digging
//! rules that run on top of a tile storage.

pub mod components;
pub mod plugins;
pub mod animate_sprites;
pub mod resources;
pub mod tile_map;
pub mod game;
pub mod diamond;
