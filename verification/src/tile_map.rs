use vstd::prelude::*;

verus! {

/// Width of the tile map the game starts with, in tiles.
pub const TILEMAP_WIDTH: u32 = 18;

/// Height of the tile map the game starts with, in tiles.
pub const TILEMAP_HEIGHT: u32 = 8;

/// A tile showing a sprite of the atlas.
#[allow(non_snake_case)]
pub struct Tile {
    pub spriteAtlasIndex: u32,
}

/// Marks a tile that nothing can walk through.
pub struct TileCollider;

/// What lies on a tile.
#[derive(PartialEq, Eq, Structural, Copy, Clone, Debug)]
pub enum TileType {
    Wall,
    Dirt,
    Tunnel,
    Boulder,
    Diamond,
    Exit,
    Entrance,
    Player,
}

/// The sprite of the atlas that shows a tile type.
pub open spec fn sprite_index_of(t: TileType) -> u32 {
    match t {
        TileType::Wall => 32,
        TileType::Dirt => 33,
        TileType::Tunnel => 36,
        TileType::Player => 0,
        TileType::Diamond => 40,
        _ => 33,
    }
}

/// Gives the sprite of the atlas that shows a thing.
pub trait SpriteIndex {
    fn get_sprite_index(&self) -> u32;
}

impl SpriteIndex for TileType {
    fn get_sprite_index(&self) -> (i: u32)
        ensures
            i == sprite_index_of(*self),
    {
        match self {
            TileType::Wall => 32,
            TileType::Dirt => 33,
            TileType::Tunnel => 36,
            TileType::Player => 0,
            TileType::Diamond => 40,
            _ => 33,
        }
    }
}

/// The tile type a character of a map file stands for.
pub open spec fn tile_type_for_char(c: char) -> TileType {
    if c == '#' {
        TileType::Wall
    } else if c == '.' {
        TileType::Dirt
    } else if c == '_' {
        TileType::Tunnel
    } else if c == 'R' {
        TileType::Player
    } else if c == '*' {
        TileType::Diamond
    } else {
        TileType::Dirt
    }
}

/// The tile type a character of a map file stands for: `#` wall, `.` dirt,
/// `_` tunnel, `R` Rockford, `*` diamond; anything else is dirt.
pub fn tile_type_from_char(c: char) -> (t: TileType)
    ensures
        t == tile_type_for_char(c),
{
    match c {
        '#' => TileType::Wall,
        '.' => TileType::Dirt,
        '_' => TileType::Tunnel,
        'R' => TileType::Player,
        '*' => TileType::Diamond,
        _ => TileType::Dirt,
    }
}

/// The sprite a character of a map file is drawn with on the sprite map.
pub open spec fn sprite_for_char(c: char) -> u32 {
    if c == '#' {
        32
    } else if c == '.' {
        33
    } else {
        36
    }
}

/// The sprite a character of a map file is drawn with: `#` 32, `.` 33, else 36.
pub fn sprite_index_for_char(c: char) -> (i: u32)
    ensures
        i == sprite_for_char(c),
{
    match c {
        '#' => 32,
        '.' => 33,
        '_' => 36,
        _ => 36,
    }
}

/// Whether the tile a character stands for blocks movement: only walls do.
pub fn is_collider_char(c: char) -> (b: bool)
    ensures
        b == (c == '#'),
{
    c == '#'
}

/// The tile types of one line of a map file.
pub open spec fn row_tiles(line: Seq<char>) -> Seq<TileType> {
    line.map_values(|c: char| tile_type_for_char(c))
}

/// The tile types of a map file, line by line: row `y` holds the tiles of line `y`.
pub fn parse_map(lines: &Vec<Vec<char>>) -> (map: Vec<Vec<TileType>>)
    ensures
        map@.len() == lines@.len(),
        forall|y: int| 0 <= y < lines@.len() ==> #[trigger] map@[y]@ == row_tiles(lines@[y]@),
{
    let mut map: Vec<Vec<TileType>> = Vec::new();
    let n = lines.len();
    for y in 0..n
        invariant
            n == lines@.len(),
            map@.len() == y,
            forall|k: int| 0 <= k < y ==> #[trigger] map@[k]@ == row_tiles(lines@[k]@),
    {
        let line = &lines[y];
        let m = line.len();
        let mut row: Vec<TileType> = Vec::new();
        for x in 0..m
            invariant
                m == line@.len(),
                row@.len() == x,
                forall|k: int| 0 <= k < x ==> #[trigger] row@[k] == tile_type_for_char(line@[k]),
        {
            row.push(tile_type_from_char(line[x]));
        }
        assert(row@ =~= row_tiles(line@));
        map.push(row);
    }
    map
}

/// The tile at row `row` and column `col` of a parsed map, if the map has one there.
pub open spec fn tile_at_spec(map: Seq<Seq<TileType>>, row: int, col: int) -> Option<TileType> {
    if 0 <= row < map.len() && 0 <= col < map[row].len() {
        Some(map[row][col])
    } else {
        None
    }
}

/// The tile at row `row` and column `col` of a parsed map, if the map has one there.
pub fn tile_at(map: &Vec<Vec<TileType>>, row: u32, col: u32) -> (t: Option<TileType>)
    ensures
        t == tile_at_spec(map@.map_values(|r: Vec<TileType>| r@), row as int, col as int),
{
    let r: usize = row as usize;
    let c: usize = col as usize;
    if r < map.len() && c < map[r].len() {
        Some(map[r][c])
    } else {
        None
    }
}

/// The rows of a parsed map as sequences.
pub open spec fn map_rows(map: Seq<Vec<TileType>>) -> Seq<Seq<TileType>> {
    map.map_values(|r: Vec<TileType>| r@)
}

/// The tile that the start map puts at tile position `(x, y)`: line 0 of the
/// map file is the top row, so position `y` reads line `7 - y`.
pub open spec fn start_tile(map: Seq<Seq<TileType>>, x: int, y: int) -> Option<TileType> {
    tile_at_spec(map, (TILEMAP_HEIGHT - 1) - y, x)
}

/// A tile to spawn at the start of the game.
#[derive(PartialEq, Eq, Structural, Copy, Clone, Debug)]
pub struct TileSpawn {
    pub x: u32,
    pub y: u32,
    pub tile: TileType,
    pub texture_index: u32,
}

/// The place of a position in the order in which the start map is spawned:
/// column by column, bottom to top.
pub open spec fn spawn_order(x: int, y: int) -> int {
    x * TILEMAP_HEIGHT + y
}

/// The tiles to spawn at the start, for every position of the 18 by 8 tile map
/// that the map file has a tile for, in spawn order, each with its sprite.
pub fn startup_tiles(map: &Vec<Vec<TileType>>) -> (spawns: Vec<TileSpawn>)
    ensures
        forall|i: int|
            0 <= i < spawns@.len() ==> {
                let s = #[trigger] spawns@[i];
                &&& s.x < TILEMAP_WIDTH
                &&& s.y < TILEMAP_HEIGHT
                &&& start_tile(map_rows(map@), s.x as int, s.y as int) == Some(s.tile)
                &&& s.texture_index == sprite_index_of(s.tile)
            },
        forall|i: int, j: int|
            0 <= i < j < spawns@.len() ==> spawn_order(spawns@[i].x as int, spawns@[i].y as int)
                < spawn_order(spawns@[j].x as int, spawns@[j].y as int),
        forall|x: int, y: int|
            0 <= x < TILEMAP_WIDTH && 0 <= y < TILEMAP_HEIGHT && (#[trigger] start_tile(
                map_rows(map@),
                x,
                y,
            )) is Some ==> exists|i: int|
                0 <= i < spawns@.len() && spawns@[i].x == x && spawns@[i].y == y,
{
    let mut spawns: Vec<TileSpawn> = Vec::new();
    let ghost rows = map_rows(map@);
    for x in 0..TILEMAP_WIDTH
        invariant
            rows == map_rows(map@),
            forall|i: int|
                0 <= i < spawns@.len() ==> {
                    let s = #[trigger] spawns@[i];
                    &&& s.x < x
                    &&& s.y < TILEMAP_HEIGHT
                    &&& start_tile(rows, s.x as int, s.y as int) == Some(s.tile)
                    &&& s.texture_index == sprite_index_of(s.tile)
                },
            forall|i: int, j: int|
                0 <= i < j < spawns@.len() ==> spawn_order(spawns@[i].x as int, spawns@[i].y as int)
                    < spawn_order(spawns@[j].x as int, spawns@[j].y as int),
            forall|cx: int, cy: int|
                0 <= cx < x && 0 <= cy < TILEMAP_HEIGHT && (#[trigger] start_tile(rows, cx, cy)) is Some
                    ==> exists|i: int| 0 <= i < spawns@.len() && spawns@[i].x == cx && spawns@[i].y == cy,
    {
        for y in 0..TILEMAP_HEIGHT
            invariant
                rows == map_rows(map@),
                0 <= x < TILEMAP_WIDTH,
                forall|i: int|
                    0 <= i < spawns@.len() ==> {
                        let s = #[trigger] spawns@[i];
                        &&& spawn_order(s.x as int, s.y as int) < spawn_order(x as int, y as int)
                        &&& s.x <= x
                        &&& s.y < TILEMAP_HEIGHT
                        &&& start_tile(rows, s.x as int, s.y as int) == Some(s.tile)
                        &&& s.texture_index == sprite_index_of(s.tile)
                    },
                forall|i: int, j: int|
                    0 <= i < j < spawns@.len() ==> spawn_order(spawns@[i].x as int, spawns@[i].y as int)
                        < spawn_order(spawns@[j].x as int, spawns@[j].y as int),
                forall|cx: int, cy: int|
                    0 <= cy < TILEMAP_HEIGHT && (0 <= cx < x || (cx == x && 0 <= cy < y)) && (#[trigger] start_tile(rows, cx, cy)) is Some
                        ==> exists|i: int| 0 <= i < spawns@.len() && spawns@[i].x == cx && spawns@[i].y == cy,
        {
            let found = tile_at(map, (TILEMAP_HEIGHT - 1) - y, x);
            if let Some(tile) = found {
                let texture_index = tile.get_sprite_index();
                let ghost before = spawns@;
                spawns.push(TileSpawn { x, y, tile, texture_index });
                assert(spawns@[spawns@.len() - 1].x == x && spawns@[spawns@.len() - 1].y == y);
                assert forall|cx: int, cy: int|
                    0 <= cy < TILEMAP_HEIGHT && (0 <= cx < x || (cx == x && 0 <= cy < y + 1)) && (#[trigger] start_tile(rows, cx, cy)) is Some
                    implies exists|i: int| 0 <= i < spawns@.len() && spawns@[i].x == cx && spawns@[i].y == cy by {
                    if cx == x && cy == y {
                        assert(spawns@[spawns@.len() - 1].x == cx);
                    } else {
                        let i = choose|i: int| 0 <= i < before.len() && before[i].x == cx && before[i].y == cy;
                        assert(spawns@[i] == before[i]);
                    }
                }
            }
        }
    }
    spawns
}

/// Reading a parsed map gives the tile type of the character at that place of
/// the file, and nothing past the end of a line or of the file.
pub proof fn lemma_parsed_map_lookup(lines: Seq<Seq<char>>, map: Seq<Seq<TileType>>, row: int, col: int)
    requires
        map.len() == lines.len(),
        forall|y: int| 0 <= y < lines.len() ==> #[trigger] map[y] == row_tiles(lines[y]),
    ensures
        tile_at_spec(map, row, col) == (if 0 <= row < lines.len() && 0 <= col < lines[row].len() {
            Some(tile_type_for_char(lines[row][col]))
        } else {
            None
        }),
{
    if 0 <= row < lines.len() {
        assert(map[row] == row_tiles(lines[row]));
    }
}

/// The random sprite offset of a tile: 0 for an even seed, else the scaled
/// random draw (a number of tenths) modulo 5.
pub fn random_index_from_draw(seed: u32, scaled_draw: u32) -> (i: u32)
    ensures
        i == (if seed % 2 == 0 { 0 } else { scaled_draw % 5 }),
        i < 5,
{
    if seed % 2u32 == 0 {
        0u32
    } else {
        scaled_draw % 5
    }
}

/// Each tile type is drawn with its own sprite: walls 32, dirt 33, tunnels 36,
/// Rockford 0, diamonds 40, and everything else like dirt.
pub proof fn lemma_sprites_of_tile_types()
    ensures
        sprite_index_of(TileType::Wall) == 32,
        sprite_index_of(TileType::Dirt) == 33,
        sprite_index_of(TileType::Tunnel) == 36,
        sprite_index_of(TileType::Player) == 0,
        sprite_index_of(TileType::Diamond) == 40,
        sprite_index_of(TileType::Boulder) == 33,
        sprite_index_of(TileType::Exit) == 33,
        sprite_index_of(TileType::Entrance) == 33,
{
}

/// The map file's characters: `#` wall, `.` dirt, `_` tunnel, `R` Rockford,
/// `*` diamond, and dirt for any other character; on the sprite map a wall,
/// dirt or tunnel character is drawn with the sprite of its tile type.
pub proof fn lemma_map_characters(c: char)
    ensures
        tile_type_for_char('#') == TileType::Wall,
        tile_type_for_char('.') == TileType::Dirt,
        tile_type_for_char('_') == TileType::Tunnel,
        tile_type_for_char('R') == TileType::Player,
        tile_type_for_char('*') == TileType::Diamond,
        c != '#' && c != '.' && c != '_' && c != 'R' && c != '*' ==> tile_type_for_char(c)
            == TileType::Dirt,
        sprite_for_char(c) == (if c == '#' { 32u32 } else if c == '.' { 33u32 } else { 36u32 }),
        (c == '#' || c == '.' || c == '_') ==> sprite_for_char(c) == sprite_index_of(
            tile_type_for_char(c),
        ),
{
}

/// Position `(x, y)` of the start map reads line `7 - y` of the map file, at
/// column `x`.
pub proof fn lemma_start_tile_reads_bottom_up(map: Seq<Seq<TileType>>, x: int, y: int)
    requires
        0 <= y < TILEMAP_HEIGHT,
        0 <= x,
        7 - y < map.len(),
        x < map[7 - y].len(),
    ensures
        start_tile(map, x, y) == Some(map[7 - y][x]),
{
}

} // verus!
