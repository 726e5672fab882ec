//! The tile map: level grids, the tile catalog, the coordinate mapper,
//! and the lookup from world positions to tiles.

use vstd::prelude::*;
use vstd::string::StrSliceExecFns;
use crate::common::{Position2d, Size2d, in_world, tile_index, floor_div, TILE_FP, FP_ONE};

verus! {

/// Side of a body probed against the map.
#[derive(Clone, Copy, PartialEq, Eq, Structural, Debug)]
pub enum MapElementCollideType {
    Right,
    Left,
    Below,
    Above,
}

/// One tile type: display name, asset reference and solidity flag.
#[derive(Debug)]
pub struct MapElement {
    pub name: String,
    pub filename: String,
    pub solid: bool,
}

impl Default for MapElement {
    fn default() -> (r: Self)
        ensures
            r.name@.len() == 0,
            r.filename@.len() == 0,
            !r.solid,
    {
        proof {
            reveal_strlit("");
        }
        MapElement { name: "".to_owned(), filename: "".to_owned(), solid: false }
    }
}

/// A level grid: rows of tile symbols, row 0 topmost; rows may vary in
/// length, and absent cells hold no tile.
pub type MapLevel = Vec<Vec<char>>;

/// A discrete (row, column) tile coordinate; negative values name the
/// sentinel region outside the grid.
#[derive(Clone, Copy, PartialEq, Eq, Structural, Debug)]
pub struct MapCoord {
    pub lig: i64,
    pub col: i64,
}

impl Default for MapCoord {
    fn default() -> (r: Self)
        ensures
            r.lig == 0,
            r.col == 0,
    {
        MapCoord { lig: 0, col: 0 }
    }
}

/// Maps a continuous world position to the tile coordinate whose cell
/// contains it, by flooring division — negative positions land in
/// negative tile coordinates, never in cell zero.
pub fn world_to_tile(position: Position2d) -> (r: MapCoord)
    ensures
        r.col == tile_index(position.x as int),
        r.lig == tile_index(position.y as int),
{
    let col = floor_div(position.x, TILE_FP);
    let lig = floor_div(position.y, TILE_FP);
    MapCoord { lig, col }
}

impl MapCoord {
    /// World anchor of a tile coordinate, offset one tile up and left
    /// of the cell's own corner — the spawn-placement calibration the
    /// level data was authored against, kept exactly.
    pub fn to_position2d(coord: MapCoord) -> (r: Position2d)
        requires
            in_world(coord.col),
            in_world(coord.lig),
        ensures
            r.x == (coord.col - 1) * (TILE_FP as int),
            r.y == (coord.lig - 1) * (TILE_FP as int),
    {
        Position2d { x: (coord.col - 1) * TILE_FP, y: (coord.lig - 1) * TILE_FP }
    }
}

/// First catalog entry at or after position `i` whose symbol is `c`.
pub open spec fn lookup_from(s: Seq<(char, MapElement)>, c: char, i: int) -> Option<MapElement>
    decreases s.len() - i,
{
    if i < 0 || i >= s.len() {
        None
    } else if s[i].0 == c {
        Some(s[i].1)
    } else {
        lookup_from(s, c, i + 1)
    }
}

/// The catalog entry for symbol `c`: first match wins.
pub open spec fn lookup_element(s: Seq<(char, MapElement)>, c: char) -> Option<MapElement> {
    lookup_from(s, c, 0)
}

/// One level's geometry: the tile catalog, the current grid, and the
/// spawn position derived at load time.
pub struct TileMap {
    pub elements: Vec<(char, MapElement)>,
    pub level: MapLevel,
    pub player_start: Option<Position2d>,
}

impl Default for TileMap {
    fn default() -> (r: Self)
        ensures
            r.elements@.len() == 0,
            r.level@.len() == 0,
            r.player_start is None,
    {
        TileMap { elements: Vec::new(), level: Vec::new(), player_start: None }
    }
}

impl TileMap {
    /// Creates a map whose catalog holds the one wall tile, symbol
    /// `'1'`, solid; the grid starts empty until a level is loaded.
    pub fn new() -> (r: Self)
        ensures
            r.elements@.len() == 1,
            r.elements@[0].0 == '1',
            r.elements@[0].1.name@ == "Wall1"@,
            r.elements@[0].1.filename@ == "images/tile1.png"@,
            r.elements@[0].1.solid,
            r.level@.len() == 0,
            r.player_start is None,
    {
        let mut elements: Vec<(char, MapElement)> = Vec::new();
        elements.push((
            '1',
            MapElement {
                name: "Wall1".to_owned(),
                filename: "images/tile1.png".to_owned(),
                solid: true,
            },
        ));
        TileMap { elements, level: Vec::new(), player_start: None }
    }

    /// Resolves a tile symbol through the catalog; absent symbols have
    /// no element.
    pub fn element_for(&self, c: char) -> (r: Option<&MapElement>)
        ensures
            match r {
                Some(e) => lookup_element(self.elements@, c) == Some(*e),
                None => lookup_element(self.elements@, c) is None,
            },
    {
        let mut i: usize = 0;
        while i < self.elements.len()
            invariant
                i <= self.elements@.len(),
                lookup_element(self.elements@, c) == lookup_from(self.elements@, c, i as int),
            decreases self.elements@.len() - i,
        {
            if self.elements[i].0 == c {
                return Some(&self.elements[i].1);
            }
            i += 1;
        }
        None
    }
}

impl TileMap {
    /// Replaces the grid with the predefined layout for `level`; an
    /// unknown id leaves an empty grid, never a failure.  Recomputes
    /// the spawn position from the fixed spawn tile coordinate
    /// (row 14, column 2).
    pub fn load_level(&mut self, level: i32)
        ensures
            final(self).elements@ == old(self).elements@,
            level == 1 ==> final(self).level.deep_view() == level_1_spec(),
            level != 1 ==> final(self).level@.len() == 0,
            final(self).player_start matches Some(p)
                && p.x == (2 - 1) * (TILE_FP as int)
                && p.y == (14 - 1) * (TILE_FP as int),
    {
        match level {
            1 => {
                self.level = level_1();
            },
            _ => {
                self.level = Vec::new();
            },
        };
        self.player_start = Some(MapCoord::to_position2d(MapCoord { lig: 14, col: 2 }));
    }

    /// The tile (if any) occupying the world point `(x, y)`: the
    /// point's cell resolved through the grid and the catalog.
    /// Negative cells, cells at or past the row count, cells past a
    /// row's end and symbols absent from the catalog all hold none.
    pub open spec fn tile_at_spec(self, x: int, y: int) -> Option<MapElement> {
        let col = tile_index(x);
        let lig = tile_index(y);
        if col >= 0 && lig >= 0 && lig <= self.level@.len() {
            if lig < self.level@.len() && col < self.level@[lig]@.len() {
                lookup_element(self.elements@, self.level@[lig]@[col])
            } else {
                None
            }
        } else {
            None
        }
    }

    /// Whether a solid tile occupies the world point `(x, y)`.
    pub open spec fn solid_at(self, x: int, y: int) -> bool {
        match self.tile_at_spec(x, y) {
            Some(e) => e.solid,
            None => false,
        }
    }

    /// Looks up the tile at a world position.
    pub fn get_tile_at(&self, x: i64, y: i64) -> (r: Option<&MapElement>)
        ensures
            match r {
                Some(e) => self.tile_at_spec(x as int, y as int) == Some(*e),
                None => self.tile_at_spec(x as int, y as int) is None,
            },
    {
        let coords = world_to_tile(Position2d { x, y });
        let col = coords.col;
        let lig = coords.lig;
        if col >= 0 && lig >= 0 && (lig as u64) <= (self.level.len() as u64) {
            if (lig as u64) < (self.level.len() as u64) {
                let row = &self.level[lig as usize];
                if (col as u64) < (row.len() as u64) {
                    return self.element_for(row[col as usize]);
                }
            }
        }
        None
    }
}

/// A position in the non-negative quadrant maps to a non-negative tile
/// coordinate: its column is the floor of `x` over the tile edge and
/// its row the floor of `y`, both at least zero.
pub proof fn lemma_world_to_tile_nonneg(p: Position2d)
    requires
        p.x >= 0,
        p.y >= 0,
    ensures
        tile_index(p.x as int) >= 0,
        tile_index(p.y as int) >= 0,
{
    vstd::arithmetic::div_mod::lemma_div_pos_is_pos(p.x as int, TILE_FP as int);
    vstd::arithmetic::div_mod::lemma_div_pos_is_pos(p.y as int, TILE_FP as int);
}

/// A position left of the world origin maps to a strictly negative
/// column: the mapping floors, it never truncates toward zero.
pub proof fn lemma_world_to_tile_negative(p: Position2d)
    requires
        p.x < 0,
    ensures
        tile_index(p.x as int) < 0,
{
    let x = p.x as int;
    let t = TILE_FP as int;
    vstd::arithmetic::div_mod::lemma_fundamental_div_mod(x, t);
    if x / t >= 0 {
        assert(t * (x / t) >= 0) by (nonlinear_arith)
            requires t >= 1 && x / t >= 0;
    }
}

/// The tile index of a fixed-point coordinate is exactly the
/// documented formula over world units: the floor of the coordinate in
/// world units, divided (flooring again) by the tile edge length.
pub proof fn lemma_tile_index_in_units(v: int)
    ensures
        tile_index(v) == (v / (crate::common::FP_ONE as int)) / (crate::common::MAP_TILE_SIZE
            as int),
{
    let f = crate::common::FP_ONE as int;
    let m = crate::common::MAP_TILE_SIZE as int;
    let t = TILE_FP as int;
    vstd::arithmetic::div_mod::lemma_fundamental_div_mod(v, t);
    let q = v / t;
    let r = v % t;
    vstd::arithmetic::div_mod::lemma_fundamental_div_mod(r, f);
    let s = r / f;
    let u = r % f;
    vstd::arithmetic::div_mod::lemma_div_pos_is_pos(r, f);
    vstd::arithmetic::div_mod::lemma_div_is_ordered(r, t - 1, f);
    assert(v == (m * q + s) * f + u) by (nonlinear_arith)
        requires
            v == t * q + r,
            r == f * s + u,
            t == f * m,
    ;
    vstd::arithmetic::div_mod::lemma_fundamental_div_mod_converse(v, f, m * q + s, u);
    vstd::arithmetic::div_mod::lemma_fundamental_div_mod_converse(m * q + s, m, q, s);
}

/// Out-of-range world points hold no tile: a negative column, a
/// negative row, or a row at (or past) the grid's row count all
/// resolve to none, and an in-range cell resolves its symbol through
/// the catalog.
pub proof fn lemma_tile_at_bounds(m: TileMap, x: int, y: int)
    ensures
        tile_index(x) < 0 ==> m.tile_at_spec(x, y) is None,
        tile_index(y) < 0 ==> m.tile_at_spec(x, y) is None,
        tile_index(y) >= m.level@.len() ==> m.tile_at_spec(x, y) is None,
        (0 <= tile_index(x) && 0 <= tile_index(y) && tile_index(y) < m.level@.len()
            && tile_index(x) < m.level@[tile_index(y)]@.len()) ==> m.tile_at_spec(x, y)
            == lookup_element(m.elements@, m.level@[tile_index(y)]@[tile_index(x)]),
{
}

/// An empty grid holds no tile anywhere: every world point resolves to
/// none.
pub proof fn lemma_empty_level_has_no_tiles(m: TileMap, x: int, y: int)
    requires
        m.level@.len() == 0,
    ensures
        m.tile_at_spec(x, y) is None,
{
}

/// A body extent clamped to one tile edge, so that the probed span
/// never exceeds one tile even for oversized bodies.
pub open spec fn clamp_to_tile(v: int) -> int {
    if v > TILE_FP { TILE_FP as int } else { v }
}

impl TileMap {
    /// Whether a body anchored at `position` with bounding box `size`
    /// touches a solid tile on the given side.  Two probe points are
    /// sampled along that edge, inset from the corners to avoid
    /// false-positive corner clipping; either landing on a solid tile
    /// counts as a collision.
    pub open spec fn collide_spec(
        self,
        type_collide: MapElementCollideType,
        position: Position2d,
        size: Size2d,
    ) -> bool {
        let w = clamp_to_tile(size.w as int);
        let h = clamp_to_tile(size.h as int);
        let x = position.x as int;
        let y = position.y as int;
        match type_collide {
            MapElementCollideType::Above => self.solid_at(x + FP_ONE, y - FP_ONE) || self.solid_at(
                x + w - 2 * FP_ONE,
                y - FP_ONE,
            ),
            MapElementCollideType::Below => self.solid_at(x + FP_ONE, y + h) || self.solid_at(
                x + w - 2 * FP_ONE,
                y + h,
            ),
            MapElementCollideType::Left => self.solid_at(x - FP_ONE, y + 3 * FP_ONE)
                || self.solid_at(x - FP_ONE, y + h - 2 * FP_ONE),
            MapElementCollideType::Right => self.solid_at(x + w, y + 3 * FP_ONE) || self.solid_at(
                x + w,
                y + h - 2 * FP_ONE,
            ),
        }
    }

    /// Probes whether a body collides with a solid tile on one side.
    pub fn collide(
        &self,
        type_collide: MapElementCollideType,
        position: Position2d,
        size: Size2d,
    ) -> (r: bool)
        requires
            in_world(position.x),
            in_world(position.y),
            in_world(size.w),
            in_world(size.h),
        ensures
            r == self.collide_spec(type_collide, position, size),
    {
        let width: i64 = if size.w > TILE_FP {
            TILE_FP
        } else {
            size.w
        };
        let height: i64 = if size.h > TILE_FP {
            TILE_FP
        } else {
            size.h
        };
        let (position1, position2) = match type_collide {
            MapElementCollideType::Above => (
                Position2d { x: position.x + FP_ONE, y: position.y - FP_ONE },
                Position2d { x: position.x + width - 2 * FP_ONE, y: position.y - FP_ONE },
            ),
            MapElementCollideType::Below => (
                Position2d { x: position.x + FP_ONE, y: position.y + height },
                Position2d { x: position.x + width - 2 * FP_ONE, y: position.y + height },
            ),
            MapElementCollideType::Left => (
                Position2d { x: position.x - FP_ONE, y: position.y + 3 * FP_ONE },
                Position2d { x: position.x - FP_ONE, y: position.y + height - 2 * FP_ONE },
            ),
            MapElementCollideType::Right => (
                Position2d { x: position.x + width, y: position.y + 3 * FP_ONE },
                Position2d { x: position.x + width, y: position.y + height - 2 * FP_ONE },
            ),
        };
        let id1 = self.get_tile_at(position1.x, position1.y);
        if let Some(id) = id1 {
            if id.solid {
                return true;
            }
        }
        let id2 = self.get_tile_at(position2.x, position2.y);
        if let Some(id) = id2 {
            if id.solid {
                return true;
            }
        }
        false
    }
}

/// One grid row holding the symbols of a row pattern, one tile per
/// character.
fn row_from_str(s: &str) -> (r: Vec<char>)
    ensures
        r@ == s@,
{
    let n = s.unicode_len();
    let mut r: Vec<char> = Vec::new();
    let mut i: usize = 0;
    while i < n
        invariant
            n == s@.len(),
            i <= n,
            r@ == s@.subrange(0, i as int),
        decreases n - i,
    {
        r.push(s.get_char(i));
        i += 1;
    }
    proof {
        assert(r@ =~= s@);
    }
    r
}

/// The hand-authored geometry of level 1: a walled arena of platforms,
/// 18 rows of 25 tiles, `'1'` a wall tile and `'0'` empty space.
pub open spec fn level_1_spec() -> Seq<Seq<char>> {
    seq![
        "1111111111111111111111111"@,
        "1000000000000000000000001"@,
        "1000111111111111111110001"@,
        "1000000000000000000000011"@,
        "1000000000000000000000001"@,
        "1000000000000000000000111"@,
        "1000000000000000000000001"@,
        "1000000000000000011111111"@,
        "1000000000000000000000001"@,
        "1000000000000000000000001"@,
        "1000000000111100000000001"@,
        "1000000000000000000000001"@,
        "1111111000000000000000001"@,
        "1000000000000000000000001"@,
        "1100000000111100000000001"@,
        "1000000001000010000000001"@,
        "1000000010000001000000001"@,
        "1111111111111111111111111"@,
    ]
}

/// Builds the grid of level 1.
pub fn level_1() -> (r: MapLevel)
    ensures
        r.deep_view() == level_1_spec(),
{
    let mut level: MapLevel = Vec::new();
    level.push(row_from_str("1111111111111111111111111"));
    level.push(row_from_str("1000000000000000000000001"));
    level.push(row_from_str("1000111111111111111110001"));
    level.push(row_from_str("1000000000000000000000011"));
    level.push(row_from_str("1000000000000000000000001"));
    level.push(row_from_str("1000000000000000000000111"));
    level.push(row_from_str("1000000000000000000000001"));
    level.push(row_from_str("1000000000000000011111111"));
    level.push(row_from_str("1000000000000000000000001"));
    level.push(row_from_str("1000000000000000000000001"));
    level.push(row_from_str("1000000000111100000000001"));
    level.push(row_from_str("1000000000000000000000001"));
    level.push(row_from_str("1111111000000000000000001"));
    level.push(row_from_str("1000000000000000000000001"));
    level.push(row_from_str("1100000000111100000000001"));
    level.push(row_from_str("1000000001000010000000001"));
    level.push(row_from_str("1000000010000001000000001"));
    level.push(row_from_str("1111111111111111111111111"));
    proof {
        assert(level.deep_view() =~~= level_1_spec());
    }
    level
}

} // verus!
