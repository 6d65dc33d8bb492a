use std::collections::HashMap;
use vstd::prelude::*;

verus! {

broadcast use vstd::std_specs::hash::group_hash_axioms;

/// A tileset entry of a Tiled map: the first global tile id it covers and,
/// for image tilesets, the atlas image and tile size.
pub struct TiledTileset {
    pub firstgid: u32,
    pub image: Option<String>,
    pub tilecount: Option<u32>,
    pub tilewidth: Option<u32>,
    pub tileheight: Option<u32>,
}

/// A loaded tileset: its texture, first global id, tile size, atlas size
/// and how many tiles one atlas row holds.
#[derive(Clone, Copy, Debug, PartialEq, Eq, Structural)]
pub struct TilesetInfo {
    pub tex_id: usize,
    pub first_gid: u32,
    pub tile_w: u32,
    pub tile_h: u32,
    pub atlas_w: u32,
    pub atlas_h: u32,
    pub per_row: u32,
}

/// Tiles per atlas row: atlas width over tile width (a zero tile width counts as one).
pub open spec fn tiles_per_row(atlas_w: u32, tile_w: u32) -> u32 {
    if tile_w == 0 {
        atlas_w
    } else {
        (atlas_w / tile_w) as u32
    }
}

impl TilesetInfo {
    /// A loaded tileset; the tiles per row follow from the atlas and tile widths.
    pub fn new(tex_id: usize, first_gid: u32, tile_w: u32, tile_h: u32, atlas_w: u32, atlas_h: u32) -> (r: Self)
        ensures
            r == (TilesetInfo {
                tex_id,
                first_gid,
                tile_w,
                tile_h,
                atlas_w,
                atlas_h,
                per_row: tiles_per_row(atlas_w, tile_w),
            }),
    {
        let per_row = if tile_w == 0 { atlas_w } else { atlas_w / tile_w };
        TilesetInfo { tex_id, first_gid, tile_w, tile_h, atlas_w, atlas_h, per_row }
    }

    /// Pixel position in the atlas of the tile with global id `gid`:
    /// tiles are laid out row by row, `per_row` to a row.
    pub fn tile_origin(&self, gid: u32) -> (r: (u64, u64))
        requires
            self.per_row > 0,
            gid >= self.first_gid,
        ensures
            r.0 == ((gid - self.first_gid) % (self.per_row as int)) * self.tile_w,
            r.1 == ((gid - self.first_gid) / (self.per_row as int)) * self.tile_h,
    {
        let local = gid - self.first_gid;
        let col = (local % self.per_row) as u64;
        let row = (local / self.per_row) as u64;
        assert(col * (self.tile_w as u64) <= u32::MAX * u32::MAX) by (nonlinear_arith)
            requires
                col <= u32::MAX,
        ;
        assert(row * (self.tile_h as u64) <= u32::MAX * u32::MAX) by (nonlinear_arith)
            requires
                row <= u32::MAX,
        ;
        (col * self.tile_w as u64, row * self.tile_h as u64)
    }
}

/// The tilesets of a map, keyed by their first global id.
pub struct TilesetTable {
    sets: HashMap<u32, TilesetInfo>,
}

impl View for TilesetTable {
    type V = Map<u32, TilesetInfo>;

    closed spec fn view(&self) -> Map<u32, TilesetInfo> {
        self.sets@
    }
}

/// The tileset that global id `gid` belongs to: the one with the greatest
/// first id that is not above `gid`.
pub open spec fn owns_gid(sets: Map<u32, TilesetInfo>, first: u32, gid: u32) -> bool {
    &&& sets.contains_key(first)
    &&& first <= gid
    &&& forall|k: u32| #[trigger] sets.contains_key(k) && k <= gid ==> k <= first
}

impl TilesetTable {
    pub fn new() -> (r: Self)
        ensures
            r@ == Map::<u32, TilesetInfo>::empty(),
    {
        TilesetTable { sets: HashMap::new() }
    }

    /// Adds a tileset under its first global id, replacing one with the same id.
    pub fn insert(&mut self, info: TilesetInfo)
        ensures
            final(self)@ == old(self)@.insert(info.first_gid, info),
    {
        self.sets.insert(info.first_gid, info);
    }

    /// The tileset that global id `gid` belongs to, if any tileset starts at
    /// or below it.
    pub fn lookup(&self, gid: u32) -> (r: Option<TilesetInfo>)
        ensures
            r is Some <==> exists|k: u32| #[trigger] self@.contains_key(k) && k <= gid,
            r matches Some(info) ==> exists|first: u32|
                owns_gid(self@, first, gid) && #[trigger] self@[first] == info,
    {
        let mut best: Option<(u32, TilesetInfo)> = None;
        for entry in it: self.sets.iter()
            invariant
                best matches Some(b) ==> self@.contains_key(b.0) && self@[b.0] == b.1 && b.0 <= gid,
                best matches Some(b) ==> forall|j: int|
                    0 <= j < it.index() && *(#[trigger] it.seq()[j]).0 <= gid ==> *it.seq()[j].0 <= b.0,
                best is None ==> forall|j: int|
                    0 <= j < it.index() ==> *(#[trigger] it.seq()[j]).0 > gid,
                forall|j: int|
                    0 <= j < it.seq().len() ==> self@.contains_key(*(#[trigger] it.seq()[j]).0),
        {
            let (k, v) = entry;
            if *k <= gid {
                let better = match best {
                    Some(b) => *k > b.0,
                    None => true,
                };
                if better {
                    best = Some((*k, *v));
                }
            }
        }
        match best {
            Some(b) => {
                assert(owns_gid(self@, b.0, gid));
                Some(b.1)
            },
            None => None,
        }
    }
}

/// Every non-empty tile (x, y, gid) of a layer in columns `min_x..max_x` and rows
/// `min_y..max_y`, row by row, where the layer is `layer_w` tiles wide and
/// `data` holds its global ids row by row (0 = no tile).
pub fn visible_tiles(
    data: &[u32],
    layer_w: u32,
    min_x: u32,
    max_x: u32,
    min_y: u32,
    max_y: u32,
) -> (r: Vec<(u32, u32, u32)>)
    requires
        min_x < max_x && min_y < max_y ==> (max_y - 1) * layer_w + max_x - 1 < data@.len(),
        min_x < max_x && min_y < max_y ==> (max_y - 1) * layer_w + max_x - 1 <= u32::MAX,
    ensures
        forall|i: int|
            0 <= i < r@.len() ==> {
                let (x, y, gid) = #[trigger] r@[i];
                &&& min_x <= x < max_x
                &&& min_y <= y < max_y
                &&& gid != 0
                &&& gid == data@[y * layer_w + x]
            },
        forall|i: int, j: int|
            0 <= i < j < r@.len() ==> (#[trigger] r@[i]).1 < (#[trigger] r@[j]).1 || (r@[i].1
                == r@[j].1 && r@[i].0 < r@[j].0),
        forall|x: u32, y: u32|
            min_x <= x < max_x && min_y <= y < max_y && #[trigger] data@[y * layer_w + x] != 0
                ==> exists|i: int| 0 <= i < r@.len() && r@[i] == (x, y, data@[y * layer_w + x]),
{
    let mut r: Vec<(u32, u32, u32)> = Vec::new();
    if min_x >= max_x || min_y >= max_y {
        return r;
    }
    let mut y = min_y;
    while y < max_y
        invariant
            min_x < max_x,
            min_y <= y <= max_y,
            (max_y - 1) * layer_w + max_x - 1 < data@.len(),
            (max_y - 1) * layer_w + max_x - 1 <= u32::MAX,
            forall|i: int|
                0 <= i < r@.len() ==> {
                    let (x, yy, gid) = #[trigger] r@[i];
                    &&& min_x <= x < max_x
                    &&& min_y <= yy < y
                    &&& gid != 0
                    &&& gid == data@[yy * layer_w + x]
                },
            forall|i: int, j: int|
                0 <= i < j < r@.len() ==> (#[trigger] r@[i]).1 < (#[trigger] r@[j]).1 || (r@[i].1
                    == r@[j].1 && r@[i].0 < r@[j].0),
            forall|x: u32, yy: u32|
                min_x <= x < max_x && min_y <= yy < y && #[trigger] data@[yy * layer_w + x] != 0
                    ==> exists|i: int| 0 <= i < r@.len() && r@[i] == (x, yy, data@[yy * layer_w + x]),
        decreases max_y - y,
    {
        let mut x = min_x;
        let ghost row_start = r@.len();
        while x < max_x
            invariant
                min_x <= x <= max_x,
                min_y <= y < max_y,
                row_start <= r@.len(),
                (max_y - 1) * layer_w + max_x - 1 < data@.len(),
                (max_y - 1) * layer_w + max_x - 1 <= u32::MAX,
                forall|i: int|
                    0 <= i < r@.len() ==> {
                        let (xx, yy, gid) = #[trigger] r@[i];
                        &&& min_x <= xx < max_x
                        &&& min_y <= yy <= y
                        &&& (yy == y ==> xx < x)
                        &&& (i < row_start ==> yy < y)
                        &&& (i >= row_start ==> yy == y)
                        &&& gid != 0
                        &&& gid == data@[yy * layer_w + xx]
                    },
                forall|i: int, j: int|
                    0 <= i < j < r@.len() ==> (#[trigger] r@[i]).1 < (#[trigger] r@[j]).1 || (
                    r@[i].1 == r@[j].1 && r@[i].0 < r@[j].0),
                forall|xx: u32, yy: u32|
                    min_x <= xx < max_x && min_y <= yy < y && #[trigger] data@[yy * layer_w + xx]
                        != 0 ==> exists|i: int|
                        0 <= i < r@.len() && r@[i] == (xx, yy, data@[yy * layer_w + xx]),
                forall|xx: u32|
                    min_x <= xx < x && #[trigger] data@[y * layer_w + xx] != 0 ==> exists|i: int|
                        0 <= i < r@.len() && r@[i] == (xx, y, data@[y * layer_w + xx]),
            decreases max_x - x,
        {
            assert(y * layer_w + x <= (max_y - 1) * layer_w + max_x - 1) by (nonlinear_arith)
                requires
                    y <= max_y - 1,
                    x <= max_x - 1,
            ;
            let idx = y * layer_w + x;
            let gid = data[idx as usize];
            let ghost before = r@;
            if gid != 0 {
                r.push((x, y, gid));
                assert forall|xx: u32, yy: u32|
                    min_x <= xx < max_x && min_y <= yy < y && #[trigger] data@[yy * layer_w + xx]
                        != 0 implies exists|i: int|
                    0 <= i < r@.len() && r@[i] == (xx, yy, data@[yy * layer_w + xx]) by {
                    let i = choose|i: int| 0 <= i < before.len() && before[i] == (xx, yy, data@[yy * layer_w + xx]);
                    assert(r@[i] == before[i]);
                }
                assert forall|xx: u32|
                    min_x <= xx < x + 1 && #[trigger] data@[y * layer_w + xx] != 0 implies exists|i: int|
                        0 <= i < r@.len() && r@[i] == (xx, y, data@[y * layer_w + xx]) by {
                    if xx < x {
                        let i = choose|i: int| 0 <= i < before.len() && before[i] == (xx, y, data@[y * layer_w + xx]);
                        assert(r@[i] == before[i]);
                    } else {
                        assert(r@[before.len() as int] == (xx, y, data@[y * layer_w + xx]));
                    }
                }
            }
            x = x + 1;
        }
        y = y + 1;
    }
    r
}

} // verus!
