//! The collision mask table: per tile and per collision plane, how far a
//! surface intrudes from each side, and the surface angles.
use vstd::prelude::*;

verus! {

/// Tiles stored in a tile configuration, per collision plane.
pub const TILE_COUNT: usize = 0x400;

/// Width and height of a tile in pixels.
pub const TILE_SIZE: usize = 0x10;

/// Number of collision planes.
pub const CPATH_COUNT: usize = 2;

/// Tiles per plane once the mirrored variants are derived.
pub const PLANE_TILES: usize = 0x1000;

/// Bytes of one base tile in a tile configuration payload.
pub const TILE_RECORD_SIZE: usize = 38;

/// Size of a decompressed tile configuration payload.
pub const TILE_CONFIG_SIZE: usize = 77824;

/// "No surface in this column."
pub const NO_SURFACE: u8 = 0xFF;

/// Mirroring of a tile, as stored in the top bits of a layout entry.
#[derive(Clone, Copy, Debug, PartialEq, Eq, Structural)]
pub enum FlipFlags {
    FlipNone,
    FlipX,
    FlipY,
    FlipXY,
}

/// Per-column intrusion depths of a tile's four surfaces.
#[derive(Clone, Copy, Debug)]
pub struct CollisionMask {
    pub floor_masks: [u8; 16],
    pub l_wall_masks: [u8; 16],
    pub r_wall_masks: [u8; 16],
    pub roof_masks: [u8; 16],
}

/// Surface angles and the behaviour flag of a tile.
#[derive(Clone, Copy, Debug, PartialEq, Eq, Structural)]
pub struct TileInfo {
    pub floor_angle: u8,
    pub l_wall_angle: u8,
    pub r_wall_angle: u8,
    pub roof_angle: u8,
    pub flag: u8,
}

/// A depth is 0..=15, or the sentinel for "no surface".
pub open spec fn valid_depth(b: u8) -> bool {
    b == NO_SURFACE || b <= 15
}

pub open spec fn valid_column(s: Seq<u8>) -> bool {
    s.len() == 16 && forall|c: int| 0 <= c < 16 ==> valid_depth(#[trigger] s[c])
}

/// Every active column of a stored profile has a depth of 0..=15.
pub open spec fn profile_ok(heights: Seq<u8>, active: Seq<u8>) -> bool {
    forall|c: int| 0 <= c < 16 && active[c] != 0 ==> #[trigger] heights[c] <= 15
}

/// Reflects a depth across the tile: `15 - h`, keeping the sentinel.
pub open spec fn mirror_depth(h: u8) -> u8 {
    if h == NO_SURFACE {
        NO_SURFACE
    } else {
        (15 - h) as u8
    }
}

/// Angle negation in byte arithmetic.
pub open spec fn neg_angle(a: u8) -> u8 {
    ((256 - a) % 256) as u8
}

/// `0x80 - a` in byte arithmetic: the angle reflected vertically.
pub open spec fn flip_y_angle(a: u8) -> u8 {
    ((0x180 - a) % 256) as u8
}

/// First row `h` (from the top) whose depth reaches column `c`; `below` selects
/// a floor-type profile (`c >= m[h]`), otherwise a roof-type one (`c <= m[h]`).
pub open spec fn first_reaching(m: Seq<u8>, c: int, below: bool, h: int) -> u8
    decreases 16 - h,
{
    if h >= 16 || h < 0 {
        NO_SURFACE
    } else if m[h] != NO_SURFACE && (if below { c >= m[h] } else { c <= m[h] }) {
        h as u8
    } else {
        first_reaching(m, c, below, h + 1)
    }
}

/// The same search from the right-hand end.
pub open spec fn last_reaching(m: Seq<u8>, c: int, below: bool, h: int) -> u8
    decreases h + 1,
{
    if h < 0 || h >= 16 {
        NO_SURFACE
    } else if m[h] != NO_SURFACE && (if below { c >= m[h] } else { c <= m[h] }) {
        h as u8
    } else {
        last_reaching(m, c, below, h - 1)
    }
}

impl CollisionMask {
    pub open spec fn wf(&self) -> bool {
        valid_column(self.floor_masks@) && valid_column(self.l_wall_masks@) && valid_column(
            self.r_wall_masks@,
        ) && valid_column(self.roof_masks@)
    }

    /// Same depths in every column of every side.
    pub open spec fn same(&self, o: &CollisionMask) -> bool {
        self.floor_masks@ == o.floor_masks@ && self.l_wall_masks@ == o.l_wall_masks@
            && self.r_wall_masks@ == o.r_wall_masks@ && self.roof_masks@ == o.roof_masks@
    }

    /// `self` is `src` reflected left to right: columns of floor and roof are
    /// reversed, and the two walls swap with their depths mirrored.
    pub open spec fn is_flip_x_of(&self, src: &CollisionMask) -> bool {
        forall|c: int|
            #![trigger self.floor_masks@[c]]
            #![trigger self.roof_masks@[c]]
            #![trigger self.l_wall_masks@[c]]
            #![trigger self.r_wall_masks@[c]]
            0 <= c < 16 ==> {
                &&& self.floor_masks@[c] == src.floor_masks@[15 - c]
                &&& self.roof_masks@[c] == src.roof_masks@[15 - c]
                &&& self.l_wall_masks@[c] == mirror_depth(src.r_wall_masks@[c])
                &&& self.r_wall_masks@[c] == mirror_depth(src.l_wall_masks@[c])
            }
    }

    /// `self` is `src` reflected top to bottom: rows of the walls are reversed,
    /// and floor and roof swap with their depths mirrored.
    pub open spec fn is_flip_y_of(&self, src: &CollisionMask) -> bool {
        forall|c: int|
            #![trigger self.floor_masks@[c]]
            #![trigger self.roof_masks@[c]]
            #![trigger self.l_wall_masks@[c]]
            #![trigger self.r_wall_masks@[c]]
            0 <= c < 16 ==> {
                &&& self.l_wall_masks@[c] == src.l_wall_masks@[15 - c]
                &&& self.r_wall_masks@[c] == src.r_wall_masks@[15 - c]
                &&& self.floor_masks@[c] == mirror_depth(src.roof_masks@[c])
                &&& self.roof_masks@[c] == mirror_depth(src.floor_masks@[c])
            }
    }

    /// A tile as stored: `heights`/`active` give the floor (or, for a tile
    /// stored upside down, the roof) profile, and the walls follow from it.
    pub open spec fn is_base_of(&self, heights: Seq<u8>, active: Seq<u8>, y_flip: bool) -> bool {
        forall|c: int|
            0 <= c < 16 ==> {
                &&& #[trigger] self.floor_masks@[c] == (if active[c] == 0 {
                    NO_SURFACE
                } else if y_flip {
                    0u8
                } else {
                    heights[c]
                })
                &&& self.roof_masks@[c] == (if active[c] == 0 {
                    NO_SURFACE
                } else if y_flip {
                    heights[c]
                } else {
                    0x0Fu8
                })
                &&& self.l_wall_masks@[c] == (if y_flip {
                    first_reaching(self.roof_masks@, c, false, 0)
                } else {
                    first_reaching(self.floor_masks@, c, true, 0)
                })
                &&& self.r_wall_masks@[c] == (if y_flip {
                    last_reaching(self.roof_masks@, c, false, 15)
                } else {
                    last_reaching(self.floor_masks@, c, true, 15)
                })
            }
    }

    /// A mask with no surface in any column of any side: the table's
    /// contents until a tile configuration fills it.
    pub fn new() -> (r: CollisionMask)
        ensures
            r.wf(),
            r.is_empty(),
    {
        CollisionMask::empty()
    }

    /// No surface on any side.
    pub open spec fn is_empty(&self) -> bool {
        forall|c: int|
            #![trigger self.floor_masks@[c]]
            #![trigger self.roof_masks@[c]]
            #![trigger self.l_wall_masks@[c]]
            #![trigger self.r_wall_masks@[c]]
            0 <= c < 16 ==> self.floor_masks@[c] == NO_SURFACE && self.l_wall_masks@[c]
                == NO_SURFACE && self.r_wall_masks@[c] == NO_SURFACE && self.roof_masks@[c]
                == NO_SURFACE
    }

    /// A mask with no surface on any side.
    pub fn empty() -> (r: CollisionMask)
        ensures
            r.wf(),
            r.is_empty(),
    {
        CollisionMask {
            floor_masks: [0xFFu8; 16],
            l_wall_masks: [0xFFu8; 16],
            r_wall_masks: [0xFFu8; 16],
            roof_masks: [0xFFu8; 16],
        }
    }
}

/// Column `c` of the left wall: the first row from the top whose profile reaches it.
fn first_reaching_row(m: &[u8; 16], c: u8, below: bool) -> (r: u8)
    requires
        c < 16,
    ensures
        r == first_reaching(m@, c as int, below, 0),
        r == NO_SURFACE || r < 16,
{
    let mut h: usize = 0;
    while h < 16
        invariant
            0 <= h <= 16,
            first_reaching(m@, c as int, below, h as int) == first_reaching(m@, c as int, below, 0),
        decreases 16 - h,
    {
        let v = m[h];
        if v != NO_SURFACE && (if below { c >= v } else { c <= v }) {
            return h as u8;
        }
        h = h + 1;
    }
    NO_SURFACE
}

/// Column `c` of the right wall: the first row from the bottom whose profile reaches it.
fn last_reaching_row(m: &[u8; 16], c: u8, below: bool) -> (r: u8)
    requires
        c < 16,
    ensures
        r == last_reaching(m@, c as int, below, 15),
        r == NO_SURFACE || r < 16,
{
    let mut h: usize = 16;
    while h > 0
        invariant
            0 <= h <= 16,
            last_reaching(m@, c as int, below, h - 1) == last_reaching(m@, c as int, below, 15),
        decreases h,
    {
        let v = m[h - 1];
        if v != NO_SURFACE && (if below { c >= v } else { c <= v }) {
            return (h - 1) as u8;
        }
        h = h - 1;
    }
    NO_SURFACE
}

/// `0xF - h`, keeping the sentinel.
fn mirror(h: u8) -> (r: u8)
    requires
        valid_depth(h),
    ensures
        r == mirror_depth(h),
        valid_depth(r),
{
    if h == NO_SURFACE {
        NO_SURFACE
    } else {
        15 - h
    }
}

impl CollisionMask {
    /// Builds a stored tile from its height profile; rows whose `active` byte
    /// is zero hold no surface.
    pub fn from_profile(heights: &[u8; 16], active: &[u8; 16], y_flip: bool) -> (r: CollisionMask)
        requires
            profile_ok(heights@, active@),
        ensures
            r.wf(),
            r.is_base_of(heights@, active@, y_flip),
    {
        let mut m = CollisionMask::empty();
        let mut c: usize = 0;
        while c < 16
            invariant
                0 <= c <= 16,
                m.wf(),
                profile_ok(heights@, active@),
                forall|k: int|
                    0 <= k < c ==> #[trigger] m.floor_masks@[k] == (if active@[k] == 0 {
                        NO_SURFACE
                    } else if y_flip {
                        0u8
                    } else {
                        heights@[k]
                    }),
                forall|k: int|
                    0 <= k < c ==> #[trigger] m.roof_masks@[k] == (if active@[k] == 0 {
                        NO_SURFACE
                    } else if y_flip {
                        heights@[k]
                    } else {
                        0x0Fu8
                    }),
            decreases 16 - c,
        {
            if active[c] != 0 {
                if y_flip {
                    m.floor_masks[c] = 0;
                    m.roof_masks[c] = heights[c];
                } else {
                    m.floor_masks[c] = heights[c];
                    m.roof_masks[c] = 0x0F;
                }
            } else {
                m.floor_masks[c] = NO_SURFACE;
                m.roof_masks[c] = NO_SURFACE;
            }
            c = c + 1;
        }
        let profile = if y_flip { m.roof_masks } else { m.floor_masks };
        let below = !y_flip;
        let mut c: usize = 0;
        while c < 16
            invariant
                0 <= c <= 16,
                m.wf(),
                profile@ == (if y_flip { m.roof_masks@ } else { m.floor_masks@ }),
                below == !y_flip,
                forall|k: int|
                    0 <= k < 16 ==> #[trigger] m.floor_masks@[k] == (if active@[k] == 0 {
                        NO_SURFACE
                    } else if y_flip {
                        0u8
                    } else {
                        heights@[k]
                    }),
                forall|k: int|
                    0 <= k < 16 ==> #[trigger] m.roof_masks@[k] == (if active@[k] == 0 {
                        NO_SURFACE
                    } else if y_flip {
                        heights@[k]
                    } else {
                        0x0Fu8
                    }),
                forall|k: int|
                    0 <= k < c ==> #[trigger] m.l_wall_masks@[k] == first_reaching(
                        profile@,
                        k,
                        below,
                        0,
                    ),
                forall|k: int|
                    0 <= k < c ==> #[trigger] m.r_wall_masks@[k] == last_reaching(
                        profile@,
                        k,
                        below,
                        15,
                    ),
            decreases 16 - c,
        {
            m.l_wall_masks[c] = first_reaching_row(&profile, c as u8, below);
            m.r_wall_masks[c] = last_reaching_row(&profile, c as u8, below);
            c = c + 1;
        }
        m
    }

    /// The tile reflected left to right.
    pub fn flip_x(&self) -> (r: CollisionMask)
        requires
            self.wf(),
        ensures
            r.wf(),
            r.is_flip_x_of(self),
    {
        let mut m = CollisionMask::empty();
        let mut c: usize = 0;
        while c < 16
            invariant
                0 <= c <= 16,
                self.wf(),
                m.wf(),
                forall|k: int|
                    0 <= k < c ==> #[trigger] m.floor_masks@[k] == self.floor_masks@[15 - k],
                forall|k: int|
                    0 <= k < c ==> #[trigger] m.roof_masks@[k] == self.roof_masks@[15 - k],
                forall|k: int|
                    0 <= k < c ==> #[trigger] m.l_wall_masks@[k] == mirror_depth(
                        self.r_wall_masks@[k],
                    ),
                forall|k: int|
                    0 <= k < c ==> #[trigger] m.r_wall_masks@[k] == mirror_depth(
                        self.l_wall_masks@[k],
                    ),
            decreases 16 - c,
        {
            m.r_wall_masks[c] = mirror(self.l_wall_masks[c]);
            m.l_wall_masks[c] = mirror(self.r_wall_masks[c]);
            m.floor_masks[c] = self.floor_masks[15 - c];
            m.roof_masks[c] = self.roof_masks[15 - c];
            c = c + 1;
        }
        m
    }

    /// The tile reflected top to bottom.
    pub fn flip_y(&self) -> (r: CollisionMask)
        requires
            self.wf(),
        ensures
            r.wf(),
            r.is_flip_y_of(self),
    {
        let mut m = CollisionMask::empty();
        let mut c: usize = 0;
        while c < 16
            invariant
                0 <= c <= 16,
                self.wf(),
                m.wf(),
                forall|k: int|
                    0 <= k < c ==> #[trigger] m.l_wall_masks@[k] == self.l_wall_masks@[15 - k],
                forall|k: int|
                    0 <= k < c ==> #[trigger] m.r_wall_masks@[k] == self.r_wall_masks@[15 - k],
                forall|k: int|
                    0 <= k < c ==> #[trigger] m.floor_masks@[k] == mirror_depth(
                        self.roof_masks@[k],
                    ),
                forall|k: int|
                    0 <= k < c ==> #[trigger] m.roof_masks@[k] == mirror_depth(
                        self.floor_masks@[k],
                    ),
            decreases 16 - c,
        {
            m.floor_masks[c] = mirror(self.roof_masks[c]);
            m.roof_masks[c] = mirror(self.floor_masks[c]);
            m.l_wall_masks[c] = self.l_wall_masks[15 - c];
            m.r_wall_masks[c] = self.r_wall_masks[15 - c];
            c = c + 1;
        }
        m
    }
}

impl TileInfo {
    pub open spec fn flip_x_spec(self) -> TileInfo {
        TileInfo {
            floor_angle: neg_angle(self.floor_angle),
            l_wall_angle: neg_angle(self.r_wall_angle),
            r_wall_angle: neg_angle(self.l_wall_angle),
            roof_angle: neg_angle(self.roof_angle),
            flag: self.flag,
        }
    }

    pub open spec fn flip_y_spec(self) -> TileInfo {
        TileInfo {
            floor_angle: flip_y_angle(self.roof_angle),
            l_wall_angle: flip_y_angle(self.l_wall_angle),
            r_wall_angle: flip_y_angle(self.r_wall_angle),
            roof_angle: flip_y_angle(self.floor_angle),
            flag: self.flag,
        }
    }

    /// All angles zero, no flag.
    pub fn new() -> (r: TileInfo)
        ensures
            r == (TileInfo {
                floor_angle: 0,
                l_wall_angle: 0,
                r_wall_angle: 0,
                roof_angle: 0,
                flag: 0,
            }),
    {
        TileInfo { floor_angle: 0, l_wall_angle: 0, r_wall_angle: 0, roof_angle: 0, flag: 0 }
    }

    /// Angles of the tile reflected left to right: each is negated, and the
    /// two walls swap.
    pub fn flip_x(&self) -> (r: TileInfo)
        ensures
            r == self.flip_x_spec(),
    {
        TileInfo {
            floor_angle: 0u8.wrapping_sub(self.floor_angle),
            l_wall_angle: 0u8.wrapping_sub(self.r_wall_angle),
            r_wall_angle: 0u8.wrapping_sub(self.l_wall_angle),
            roof_angle: 0u8.wrapping_sub(self.roof_angle),
            flag: self.flag,
        }
    }

    /// Angles of the tile reflected top to bottom: each becomes `0x80 - a`,
    /// and floor and roof swap.
    pub fn flip_y(&self) -> (r: TileInfo)
        ensures
            r == self.flip_y_spec(),
    {
        TileInfo {
            floor_angle: 0x80u8.wrapping_sub(self.roof_angle),
            l_wall_angle: 0x80u8.wrapping_sub(self.l_wall_angle),
            r_wall_angle: 0x80u8.wrapping_sub(self.r_wall_angle),
            roof_angle: 0x80u8.wrapping_sub(self.floor_angle),
            flag: self.flag,
        }
    }
}

/// Where the record of base tile `t` of plane `p` starts in a payload.
pub open spec fn record_start(p: int, t: int) -> int {
    (p * 1024 + t) * 38
}

pub open spec fn record_heights(b: Seq<u8>, p: int, t: int) -> Seq<u8> {
    b.subrange(record_start(p, t), record_start(p, t) + 16)
}

pub open spec fn record_active(b: Seq<u8>, p: int, t: int) -> Seq<u8> {
    b.subrange(record_start(p, t) + 16, record_start(p, t) + 32)
}

pub open spec fn record_y_flip(b: Seq<u8>, p: int, t: int) -> bool {
    b[record_start(p, t) + 32] != 0
}

pub open spec fn record_info(b: Seq<u8>, p: int, t: int) -> TileInfo {
    let s = record_start(p, t);
    TileInfo {
        floor_angle: b[s + 33],
        l_wall_angle: b[s + 34],
        r_wall_angle: b[s + 35],
        roof_angle: b[s + 36],
        flag: b[s + 37],
    }
}

/// A payload that holds every record, each with a usable profile.
pub open spec fn payload_ok(b: Seq<u8>) -> bool {
    &&& b.len() >= TILE_CONFIG_SIZE
    &&& forall|p: int, t: int|
        0 <= p < 2 && 0 <= t < 1024 ==> #[trigger] profile_ok(
            record_heights(b, p, t),
            record_active(b, p, t),
        )
}

/// Index of tile `t` of mirroring `v` (`FlipFlags` order) in plane `p`.
pub open spec fn tile_index(p: int, v: int, t: int) -> int {
    p * 4096 + v * 1024 + t
}

/// Entry `tile_index(p, v, t)` of a table built from payload `b`.
pub open spec fn mask_entry_ok(b: Seq<u8>, ms: Seq<CollisionMask>, p: int, v: int, t: int) -> bool {
    let m = ms[tile_index(p, v, t)];
    let base = ms[tile_index(p, 0, t)];
    &&& m.wf()
    &&& (v == 0 ==> m.is_base_of(
        record_heights(b, p, t),
        record_active(b, p, t),
        record_y_flip(b, p, t),
    ))
    &&& (v == 1 ==> m.is_flip_x_of(&base))
    &&& (v == 2 ==> m.is_flip_y_of(&base))
    &&& (v == 3 ==> m.is_flip_x_of(&ms[tile_index(p, 2, t)]))
}

pub open spec fn info_entry_ok(b: Seq<u8>, is: Seq<TileInfo>, p: int, v: int, t: int) -> bool {
    let base = record_info(b, p, t);
    is[tile_index(p, v, t)] == (if v == 0 {
        base
    } else if v == 1 {
        base.flip_x_spec()
    } else if v == 2 {
        base.flip_y_spec()
    } else {
        base.flip_y_spec().flip_x_spec()
    })
}

pub open spec fn entries_ok(b: Seq<u8>, ms: Seq<CollisionMask>, is: Seq<TileInfo>, n: int) -> bool {
    forall|p: int, v: int, t: int|
        0 <= p < 2 && 0 <= v < 4 && 0 <= t < 1024 && tile_index(p, v, t) < n ==> mask_entry_ok(
            b,
            ms,
            p,
            v,
            t,
        ) && info_entry_ok(b, is, p, v, t)
}

/// The collision masks and tile angles of both planes, mirrored variants included.
pub struct TileConfig {
    pub masks: Vec<CollisionMask>,
    pub infos: Vec<TileInfo>,
}

impl TileConfig {
    pub open spec fn wf(&self) -> bool {
        &&& self.masks@.len() == CPATH_COUNT * PLANE_TILES
        &&& self.infos@.len() == CPATH_COUNT * PLANE_TILES
        &&& forall|i: int| 0 <= i < self.masks@.len() ==> (#[trigger] self.masks@[i]).wf()
    }

    /// The table of a stage whose configuration could not be read: no surfaces anywhere.
    pub fn empty() -> (r: TileConfig)
        ensures
            r.wf(),
            forall|i: int| 0 <= i < r.masks@.len() ==> (#[trigger] r.masks@[i]).is_empty(),
    {
        let mut masks: Vec<CollisionMask> = Vec::new();
        let mut infos: Vec<TileInfo> = Vec::new();
        let mut i: usize = 0;
        while i < CPATH_COUNT * PLANE_TILES
            invariant
                0 <= i <= CPATH_COUNT * PLANE_TILES,
                masks@.len() == i,
                infos@.len() == i,
                forall|k: int| 0 <= k < i ==> (#[trigger] masks@[k]).wf() && masks@[k].is_empty(),
            decreases CPATH_COUNT * PLANE_TILES - i,
        {
            masks.push(CollisionMask::empty());
            infos.push(TileInfo::new());
            i = i + 1;
        }
        TileConfig { masks, infos }
    }
}

proof fn lemma_record_in_bounds(p: int, t: int)
    requires
        0 <= p < 2,
        0 <= t < 1024,
    ensures
        0 <= record_start(p, t),
        record_start(p, t) + 38 <= TILE_CONFIG_SIZE,
        record_start(p, t) == p * 38912 + t * 38,
{
    assert(record_start(p, t) == p * 38912 + t * 38) by (nonlinear_arith);
}

/// Copies 16 bytes from `b[start..]`.
fn read_row(b: &Vec<u8>, start: usize) -> (r: [u8; 16])
    requires
        start + 16 <= b.len(),
    ensures
        r@ == b@.subrange(start as int, start + 16),
{
    let mut r = [0u8; 16];
    let mut c: usize = 0;
    while c < 16
        invariant
            0 <= c <= 16,
            start + 16 <= b.len(),
            r@.len() == 16,
            forall|k: int| 0 <= k < c ==> #[trigger] r@[k] == b@[start + k],
        decreases 16 - c,
    {
        r[c] = b[start + c];
        c = c + 1;
    }
    assert(r@ =~= b@.subrange(start as int, start + 16));
    r
}

/// Builds the collision table from a decompressed tile configuration payload:
/// for each plane, 1024 records of 16 heights, 16 active flags, an
/// upside-down flag, four angles and a flag byte. The mirrored variants
/// follow the base tiles. `None` when the payload is short or a column
/// is deeper than a tile.
pub fn load_tile_config(payload: &Vec<u8>) -> (r: Option<TileConfig>)
    ensures
        r.is_none() <==> !payload_ok(payload@),
        r matches Some(cfg) ==> cfg.wf() && entries_ok(
            payload@,
            cfg.masks@,
            cfg.infos@,
            (CPATH_COUNT * PLANE_TILES) as int,
        ),
{
    if payload.len() < TILE_CONFIG_SIZE {
        return None;
    }
    let mut masks: Vec<CollisionMask> = Vec::new();
    let mut infos: Vec<TileInfo> = Vec::new();
    let mut p: usize = 0;
    while p < CPATH_COUNT
        invariant
            0 <= p <= CPATH_COUNT,
            payload@.len() >= TILE_CONFIG_SIZE,
            masks@.len() == p * 4096,
            infos@.len() == p * 4096,
            forall|i: int| 0 <= i < masks@.len() ==> (#[trigger] masks@[i]).wf(),
            entries_ok(payload@, masks@, infos@, masks@.len() as int),
            forall|q: int, t: int|
                0 <= q < p && 0 <= t < 1024 ==> #[trigger] profile_ok(
                    record_heights(payload@, q, t),
                    record_active(payload@, q, t),
                ),
        decreases CPATH_COUNT - p,
    {
        let plane_start: usize = p * 4096;
        // Stored tiles.
        let mut t: usize = 0;
        while t < TILE_COUNT
            invariant
                0 <= p < CPATH_COUNT,
                plane_start == p * 4096,
                0 <= t <= TILE_COUNT,
                payload@.len() >= TILE_CONFIG_SIZE,
                masks@.len() == plane_start + t,
                infos@.len() == plane_start + t,
                forall|i: int| 0 <= i < masks@.len() ==> (#[trigger] masks@[i]).wf(),
                entries_ok(payload@, masks@, infos@, masks@.len() as int),
                forall|q: int, u: int|
                    (0 <= q < p && 0 <= u < 1024) || (q == p && 0 <= u < t) ==> #[trigger] profile_ok(
                        record_heights(payload@, q, u),
                        record_active(payload@, q, u),
                    ),
            decreases TILE_COUNT - t,
        {
            proof {
                lemma_record_in_bounds(p as int, t as int);
            }
            let start: usize = p * 38912 + t * 38;
            let heights = read_row(payload, start);
            let active = read_row(payload, start + 16);
            proof {
                assert(heights@ =~= record_heights(payload@, p as int, t as int));
                assert(active@ =~= record_active(payload@, p as int, t as int));
            }
            let mut c: usize = 0;
            while c < 16
                invariant
                    0 <= c <= 16,
                    0 <= p < CPATH_COUNT,
                    0 <= t < TILE_COUNT,
                    heights@ == record_heights(payload@, p as int, t as int),
                    active@ == record_active(payload@, p as int, t as int),
                    forall|k: int| 0 <= k < c && active@[k] != 0 ==> #[trigger] heights@[k] <= 15,
                decreases 16 - c,
            {
                if active[c] != 0 && heights[c] > 15 {
                    proof {
                        assert(!profile_ok(
                            record_heights(payload@, p as int, t as int),
                            record_active(payload@, p as int, t as int),
                        ));
                    }
                    return None;
                }
                c = c + 1;
            }
            let y_flip = payload[start + 32] != 0;
            let m = CollisionMask::from_profile(&heights, &active, y_flip);
            let info = TileInfo {
                floor_angle: payload[start + 33],
                l_wall_angle: payload[start + 34],
                r_wall_angle: payload[start + 35],
                roof_angle: payload[start + 36],
                flag: payload[start + 37],
            };
            let ghost old_masks = masks@;
            let ghost old_infos = infos@;
            masks.push(m);
            infos.push(info);
            proof {
                assert(tile_index(p as int, 0, t as int) == masks@.len() - 1);
                assert forall|q: int, v: int, u: int|
                    0 <= q < 2 && 0 <= v < 4 && 0 <= u < 1024 && tile_index(q, v, u)
                        < masks@.len() implies mask_entry_ok(payload@, masks@, q, v, u)
                    && info_entry_ok(payload@, infos@, q, v, u) by {
                    if tile_index(q, v, u) < old_masks.len() {
                        assert(mask_entry_ok(payload@, old_masks, q, v, u));
                        assert(info_entry_ok(payload@, old_infos, q, v, u));
                        assert(tile_index(q, 0, u) <= tile_index(q, v, u));
                        assert(tile_index(q, 2, u) <= tile_index(q, v, u) || v != 3);
                    } else {
                        assert(q == p && v == 0 && u == t);
                    }
                }
            }
            t = t + 1;
        }
        // Mirrored variants: left-right, top-bottom, then both.
        let mut v: usize = 1;
        while v < 4
            invariant
                0 <= p < CPATH_COUNT,
                plane_start == p * 4096,
                1 <= v <= 4,
                payload@.len() >= TILE_CONFIG_SIZE,
                masks@.len() == plane_start + v * 1024,
                infos@.len() == plane_start + v * 1024,
                forall|i: int| 0 <= i < masks@.len() ==> (#[trigger] masks@[i]).wf(),
                entries_ok(payload@, masks@, infos@, masks@.len() as int),
                forall|q: int, u: int|
                    0 <= q <= p && 0 <= u < 1024 ==> #[trigger] profile_ok(
                        record_heights(payload@, q, u),
                        record_active(payload@, q, u),
                    ),
            decreases 4 - v,
        {
            let mut t: usize = 0;
            while t < TILE_COUNT
                invariant
                    0 <= p < CPATH_COUNT,
                    plane_start == p * 4096,
                    1 <= v < 4,
                    0 <= t <= TILE_COUNT,
                    payload@.len() >= TILE_CONFIG_SIZE,
                    masks@.len() == plane_start + v * 1024 + t,
                    infos@.len() == plane_start + v * 1024 + t,
                    forall|i: int| 0 <= i < masks@.len() ==> (#[trigger] masks@[i]).wf(),
                    entries_ok(payload@, masks@, infos@, masks@.len() as int),
                decreases TILE_COUNT - t,
            {
                let base_i: usize = plane_start + t;
                let (m, info) = if v == 1 {
                    (masks[base_i].flip_x(), infos[base_i].flip_x())
                } else if v == 2 {
                    (masks[base_i].flip_y(), infos[base_i].flip_y())
                } else {
                    (masks[base_i + 2048].flip_x(), infos[base_i + 2048].flip_x())
                };
                proof {
                    assert(tile_index(p as int, 0, t as int) == base_i);
                    assert(mask_entry_ok(payload@, masks@, p as int, 0, t as int));
                    assert(info_entry_ok(payload@, infos@, p as int, 0, t as int));
                    if v == 3 {
                        assert(tile_index(p as int, 2, t as int) == base_i + 2048);
                        assert(info_entry_ok(payload@, infos@, p as int, 2, t as int));
                    }
                }
                let ghost old_masks = masks@;
                let ghost old_infos = infos@;
                masks.push(m);
                infos.push(info);
                proof {
                    assert(tile_index(p as int, v as int, t as int) == masks@.len() - 1);
                    assert forall|q: int, w: int, u: int|
                        0 <= q < 2 && 0 <= w < 4 && 0 <= u < 1024 && tile_index(q, w, u)
                            < masks@.len() implies mask_entry_ok(payload@, masks@, q, w, u)
                        && info_entry_ok(payload@, infos@, q, w, u) by {
                        if tile_index(q, w, u) < old_masks.len() {
                            assert(mask_entry_ok(payload@, old_masks, q, w, u));
                            assert(info_entry_ok(payload@, old_infos, q, w, u));
                            assert(tile_index(q, 0, u) <= tile_index(q, w, u));
                            assert(tile_index(q, 2, u) <= tile_index(q, w, u) || w != 3);
                        } else {
                            assert(q == p && w == v && u == t);
                        }
                    }
                }
                t = t + 1;
            }
            v = v + 1;
        }
        p = p + 1;
    }
    Some(TileConfig { masks, infos })
}

/// Reflecting a tile's masks left to right and top to bottom gives the same
/// tile in either order.
pub proof fn lemma_mask_flips_commute(
    base: CollisionMask,
    x: CollisionMask,
    y: CollisionMask,
    xy: CollisionMask,
    yx: CollisionMask,
)
    requires
        base.wf(),
        x.is_flip_x_of(&base),
        y.is_flip_y_of(&base),
        xy.is_flip_x_of(&y),
        yx.is_flip_y_of(&x),
    ensures
        xy.same(&yx),
{
    assert forall|c: int| 0 <= c < 16 implies xy.floor_masks@[c] == yx.floor_masks@[c]
        && xy.roof_masks@[c] == yx.roof_masks@[c] && xy.l_wall_masks@[c] == yx.l_wall_masks@[c]
        && xy.r_wall_masks@[c] == yx.r_wall_masks@[c] by {
        assert(xy.floor_masks@[c] == y.floor_masks@[15 - c]);
        assert(y.floor_masks@[15 - c] == mirror_depth(base.roof_masks@[15 - c]));
        assert(yx.floor_masks@[c] == mirror_depth(x.roof_masks@[c]));
        assert(x.roof_masks@[c] == base.roof_masks@[15 - c]);
        assert(xy.roof_masks@[c] == y.roof_masks@[15 - c]);
        assert(y.roof_masks@[15 - c] == mirror_depth(base.floor_masks@[15 - c]));
        assert(yx.roof_masks@[c] == mirror_depth(x.floor_masks@[c]));
        assert(x.floor_masks@[c] == base.floor_masks@[15 - c]);
        assert(xy.l_wall_masks@[c] == mirror_depth(y.r_wall_masks@[c]));
        assert(y.r_wall_masks@[c] == base.r_wall_masks@[15 - c]);
        assert(yx.l_wall_masks@[c] == x.l_wall_masks@[15 - c]);
        assert(x.l_wall_masks@[15 - c] == mirror_depth(base.r_wall_masks@[15 - c]));
        assert(xy.r_wall_masks@[c] == mirror_depth(y.l_wall_masks@[c]));
        assert(y.l_wall_masks@[c] == base.l_wall_masks@[15 - c]);
        assert(yx.r_wall_masks@[c] == x.r_wall_masks@[15 - c]);
        assert(x.r_wall_masks@[15 - c] == mirror_depth(base.l_wall_masks@[15 - c]));
    }
    assert(xy.floor_masks@ =~= yx.floor_masks@);
    assert(xy.roof_masks@ =~= yx.roof_masks@);
    assert(xy.l_wall_masks@ =~= yx.l_wall_masks@);
    assert(xy.r_wall_masks@ =~= yx.r_wall_masks@);
}

/// Reflecting a tile's angles left to right and top to bottom gives the same
/// angles in either order: each of them is the angle turned by a half turn.
pub proof fn lemma_info_flips_commute(base: TileInfo)
    ensures
        base.flip_y_spec().flip_x_spec() == base.flip_x_spec().flip_y_spec(),
        base.flip_y_spec().flip_x_spec().floor_angle == ((base.roof_angle + 0x80) % 256) as u8,
{
    lemma_half_turn(base.floor_angle);
    lemma_half_turn(base.l_wall_angle);
    lemma_half_turn(base.r_wall_angle);
    lemma_half_turn(base.roof_angle);
}

proof fn lemma_half_turn(a: u8)
    ensures
        neg_angle(flip_y_angle(a)) == ((a + 0x80) % 256) as u8,
        flip_y_angle(neg_angle(a)) == ((a + 0x80) % 256) as u8,
{
    if a == 0 {
    } else if a < 0x80 {
        assert(neg_angle(a) == 256 - a);
        assert(flip_y_angle(a) == 0x80 - a);
    } else if a == 0x80 {
    } else {
        assert(neg_angle(a) == 256 - a);
        assert(flip_y_angle(a) == 0x180 - a);
    }
}

/// A reflected depth is mirrored back by a second reflection.
pub proof fn lemma_mirror_involutive(h: u8)
    requires
        valid_depth(h),
    ensures
        mirror_depth(mirror_depth(h)) == h,
{
}

/// In a loaded table, the tile mirrored both ways is the left-right mirror
/// of the top-bottom mirror, and equally the top-bottom mirror of the
/// left-right mirror: the order of the two reflections does not matter.
pub proof fn lemma_loaded_flip_xy_order_independent(payload: Seq<u8>, cfg: TileConfig, p: int, t: int, yx: CollisionMask)
    requires
        cfg.wf(),
        entries_ok(payload, cfg.masks@, cfg.infos@, (CPATH_COUNT * PLANE_TILES) as int),
        0 <= p < 2,
        0 <= t < 1024,
        yx.is_flip_y_of(&cfg.masks@[tile_index(p, 1, t)]),
    ensures
        cfg.masks@[tile_index(p, 3, t)].same(&yx),
        cfg.infos@[tile_index(p, 3, t)] == cfg.infos@[tile_index(p, 0, t)].flip_x_spec().flip_y_spec(),
{
    assert(mask_entry_ok(payload, cfg.masks@, p, 0, t) && info_entry_ok(payload, cfg.infos@, p, 0, t));
    assert(mask_entry_ok(payload, cfg.masks@, p, 1, t));
    assert(mask_entry_ok(payload, cfg.masks@, p, 2, t));
    assert(mask_entry_ok(payload, cfg.masks@, p, 3, t) && info_entry_ok(payload, cfg.infos@, p, 3, t));
    lemma_mask_flips_commute(
        cfg.masks@[tile_index(p, 0, t)],
        cfg.masks@[tile_index(p, 1, t)],
        cfg.masks@[tile_index(p, 2, t)],
        cfg.masks@[tile_index(p, 3, t)],
        yx,
    );
    lemma_info_flips_commute(record_info(payload, p, t));
}

} // verus!
