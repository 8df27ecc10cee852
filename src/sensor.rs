//! The sensor cast engine: from a world position, walk the tile grid in one
//! direction and report the nearest surface that the probe's rule accepts.
use vstd::prelude::*;
use crate::fixed::{from_fixed, from_fixed_spec, to_fixed, to_fixed_spec, Vector2};
use crate::layer::{TileLayer, EMPTY_TILE};
use crate::tiles::{CollisionMask, TileConfig, TileInfo, NO_SURFACE, PLANE_TILES};

verus! {

/// Most tile layers that a scene can hold (one bit each in a layer mask).
pub const MAX_LAYERS: usize = 16;

/// How far a forward (wall) sensor reaches, in pixels.
pub const COLLISION_MINIMUM_DISTANCE: i32 = 14;

/// How far a tracking sensor's angle may differ from the surface's.
pub const ANGLE_TOLERANCE: u8 = 0x20;

/// Largest pixel coordinate that a probe starts from (the range of a Q16.16 value).
pub const MAX_PROBE_COORD: i32 = 0x8200;

/// The side of a tile that a probe looks for.
#[derive(Clone, Copy, Debug, PartialEq, Eq, Structural)]
pub enum Surface {
    /// The top of a tile: a downward probe.
    Floor,
    /// The left side of a tile: a rightward probe.
    LeftWall,
    /// The right side of a tile: a leftward probe.
    RightWall,
    /// The bottom of a tile: an upward probe.
    Roof,
}

/// When a surface found by a probe counts as a contact.
#[derive(Clone, Copy, Debug, PartialEq, Eq, Structural)]
pub enum ScanRule {
    /// A forward sensor: the surface lies on the probe's near side, at most
    /// `COLLISION_MINIMUM_DISTANCE` away.
    Contact,
    /// A tracking sensor: within `tolerance`, at an angle close to the
    /// sensor's, and not behind an earlier contact of the same cast.
    Track { tolerance: i32 },
    /// A one-shot grip: the first surface found decides, contact if within
    /// `tolerance`.
    Grip { tolerance: i32 },
}

/// One cast: which surface, against which tiles, from where (in pixels).
#[derive(Clone, Copy, Debug, PartialEq, Eq, Structural)]
pub struct Cast {
    pub surf: Surface,
    pub rule: ScanRule,
    /// Layout bits that make a tile solid for this cast.
    pub solid: u16,
    /// Bit `l` selects layer `l`.
    pub layers: u16,
    pub plane: u8,
    /// Coordinate across the probe (x for floor and roof probes).
    pub primary: i32,
    /// Coordinate along the probe where the sensor stands.
    pub sensor: i32,
}

/// What a cast has found so far.
#[derive(Clone, Copy, Debug, PartialEq, Eq, Structural)]
pub struct ScanState {
    /// A contact was accepted during this cast.
    pub hit: bool,
    pub collided: bool,
    pub angle: u8,
    /// Pixel coordinate along the probe of the last contact (of the sensor before one).
    pub pos: i32,
}

/// A probe point of the path grip and of the wall checks.
#[derive(Clone, Copy, Debug, PartialEq, Eq, Structural)]
pub struct CollisionSensor {
    pub position: Vector2,
    pub collided: bool,
    pub angle: u8,
}

/// The collision algorithms of the two engine revisions, chosen when a
/// stage loads.
#[derive(Clone, Copy, Debug, PartialEq, Eq, Structural)]
pub enum EngineRevision {
    /// Downward tile collisions only; loose tolerance 15.
    ClassicSingleOrientation,
    /// Downward or upward tile collisions; loose tolerance 14; floor and
    /// roof checks keep the nearest surface of two steps.
    ExtendedDualOrientation,
}

/// Tile layers of a scene with the stage's collision table.
pub struct TileScene {
    pub layers: Vec<TileLayer>,
    pub config: TileConfig,
    pub revision: EngineRevision,
}

impl TileScene {
    pub open spec fn wf(&self) -> bool {
        &&& self.layers@.len() <= MAX_LAYERS
        &&& forall|l: int| 0 <= l < self.layers@.len() ==> (#[trigger] self.layers@[l]).wf()
        &&& self.config.wf()
    }
}

impl CollisionSensor {
    pub fn new() -> (r: CollisionSensor)
        ensures
            r.position.x == 0 && r.position.y == 0 && !r.collided && r.angle == 0,
    {
        CollisionSensor { position: Vector2::new(), collided: false, angle: 0 }
    }
}

pub open spec fn is_vertical(surf: Surface) -> bool {
    surf == Surface::Floor || surf == Surface::Roof
}

/// Floor and left-wall probes start one tile before the sensor and step
/// forward; roof and right-wall probes start one tile after it and step back.
pub open spec fn start_offset(surf: Surface) -> int {
    if surf == Surface::Floor || surf == Surface::LeftWall {
        -16
    } else {
        16
    }
}

pub open spec fn surface_depth(m: CollisionMask, surf: Surface, col: int) -> u8 {
    match surf {
        Surface::Floor => m.floor_masks@[col],
        Surface::LeftWall => m.l_wall_masks@[col],
        Surface::RightWall => m.r_wall_masks@[col],
        Surface::Roof => m.roof_masks@[col],
    }
}

pub open spec fn surface_angle(i: TileInfo, surf: Surface) -> u8 {
    match surf {
        Surface::Floor => i.floor_angle,
        Surface::LeftWall => i.l_wall_angle,
        Surface::RightWall => i.r_wall_angle,
        Surface::Roof => i.roof_angle,
    }
}

pub open spec fn table_index(plane: u8, id: u16) -> int {
    plane * PLANE_TILES + (id & 0xFFFu16)
}

/// Layer `l`'s origin: (across the probe, along the probe).
pub open spec fn layer_origin(layer: TileLayer, surf: Surface) -> (int, int) {
    if is_vertical(surf) {
        (layer.position.x as int, layer.position.y as int)
    } else {
        (layer.position.y as int, layer.position.x as int)
    }
}

/// The layout entry at a cell: `p` across and `cell` along the probe, in
/// the layer's pixels.
pub open spec fn cell_tile(layer: TileLayer, surf: Surface, p: int, cell: int) -> Option<u16> {
    if is_vertical(surf) {
        layer.tile_spec(p / 16, cell / 16)
    } else {
        layer.tile_spec(cell / 16, p / 16)
    }
}

/// What the tile at `cell` offers to a probe: the world coordinate of its
/// surface and the surface angle, if the tile is present, solid for the
/// cast, and has a surface in the probed column.
pub open spec fn candidate(scene: TileScene, l: int, cast: Cast, cell: int) -> Option<(i32, u8)> {
    let layer = scene.layers@[l];
    let (lp, ls) = layer_origin(layer, cast.surf);
    let p = cast.primary - lp;
    match cell_tile(layer, cast.surf, p, cell) {
        Some(id) => {
            if id != EMPTY_TILE && (id & cast.solid) != 0u16 {
                let k = table_index(cast.plane, id);
                let d = surface_depth(scene.config.masks@[k], cast.surf, p % 16);
                if d != NO_SURFACE {
                    Some(((cell + d + ls) as i32, surface_angle(scene.config.infos@[k], cast.surf)))
                } else {
                    None
                }
            } else {
                None
            }
        },
        None => None,
    }
}

pub open spec fn abs_diff(a: int, b: int) -> int {
    if a >= b {
        a - b
    } else {
        b - a
    }
}

/// Whether a tracking sensor at angle `a` may take a surface at angle `b`:
/// floors and roofs compare around the circle (a floor at 0xF8 is close to
/// one at 0x04), walls by the plain difference of the bytes.
pub open spec fn angle_close(surf: Surface, a: u8, b: u8) -> bool {
    if is_vertical(surf) {
        abs_diff(a as int, b as int) <= ANGLE_TOLERANCE || 256 - abs_diff(a as int, b as int)
            <= ANGLE_TOLERANCE
    } else {
        abs_diff(a as int, b as int) <= ANGLE_TOLERANCE
    }
}

/// `t` is no further along the probe than `start`.
pub open spec fn not_behind(surf: Surface, start: int, t: int) -> bool {
    if surf == Surface::Floor || surf == Surface::LeftWall {
        start >= t
    } else {
        start <= t
    }
}

/// Whether a surface at `t` with angle `a` counts as a contact.
pub open spec fn accepts(cast: Cast, st: ScanState, t: int, a: u8) -> bool {
    let s = cast.sensor as int;
    match cast.rule {
        ScanRule::Contact => match cast.surf {
            Surface::Floor | Surface::LeftWall => s >= t && s - t
                <= COLLISION_MINIMUM_DISTANCE,
            Surface::Roof => s < t && t - s <= COLLISION_MINIMUM_DISTANCE,
            Surface::RightWall => s <= t && t - s <= COLLISION_MINIMUM_DISTANCE,
        },
        ScanRule::Track { tolerance } => abs_diff(s, t) <= tolerance && angle_close(cast.surf, st.angle, a)
            && (!st.collided || not_behind(cast.surf, st.pos as int, t)),
        ScanRule::Grip { tolerance } => abs_diff(st.pos as int, t) <= tolerance,
    }
}

/// Where the probe of a layer starts, along the probe, in the layer's pixels.
pub open spec fn first_cell(cast: Cast, st: ScanState, ls: int) -> int {
    let b = (if cast.rule is Grip {
        st.pos
    } else {
        cast.sensor
    }) - ls;
    ((b as i32) & -16i32) + start_offset(cast.surf)
}

/// The contact that the probe of layer `l` finds from step `i` on (three
/// steps in all); a grip gives up at the first surface it meets.
pub open spec fn scan_from(scene: TileScene, l: int, cast: Cast, st: ScanState, c0: int, i: int) -> Option<(i32, u8)>
    decreases 3 - i,
{
    if i >= 3 || i < 0 {
        None
    } else {
        match candidate(scene, l, cast, c0 - start_offset(cast.surf) * i) {
            Some((t, a)) => if accepts(cast, st, t as int, a) {
                Some((t, a))
            } else if cast.rule is Grip {
                None
            } else {
                scan_from(scene, l, cast, st, c0, i + 1)
            },
            None => scan_from(scene, l, cast, st, c0, i + 1),
        }
    }
}

pub open spec fn scan_layer(scene: TileScene, l: int, cast: Cast, st: ScanState) -> Option<(i32, u8)> {
    let (lp, ls) = layer_origin(scene.layers@[l], cast.surf);
    scan_from(scene, l, cast, st, first_cell(cast, st, ls), 0)
}

pub open spec fn layer_selected(mask: u16, l: int) -> bool {
    ((mask >> (l as u16)) & 1u16) == 1u16
}

/// The cast over layers `l..`, in layer order; a later layer's contact
/// replaces an earlier one's.
pub open spec fn cast_from(scene: TileScene, cast: Cast, st: ScanState, l: int) -> ScanState
    decreases scene.layers@.len() - l,
{
    if l >= scene.layers@.len() || l < 0 {
        st
    } else {
        let next = if layer_selected(cast.layers, l) {
            match scan_layer(scene, l, cast, st) {
                Some((t, a)) => ScanState { hit: true, collided: true, angle: a, pos: t },
                None => st,
            }
        } else {
            st
        };
        cast_from(scene, cast, next, l + 1)
    }
}

pub open spec fn cast_ok(cast: Cast) -> bool {
    &&& cast.plane < 2
    &&& -MAX_PROBE_COORD <= cast.primary <= MAX_PROBE_COORD
    &&& -MAX_PROBE_COORD <= cast.sensor <= MAX_PROBE_COORD
}

pub open spec fn state_ok(st: ScanState) -> bool {
    -MAX_PROBE_COORD <= st.pos <= MAX_PROBE_COORD
}

fn is_vertical_exec(surf: Surface) -> (r: bool)
    ensures
        r == is_vertical(surf),
{
    match surf {
        Surface::Floor | Surface::Roof => true,
        _ => false,
    }
}

/// The tile at `cell` as seen by the probe (see `candidate`).
fn tile_candidate(scene: &TileScene, l: usize, cast: &Cast, cell: i32) -> (r: Option<(i32, u8)>)
    requires
        scene.wf(),
        l < scene.layers@.len(),
        cast_ok(*cast),
        -0x10000 <= cell <= 0x10000,
    ensures
        r == candidate(*scene, l as int, *cast, cell as int),
        r matches Some((t, a)) ==> -MAX_PROBE_COORD <= t <= MAX_PROBE_COORD,
{
    let layer = &scene.layers[l];
    assert(layer.wf());
    let vertical = is_vertical_exec(cast.surf);
    let (lp, ls) = if vertical {
        (layer.position.x, layer.position.y)
    } else {
        (layer.position.y, layer.position.x)
    };
    let p = cast.primary - lp;
    if p < 0 || cell < 0 {
        return None;
    }
    let pt = (p as u32 / 16) as i32;
    let ct = (cell as u32 / 16) as i32;
    let tile = if vertical {
        layer.get(pt, ct)
    } else {
        layer.get(ct, pt)
    };
    match tile {
        Some(id) => {
            if id != EMPTY_TILE && (id & cast.solid) != 0 {
                assert((id & 0xFFFu16) <= 0xFFF) by (bit_vector);
                let k = (cast.plane as usize) * PLANE_TILES + (id & 0xFFF) as usize;
                let col = (p as u32 % 16) as usize;
                let m = &scene.config.masks[k];
                let info = &scene.config.infos[k];
                let (d, a) = match cast.surf {
                    Surface::Floor => (m.floor_masks[col], info.floor_angle),
                    Surface::LeftWall => (m.l_wall_masks[col], info.l_wall_angle),
                    Surface::RightWall => (m.r_wall_masks[col], info.r_wall_angle),
                    Surface::Roof => (m.roof_masks[col], info.roof_angle),
                };
                if d != NO_SURFACE {
                    proof {
                        assert(layer.tile_spec(pt as int, ct as int) is Some || layer.tile_spec(
                            ct as int,
                            pt as int,
                        ) is Some);
                        assert(0 <= cell < 16 * 0x400);
                    }
                    Some((cell + d as i32 + ls, a))
                } else {
                    None
                }
            } else {
                None
            }
        },
        None => None,
    }
}

fn abs_diff_exec(a: i32, b: i32) -> (r: i32)
    requires
        -0x10000 <= a <= 0x10000,
        -0x10000 <= b <= 0x10000,
    ensures
        r == abs_diff(a as int, b as int),
{
    if a >= b {
        a - b
    } else {
        b - a
    }
}

fn accepts_exec(cast: &Cast, st: &ScanState, t: i32, a: u8) -> (r: bool)
    requires
        cast_ok(*cast),
        state_ok(*st),
        -MAX_PROBE_COORD <= t <= MAX_PROBE_COORD,
    ensures
        r == accepts(*cast, *st, t as int, a),
{
    let s = cast.sensor;
    match cast.rule {
        ScanRule::Contact => match cast.surf {
            Surface::Floor | Surface::LeftWall => s >= t && s - t <= COLLISION_MINIMUM_DISTANCE,
            Surface::Roof => s < t && t - s <= COLLISION_MINIMUM_DISTANCE,
            Surface::RightWall => s <= t && t - s <= COLLISION_MINIMUM_DISTANCE,
        },
        ScanRule::Track { tolerance } => {
            let d = abs_diff_exec(st.angle as i32, a as i32);
            let behind_ok = match cast.surf {
                Surface::Floor | Surface::LeftWall => st.pos >= t,
                _ => st.pos <= t,
            };
            let angle_ok = if is_vertical_exec(cast.surf) {
                d <= ANGLE_TOLERANCE as i32 || 256 - d <= ANGLE_TOLERANCE as i32
            } else {
                d <= ANGLE_TOLERANCE as i32
            };
            abs_diff_exec(s, t) <= tolerance && angle_ok && (!st.collided || behind_ok)
        },
        ScanRule::Grip { tolerance } => abs_diff_exec(st.pos, t) <= tolerance,
    }
}

proof fn lemma_tile_floor(b: i32)
    ensures
        b - 16 < (b & -16i32) <= b,
{
    assert(b - 16 < (b & -16i32) <= b) by (bit_vector);
}

/// The probe of one layer (see `scan_layer`).
fn scan_layer_exec(scene: &TileScene, l: usize, cast: &Cast, st: &ScanState) -> (r: Option<(i32, u8)>)
    requires
        scene.wf(),
        l < scene.layers@.len(),
        cast_ok(*cast),
        state_ok(*st),
    ensures
        r == scan_layer(*scene, l as int, *cast, *st),
        r matches Some((t, a)) ==> -MAX_PROBE_COORD <= t <= MAX_PROBE_COORD,
{
    let layer = &scene.layers[l];
    assert(layer.wf());
    let ls = if is_vertical_exec(cast.surf) {
        layer.position.y
    } else {
        layer.position.x
    };
    let is_grip = match cast.rule {
        ScanRule::Grip { .. } => true,
        _ => false,
    };
    let b = if is_grip {
        st.pos
    } else {
        cast.sensor
    } - ls;
    proof {
        lemma_tile_floor(b);
    }
    let offset: i32 = match cast.surf {
        Surface::Floor | Surface::LeftWall => -16,
        _ => 16,
    };
    let c0 = (b & -16i32) + offset;
    let ghost g0 = c0 as int;
    proof {
        assert(g0 == first_cell(*cast, *st, ls as int));
    }
    let mut cell = c0;
    let mut i: usize = 0;
    while i < 3
        invariant
            0 <= i <= 3,
            scene.wf(),
            l < scene.layers@.len(),
            cast_ok(*cast),
            state_ok(*st),
            offset == start_offset(cast.surf),
            is_grip == cast.rule is Grip,
            -0xC300 <= g0 <= 0xC300,
            cell == g0 - offset * i,
            scan_from(*scene, l as int, *cast, *st, g0, i as int) == scan_layer(
                *scene,
                l as int,
                *cast,
                *st,
            ),
        decreases 3 - i,
    {
        match tile_candidate(scene, l, cast, cell) {
            Some((t, a)) => {
                if accepts_exec(cast, st, t, a) {
                    return Some((t, a));
                } else if is_grip {
                    return None;
                }
            },
            None => {},
        }
        cell = cell - offset;
        i = i + 1;
    }
    None
}

/// A cast over the selected layers, in layer order (see `cast_from`).
pub fn cast_layers(scene: &TileScene, cast: &Cast, st: ScanState) -> (r: ScanState)
    requires
        scene.wf(),
        cast_ok(*cast),
        state_ok(st),
    ensures
        r == cast_from(*scene, *cast, st, 0),
        state_ok(r),
        !st.hit ==> (r.hit ==> r.collided),
        !r.hit ==> r == st,
{
    let mut cur = st;
    let mut l: usize = 0;
    let n = scene.layers.len();
    while l < n
        invariant
            0 <= l <= n,
            n == scene.layers@.len(),
            scene.wf(),
            cast_ok(*cast),
            state_ok(cur),
            cast_from(*scene, *cast, cur, l as int) == cast_from(*scene, *cast, st, 0),
            !st.hit ==> (cur.hit ==> cur.collided),
            !cur.hit ==> cur == st,
        decreases n - l,
    {
        assert(l < 16);
        let selected = ((cast.layers >> (l as u16)) & 1u16) == 1u16;
        if selected {
            match scan_layer_exec(scene, l, cast, &cur) {
                Some((t, a)) => {
                    cur = ScanState { hit: true, collided: true, angle: a, pos: t };
                },
                None => {},
            }
        }
        l = l + 1;
    }
    cur
}

/// The cast's starting state for a sensor.
pub open spec fn start_state(cast: Cast, s: CollisionSensor) -> ScanState {
    ScanState { hit: false, collided: s.collided, angle: s.angle, pos: cast.sensor }
}

/// A sensor after a cast: on a contact it takes the contact's angle and its
/// coordinate along the probe moves onto the surface.
pub open spec fn sensor_after(cast: Cast, s: CollisionSensor, r: ScanState) -> CollisionSensor {
    if r.hit {
        CollisionSensor {
            position: if is_vertical(cast.surf) {
                Vector2 { x: s.position.x, y: to_fixed_spec(r.pos) }
            } else {
                Vector2 { x: to_fixed_spec(r.pos), y: s.position.y }
            },
            collided: true,
            angle: r.angle,
        }
    } else {
        s
    }
}

/// The cast that a sensor makes.
pub open spec fn sensor_cast(surf: Surface, rule: ScanRule, solid: u16, layers: u16, plane: u8, s: CollisionSensor) -> Cast {
    let px = from_fixed_spec(s.position.x);
    let py = from_fixed_spec(s.position.y);
    Cast {
        surf,
        rule,
        solid,
        layers,
        plane,
        primary: if is_vertical(surf) {
            px
        } else {
            py
        },
        sensor: if is_vertical(surf) {
            py
        } else {
            px
        },
    }
}

/// The sensor after probing for `surf` under `rule`.
pub open spec fn probe_result(scene: TileScene, surf: Surface, rule: ScanRule, solid: u16, layers: u16, plane: u8, s: CollisionSensor) -> CollisionSensor {
    let cast = sensor_cast(surf, rule, solid, layers, plane, s);
    sensor_after(cast, s, cast_from(scene, cast, start_state(cast, s), 0))
}

/// Probes from a sensor and moves it onto the surface found, if any.
pub fn probe(scene: &TileScene, surf: Surface, rule: ScanRule, solid: u16, layers: u16, plane: u8, sensor: &mut CollisionSensor)
    requires
        scene.wf(),
        plane < 2,
    ensures
        *final(sensor) == probe_result(*scene, surf, rule, solid, layers, plane, *old(sensor)),
{
    let px = from_fixed(sensor.position.x);
    let py = from_fixed(sensor.position.y);
    let vertical = is_vertical_exec(surf);
    let cast = Cast {
        surf,
        rule,
        solid,
        layers,
        plane,
        primary: if vertical {
            px
        } else {
            py
        },
        sensor: if vertical {
            py
        } else {
            px
        },
    };
    let st = ScanState { hit: false, collided: sensor.collided, angle: sensor.angle, pos: cast.sensor };
    let r = cast_layers(scene, &cast, st);
    if r.hit {
        sensor.collided = true;
        sensor.angle = r.angle;
        if vertical {
            sensor.position.y = to_fixed(r.pos);
        } else {
            sensor.position.x = to_fixed(r.pos);
        }
    }
}

/// Layout bits that make a tile solid from above, for a plane.
pub open spec fn top_solid(plane: u8) -> u16 {
    if plane != 0 {
        0x4000u16
    } else {
        0x1000u16
    }
}

/// Layout bits that make a tile solid from the sides and below, for a plane.
pub open spec fn side_solid(plane: u8) -> u16 {
    if plane != 0 {
        0x8000u16
    } else {
        0x2000u16
    }
}

/// See `top_solid`.
pub fn top_solid_bits(plane: u8) -> (r: u16)
    ensures
        r == top_solid(plane),
{
    if plane != 0 {
        0x4000
    } else {
        0x1000
    }
}

/// See `side_solid`.
pub fn side_solid_bits(plane: u8) -> (r: u16)
    ensures
        r == side_solid(plane),
{
    if plane != 0 {
        0x8000
    } else {
        0x2000
    }
}


/// Steps of a precise floor or roof check, per layer.
pub const PRECISE_STEPS: usize = 2;

/// `t` lies further against the probe than `b`: higher for a floor, lower
/// for a roof.
pub open spec fn beyond(surf: Surface, t: i32, b: i32) -> bool {
    if surf == Surface::Floor {
        t < b
    } else {
        t > b
    }
}

pub open spec fn keep_nearest(surf: Surface, c: Option<(i32, u8)>, best: Option<(i32, u8)>) -> Option<(i32, u8)> {
    match c {
        Some((t, a)) => match best {
            Some((b, _)) => if beyond(surf, t, b) {
                c
            } else {
                best
            },
            None => c,
        },
        None => best,
    }
}

/// The surface kept by the steps `i..` of a precise check of layer `l`.
pub open spec fn nearest_from(scene: TileScene, l: int, cast: Cast, c0: int, i: int, best: Option<(i32, u8)>) -> Option<(i32, u8)>
    decreases PRECISE_STEPS - i,
{
    if i >= PRECISE_STEPS || i < 0 {
        best
    } else {
        let c = candidate(scene, l, cast, c0 - start_offset(cast.surf) * i);
        nearest_from(scene, l, cast, c0, i + 1, keep_nearest(cast.surf, c, best))
    }
}

pub open spec fn sensor_first_cell(cast: Cast, ls: int) -> int {
    (((cast.sensor - ls) as i32) & -16i32) + start_offset(cast.surf)
}

/// The surface kept over the selected layers `l..`.
pub open spec fn nearest_layers(scene: TileScene, cast: Cast, l: int, best: Option<(i32, u8)>) -> Option<(i32, u8)>
    decreases scene.layers@.len() - l,
{
    if l >= scene.layers@.len() || l < 0 {
        best
    } else {
        let (lp, ls) = layer_origin(scene.layers@[l], cast.surf);
        let next = if layer_selected(cast.layers, l) {
            nearest_from(scene, l, cast, sensor_first_cell(cast, ls), 0, best)
        } else {
            best
        };
        nearest_layers(scene, cast, l + 1, next)
    }
}

/// A precise floor or roof check: of every surface found in two steps of
/// each selected layer, only the one furthest against the probe counts, and
/// it is a contact if it lies on the probe's near side within
/// `COLLISION_MINIMUM_DISTANCE`.
pub open spec fn precise_result(scene: TileScene, surf: Surface, solid: u16, layers: u16, plane: u8, s: CollisionSensor) -> CollisionSensor {
    let cast = sensor_cast(surf, ScanRule::Contact, solid, layers, plane, s);
    match nearest_layers(scene, cast, 0, None) {
        Some((t, a)) => if accepts(cast, start_state(cast, s), t as int, a) {
            sensor_after(cast, s, ScanState { hit: true, collided: true, angle: a, pos: t })
        } else {
            s
        },
        None => s,
    }
}

fn nearest_in_layer(scene: &TileScene, l: usize, cast: &Cast, best: Option<(i32, u8)>) -> (r: Option<(i32, u8)>)
    requires
        scene.wf(),
        l < scene.layers@.len(),
        cast_ok(*cast),
        best matches Some((t, a)) ==> -MAX_PROBE_COORD <= t <= MAX_PROBE_COORD,
    ensures
        r == nearest_from(
            *scene,
            l as int,
            *cast,
            sensor_first_cell(*cast, layer_origin(scene.layers@[l as int], cast.surf).1),
            0,
            best,
        ),
        r matches Some((t, a)) ==> -MAX_PROBE_COORD <= t <= MAX_PROBE_COORD,
{
    let layer = &scene.layers[l];
    assert(layer.wf());
    let ls = if is_vertical_exec(cast.surf) {
        layer.position.y
    } else {
        layer.position.x
    };
    let b = cast.sensor - ls;
    proof {
        lemma_tile_floor(b);
    }
    let offset: i32 = match cast.surf {
        Surface::Floor | Surface::LeftWall => -16,
        _ => 16,
    };
    let c0 = (b & -16i32) + offset;
    let ghost g0 = c0 as int;
    let mut cell = c0;
    let mut cur = best;
    let mut i: usize = 0;
    while i < PRECISE_STEPS
        invariant
            0 <= i <= PRECISE_STEPS,
            scene.wf(),
            l < scene.layers@.len(),
            cast_ok(*cast),
            offset == start_offset(cast.surf),
            -0xC300 <= g0 <= 0xC300,
            g0 == sensor_first_cell(*cast, layer_origin(scene.layers@[l as int], cast.surf).1),
            cell == g0 - offset * i,
            cur matches Some((t, a)) ==> -MAX_PROBE_COORD <= t <= MAX_PROBE_COORD,
            nearest_from(*scene, l as int, *cast, g0, i as int, cur) == nearest_from(
                *scene,
                l as int,
                *cast,
                g0,
                0,
                best,
            ),
        decreases PRECISE_STEPS - i,
    {
        let c = tile_candidate(scene, l, cast, cell);
        match c {
            Some((t, a)) => {
                let take = match cur {
                    Some((bt, _)) => if cast.surf == Surface::Floor {
                        t < bt
                    } else {
                        t > bt
                    },
                    None => true,
                };
                if take {
                    cur = c;
                }
            },
            None => {},
        }
        cell = cell - offset;
        i = i + 1;
    }
    cur
}

fn precise_probe(scene: &TileScene, surf: Surface, solid: u16, layers: u16, plane: u8, sensor: &mut CollisionSensor)
    requires
        scene.wf(),
        plane < 2,
        surf == Surface::Floor || surf == Surface::Roof,
    ensures
        *final(sensor) == precise_result(*scene, surf, solid, layers, plane, *old(sensor)),
{
    let px = from_fixed(sensor.position.x);
    let py = from_fixed(sensor.position.y);
    let cast = Cast { surf, rule: ScanRule::Contact, solid, layers, plane, primary: px, sensor: py };
    let mut best: Option<(i32, u8)> = None;
    let mut l: usize = 0;
    let n = scene.layers.len();
    while l < n
        invariant
            0 <= l <= n,
            n == scene.layers@.len(),
            scene.wf(),
            cast_ok(cast),
            best matches Some((t, a)) ==> -MAX_PROBE_COORD <= t <= MAX_PROBE_COORD,
            nearest_layers(*scene, cast, l as int, best) == nearest_layers(*scene, cast, 0, None),
        decreases n - l,
    {
        assert(l < 16);
        if ((cast.layers >> (l as u16)) & 1u16) == 1u16 {
            best = nearest_in_layer(scene, l, &cast, best);
        }
        l = l + 1;
    }
    match best {
        Some((t, a)) => {
            let st = ScanState { hit: false, collided: sensor.collided, angle: sensor.angle, pos: py };
            if accepts_exec(&cast, &st, t, a) {
                sensor.collided = true;
                sensor.angle = a;
                sensor.position.y = to_fixed(t);
            }
        },
        None => {},
    }
}


/// Every present tile that is solid for a cast, in the cast's column (or
/// row) on every layer, has the sentinel there.
pub open spec fn column_sentinel(scene: TileScene, cast: Cast) -> bool {
    forall|l: int, cell: int|
        0 <= l < scene.layers@.len() ==> match #[trigger] cell_tile(
            scene.layers@[l],
            cast.surf,
            cast.primary - layer_origin(scene.layers@[l], cast.surf).0,
            cell,
        ) {
            Some(id) => id != EMPTY_TILE && (id & cast.solid) != 0u16 ==> surface_depth(
                scene.config.masks@[table_index(cast.plane, id)],
                cast.surf,
                (cast.primary - layer_origin(scene.layers@[l], cast.surf).0) % 16,
            ) == NO_SURFACE,
            None => true,
        }
}

proof fn lemma_scan_from_none(scene: TileScene, l: int, cast: Cast, st: ScanState, c0: int, i: int)
    requires
        forall|cell: int| #[trigger] candidate(scene, l, cast, cell) is None,
    ensures
        scan_from(scene, l, cast, st, c0, i) is None,
    decreases 3 - i,
{
    if 0 <= i < 3 {
        assert(candidate(scene, l, cast, c0 - start_offset(cast.surf) * i) is None);
        lemma_scan_from_none(scene, l, cast, st, c0, i + 1);
    }
}

proof fn lemma_cast_from_unchanged(scene: TileScene, cast: Cast, st: ScanState, l: int)
    requires
        forall|k: int, cell: int|
            0 <= k < scene.layers@.len() ==> #[trigger] candidate(scene, k, cast, cell) is None,
    ensures
        cast_from(scene, cast, st, l) == st,
    decreases scene.layers@.len() - l,
{
    if 0 <= l < scene.layers@.len() {
        let (lp, ls) = layer_origin(scene.layers@[l], cast.surf);
        assert forall|cell: int| #[trigger] candidate(scene, l, cast, cell) is None by {}
        lemma_scan_from_none(scene, l, cast, st, first_cell(cast, st, ls), 0);
        lemma_cast_from_unchanged(scene, cast, st, l + 1);
    }
}

/// A cast along a column where every solid tile has the sentinel finds no
/// contact on any layer, whatever its rule: the state it starts from comes
/// back unchanged.
pub proof fn lemma_sentinel_cast_finds_nothing(scene: TileScene, cast: Cast, st: ScanState)
    requires
        column_sentinel(scene, cast),
    ensures
        cast_from(scene, cast, st, 0) == st,
{
    assert forall|k: int, cell: int|
        0 <= k < scene.layers@.len() implies #[trigger] candidate(scene, k, cast, cell) is None by {
        let layer = scene.layers@[k];
        let p = cast.primary - layer_origin(layer, cast.surf).0;
        match cell_tile(layer, cast.surf, p, cell) {
            Some(id) => {},
            None => {},
        }
    }
    lemma_cast_from_unchanged(scene, cast, st, 0);
}

/// A sensor probing such a column is left as it was: no collision is reported.
pub proof fn lemma_sentinel_probe_leaves_sensor(scene: TileScene, surf: Surface, rule: ScanRule, solid: u16, layers: u16, plane: u8, s: CollisionSensor)
    requires
        column_sentinel(scene, sensor_cast(surf, rule, solid, layers, plane, s)),
    ensures
        probe_result(scene, surf, rule, solid, layers, plane, s) == s,
{
    let cast = sensor_cast(surf, rule, solid, layers, plane, s);
    lemma_sentinel_cast_finds_nothing(scene, cast, start_state(cast, s));
}

/// The per-call collision context: tolerance, hitboxes and the tiles that
/// the active actor collides with. It is built for one movement call and
/// passed along explicitly.
#[derive(Clone, Copy, Debug, PartialEq, Eq, Structural)]
pub struct CollisionContext {
    pub tolerance: i32,
    /// Vertical offset of the forward sensor while grounded, Q16.16.
    pub offset: i32,
    pub outer: Hitbox,
    pub inner: Hitbox,
    pub layers: u16,
    pub plane: u8,
    /// Tile collisions face up: floors and roofs trade their solidity bits.
    pub up: bool,
    pub revision: EngineRevision,
}

/// A box around the actor's centre, in pixels.
#[derive(Clone, Copy, Debug, PartialEq, Eq, Structural)]
pub struct Hitbox {
    pub left: i16,
    pub top: i16,
    pub right: i16,
    pub bottom: i16,
}

impl Hitbox {
    pub fn new() -> (r: Hitbox)
        ensures
            r == (Hitbox { left: 0, top: 0, right: 0, bottom: 0 }),
    {
        Hitbox { left: 0, top: 0, right: 0, bottom: 0 }
    }
}

impl CollisionContext {
    pub open spec fn wf(&self) -> bool {
        self.plane < 2
    }
}

/// Solidity bits of a floor check: tiles' tops, or their bottoms when
/// collisions face up.
pub open spec fn floor_solid(ctx: CollisionContext) -> u16 {
    if ctx.up {
        side_solid(ctx.plane)
    } else {
        top_solid(ctx.plane)
    }
}

/// Solidity bits of a roof check.
pub open spec fn roof_solid(ctx: CollisionContext) -> u16 {
    if ctx.up {
        top_solid(ctx.plane)
    } else {
        side_solid(ctx.plane)
    }
}

fn floor_solid_bits(ctx: &CollisionContext) -> (r: u16)
    ensures
        r == floor_solid(*ctx),
{
    if ctx.up {
        side_solid_bits(ctx.plane)
    } else {
        top_solid_bits(ctx.plane)
    }
}

fn roof_solid_bits(ctx: &CollisionContext) -> (r: u16)
    ensures
        r == roof_solid(*ctx),
{
    if ctx.up {
        top_solid_bits(ctx.plane)
    } else {
        side_solid_bits(ctx.plane)
    }
}

#[verifier::opaque]
pub open spec fn contact_probe(scene: TileScene, ctx: CollisionContext, surf: Surface, s: CollisionSensor) -> CollisionSensor {
    let solid = match surf {
        Surface::Floor => floor_solid(ctx),
        Surface::Roof => roof_solid(ctx),
        _ => side_solid(ctx.plane),
    };
    if ctx.revision == EngineRevision::ExtendedDualOrientation && is_vertical(surf) {
        precise_result(scene, surf, solid, ctx.layers, ctx.plane, s)
    } else {
        probe_result(scene, surf, ScanRule::Contact, solid, ctx.layers, ctx.plane, s)
    }
}

#[verifier::opaque]
pub open spec fn track_probe(scene: TileScene, ctx: CollisionContext, surf: Surface, s: CollisionSensor) -> CollisionSensor {
    let solid = match surf {
        Surface::Floor => floor_solid(ctx),
        Surface::Roof => roof_solid(ctx),
        _ => (top_solid(ctx.plane) | side_solid(ctx.plane)),
    };
    probe_result(
        scene,
        surf,
        ScanRule::Track { tolerance: ctx.tolerance },
        solid,
        ctx.layers,
        ctx.plane,
        s,
    )
}

fn contact(scene: &TileScene, ctx: &CollisionContext, surf: Surface, sensor: &mut CollisionSensor)
    requires
        scene.wf(),
        ctx.wf(),
    ensures
        *final(sensor) == contact_probe(*scene, *ctx, surf, *old(sensor)),
{
    proof {
        reveal(contact_probe);
    }
    let solid = match surf {
        Surface::Floor => floor_solid_bits(ctx),
        Surface::Roof => roof_solid_bits(ctx),
        _ => side_solid_bits(ctx.plane),
    };
    let vertical = is_vertical_exec(surf);
    if ctx.revision == EngineRevision::ExtendedDualOrientation && vertical {
        precise_probe(scene, surf, solid, ctx.layers, ctx.plane, sensor);
    } else {
        probe(scene, surf, ScanRule::Contact, solid, ctx.layers, ctx.plane, sensor);
    }
}

fn track(scene: &TileScene, ctx: &CollisionContext, surf: Surface, sensor: &mut CollisionSensor)
    requires
        scene.wf(),
        ctx.wf(),
    ensures
        *final(sensor) == track_probe(*scene, *ctx, surf, *old(sensor)),
{
    proof {
        reveal(track_probe);
    }
    let solid = match surf {
        Surface::Floor => floor_solid_bits(ctx),
        Surface::Roof => roof_solid_bits(ctx),
        _ => top_solid_bits(ctx.plane) | side_solid_bits(ctx.plane),
    };
    probe(
        scene,
        surf,
        ScanRule::Track { tolerance: ctx.tolerance },
        solid,
        ctx.layers,
        ctx.plane,
        sensor,
    );
}

/// Forward check against the tops of tiles: a contact at most 14 pixels
/// above the sensor moves it onto the surface. The extended revision makes
/// this check precise (see `precise_result`), as it does the roof check.
pub fn floor_collision(scene: &TileScene, ctx: &CollisionContext, sensor: &mut CollisionSensor)
    requires
        scene.wf(),
        ctx.wf(),
    ensures
        *final(sensor) == contact_probe(*scene, *ctx, Surface::Floor, *old(sensor)),
{
    contact(scene, ctx, Surface::Floor, sensor);
}

/// Forward check against the bottoms of tiles.
pub fn roof_collision(scene: &TileScene, ctx: &CollisionContext, sensor: &mut CollisionSensor)
    requires
        scene.wf(),
        ctx.wf(),
    ensures
        *final(sensor) == contact_probe(*scene, *ctx, Surface::Roof, *old(sensor)),
{
    contact(scene, ctx, Surface::Roof, sensor);
}

/// Forward check against the left sides of tiles (a rightward probe).
pub fn l_wall_collision(scene: &TileScene, ctx: &CollisionContext, sensor: &mut CollisionSensor)
    requires
        scene.wf(),
        ctx.wf(),
    ensures
        *final(sensor) == contact_probe(*scene, *ctx, Surface::LeftWall, *old(sensor)),
{
    contact(scene, ctx, Surface::LeftWall, sensor);
}

/// Forward check against the right sides of tiles (a leftward probe).
pub fn r_wall_collision(scene: &TileScene, ctx: &CollisionContext, sensor: &mut CollisionSensor)
    requires
        scene.wf(),
        ctx.wf(),
    ensures
        *final(sensor) == contact_probe(*scene, *ctx, Surface::RightWall, *old(sensor)),
{
    contact(scene, ctx, Surface::RightWall, sensor);
}

/// Tracks the floor under a grounded sensor, within the context's tolerance.
pub fn find_floor_position(scene: &TileScene, ctx: &CollisionContext, sensor: &mut CollisionSensor)
    requires
        scene.wf(),
        ctx.wf(),
    ensures
        *final(sensor) == track_probe(*scene, *ctx, Surface::Floor, *old(sensor)),
{
    track(scene, ctx, Surface::Floor, sensor);
}

/// Tracks the roof above a sensor hanging from it.
pub fn find_roof_position(scene: &TileScene, ctx: &CollisionContext, sensor: &mut CollisionSensor)
    requires
        scene.wf(),
        ctx.wf(),
    ensures
        *final(sensor) == track_probe(*scene, *ctx, Surface::Roof, *old(sensor)),
{
    track(scene, ctx, Surface::Roof, sensor);
}

/// Tracks the wall to the right of a sensor clinging to it.
pub fn find_l_wall_position(scene: &TileScene, ctx: &CollisionContext, sensor: &mut CollisionSensor)
    requires
        scene.wf(),
        ctx.wf(),
    ensures
        *final(sensor) == track_probe(*scene, *ctx, Surface::LeftWall, *old(sensor)),
{
    track(scene, ctx, Surface::LeftWall, sensor);
}

/// Tracks the wall to the left of a sensor clinging to it.
pub fn find_r_wall_position(scene: &TileScene, ctx: &CollisionContext, sensor: &mut CollisionSensor)
    requires
        scene.wf(),
        ctx.wf(),
    ensures
        *final(sensor) == track_probe(*scene, *ctx, Surface::RightWall, *old(sensor)),
{
    track(scene, ctx, Surface::RightWall, sensor);
}

/// A column whose depth is the sentinel offers no surface to any probe:
/// whatever the rule, the tile there gives no contact.
pub proof fn lemma_sentinel_column_never_collides(scene: TileScene, l: int, cast: Cast, cell: int, id: u16)
    requires
        0 <= l < scene.layers@.len(),
        ({
            let layer = scene.layers@[l];
            let (lp, ls) = layer_origin(layer, cast.surf);
            let p = cast.primary - lp;
            &&& cell_tile(layer, cast.surf, p, cell) == Some(id)
            &&& surface_depth(
                scene.config.masks@[table_index(cast.plane, id)],
                cast.surf,
                p % 16,
            ) == NO_SURFACE
        }),
    ensures
        candidate(scene, l, cast, cell) is None,
{
}

} // verus!
