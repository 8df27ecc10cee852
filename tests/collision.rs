use rsdkv5::actor::{next_collision_mode, CollisionModes, Entity, TileCollisionModes};
use rsdkv5::fixed::{from_fixed, to_fixed, Vector2};
use rsdkv5::grip::process_path_grip;
use rsdkv5::layer::{load_tile_layout, TileLayer};
use rsdkv5::reader::{
    compressed_block_header, has_tile_config_signature, read_compressed, read_string,
    CompressedBlock,
};
use rsdkv5::movement::{
    collision_tolerance, object_tile_grip, process_air_collision, process_object_movement,
};
use rsdkv5::sensor::{
    find_floor_position, find_l_wall_position, floor_collision, l_wall_collision, roof_collision,
    CollisionContext,
    CollisionSensor, EngineRevision, Hitbox, TileScene,
};
use rsdkv5::tiles::{load_tile_config, TileConfig, TILE_CONFIG_SIZE, TILE_RECORD_SIZE};
use rsdkv5::trig::TrigTable;

const FLAT: u16 = 1;
const HOLED: u16 = 2;
const SLOPE: u16 = 3;
const STEEP: u16 = 4;
const TOP_SOLID: u16 = 0x1000;
const ALL_SOLID: u16 = 0x2000;
const EMPTY: u16 = 0xFFFF;

fn f(px: i32) -> i32 {
    px << 16
}

fn trig() -> TrigTable {
    let pi: f32 = 3.1415927;
    let mut sin512 = vec![0i32; 0x200];
    let mut cos512 = vec![0i32; 0x200];
    for i in 0..0x200 {
        let a = (i as f32 / 256.0) * pi;
        sin512[i] = (a.sin() * 512.0) as i32;
        cos512[i] = (a.cos() * 512.0) as i32;
    }
    cos512[0x00] = 0x200;
    cos512[0x80] = 0;
    cos512[0x100] = -0x200;
    cos512[0x180] = 0;
    sin512[0x00] = 0;
    sin512[0x80] = 0x200;
    sin512[0x100] = 0;
    sin512[0x180] = -0x200;
    let sin: Vec<i32> = (0..0x100).map(|i| sin512[i * 2] >> 1).collect();
    let cos: Vec<i32> = (0..0x100).map(|i| cos512[i * 2] >> 1).collect();
    TrigTable::new(sin, cos).expect("table in range")
}

fn set_record(b: &mut [u8], plane: usize, tile: usize, heights: [u8; 16], active: [u8; 16], y_flip: bool, angles: [u8; 4]) {
    let s = (plane * 1024 + tile) * TILE_RECORD_SIZE;
    b[s..s + 16].copy_from_slice(&heights);
    b[s + 16..s + 32].copy_from_slice(&active);
    b[s + 32] = y_flip as u8;
    b[s + 33..s + 37].copy_from_slice(&angles);
}

fn payload() -> Vec<u8> {
    let mut b = vec![0u8; TILE_CONFIG_SIZE];
    for p in 0..2 {
        set_record(&mut b, p, FLAT as usize, [0; 16], [1; 16], false, [0, 0xC0, 0x40, 0x80]);
        let mut active = [1u8; 16];
        active[5] = 0;
        set_record(&mut b, p, HOLED as usize, [0; 16], active, false, [0, 0xC0, 0x40, 0x80]);
        let heights: [u8; 16] = [15, 14, 13, 12, 11, 10, 9, 8, 7, 6, 5, 4, 3, 2, 1, 0];
        set_record(&mut b, p, SLOPE as usize, heights, [1; 16], false, [0xE0, 0xC0, 0x40, 0x80]);
        set_record(&mut b, p, STEEP as usize, [0; 16], [1; 16], false, [0, 0xF0, 0x40, 0x80]);
    }
    b
}

fn config() -> TileConfig {
    load_tile_config(&payload()).expect("payload is complete")
}

/// 16 x 8 tiles; row 4 (pixels 64..80) is floor, and column 7 holds a
/// wall above it when `wall` is set.
fn scene_with(wall: bool, floor_tile: u16) -> TileScene {
    let (w, h) = (16usize, 8usize);
    let mut layout = vec![EMPTY; w * h];
    for x in 0..w {
        layout[4 * w + x] = floor_tile | TOP_SOLID | ALL_SOLID;
    }
    if wall {
        for y in 0..4 {
            layout[y * w + 7] = FLAT | TOP_SOLID | ALL_SOLID;
        }
    }
    let layer = TileLayer { layout, xsize: w as u16, ysize: h as u16, position: Vector2 { x: 0, y: 0 } };
    TileScene { layers: vec![layer], config: config(), revision: EngineRevision::ClassicSingleOrientation }
}

fn outer() -> Hitbox {
    Hitbox { left: -10, top: -20, right: 10, bottom: 20 }
}

fn inner() -> Hitbox {
    Hitbox { left: -5, top: -20, right: 5, bottom: 20 }
}

fn actor(x: i32, y: i32, gv: i32, on_ground: bool) -> Entity {
    Entity {
        position: Vector2 { x, y },
        velocity: Vector2 { x: 0, y: 0 },
        ground_vel: gv,
        angle: 0,
        collision_mode: CollisionModes::CmodeFloor,
        collision_plane: 0,
        on_ground,
        collision_layers: 1,
        tile_collisions: TileCollisionModes::TileCollisionDown,
    }
}

fn ctx(tolerance: i32) -> CollisionContext {
    CollisionContext {
        tolerance,
        offset: f(4),
        outer: outer(),
        inner: inner(),
        layers: 1,
        plane: 0,
        up: false,
        revision: EngineRevision::ClassicSingleOrientation,
    }
}

#[test]
fn sentinel_column_gives_no_contact() {
    let scene = scene_with(false, HOLED);
    // Column 5 of every floor tile has no surface.
    let mut s = CollisionSensor { position: Vector2 { x: f(16 + 5), y: f(64) }, collided: false, angle: 0 };
    floor_collision(&scene, &ctx(15), &mut s);
    assert!(!s.collided);
    let mut t = CollisionSensor { position: Vector2 { x: f(16 + 5), y: f(64) }, collided: false, angle: 0 };
    find_floor_position(&scene, &ctx(15), &mut t);
    assert!(!t.collided);
    assert_eq!(t.position.y, f(64));
    // The next column has one.
    let mut u = CollisionSensor { position: Vector2 { x: f(16 + 6), y: f(64) }, collided: false, angle: 0 };
    floor_collision(&scene, &ctx(15), &mut u);
    assert!(u.collided);
}

#[test]
fn mirrored_masks_follow_the_base_tile() {
    let cfg = config();
    let t = SLOPE as usize;
    let base = cfg.masks[t];
    let fx = cfg.masks[1024 + t];
    let fy = cfg.masks[2048 + t];
    let fxy = cfg.masks[3072 + t];
    for c in 0..16 {
        assert_eq!(fx.floor_masks[c], base.floor_masks[15 - c]);
        let r = base.r_wall_masks[c];
        let expect = if r == 0xFF { 0xFF } else { 15 - r };
        assert_eq!(fx.l_wall_masks[c], expect);
        let ro = base.roof_masks[c];
        assert_eq!(fy.floor_masks[c], if ro == 0xFF { 0xFF } else { 15 - ro });
        assert_eq!(fxy.floor_masks[c], fy.floor_masks[15 - c]);
    }
    // The slope rises to the right: floor depth 15 - c.
    assert_eq!(base.floor_masks[0], 15);
    assert_eq!(base.floor_masks[15], 0);
    assert_eq!(base.l_wall_masks[0], 15);
    assert_eq!(base.r_wall_masks[15], 15);
    let info = cfg.infos[t];
    let ix = cfg.infos[1024 + t];
    let iy = cfg.infos[2048 + t];
    let ixy = cfg.infos[3072 + t];
    assert_eq!(info.floor_angle, 0xE0);
    assert_eq!(ix.floor_angle, 0x20);
    assert_eq!(iy.roof_angle, 0x80u8.wrapping_sub(0xE0));
    assert_eq!(ixy.floor_angle, 0u8.wrapping_sub(iy.floor_angle));
    assert_eq!(ixy.floor_angle, info.roof_angle.wrapping_add(0x80));
}

#[test]
fn tolerance_for_slow_and_fast_actors() {
    let classic = EngineRevision::ClassicSingleOrientation;
    let extended = EngineRevision::ExtendedDualOrientation;
    assert_eq!(collision_tolerance(classic, f(3), 0, 20), 8);
    assert_eq!(collision_tolerance(classic, -f(3), 0, 20), 8);
    assert_eq!(collision_tolerance(classic, f(10), 0, 20), 15);
    assert_eq!(collision_tolerance(classic, f(3), 0x10, 20), 15);
    assert_eq!(collision_tolerance(classic, f(3), 0, 10), 15);
    assert_eq!(collision_tolerance(extended, f(3), 0, 20), 8);
    assert_eq!(collision_tolerance(extended, f(10), 0, 20), 14);
    assert_eq!(collision_tolerance(extended, f(3), 0, 10), 8);
}

#[test]
fn floor_to_left_wall_boundary_is_exclusive() {
    assert_eq!(next_collision_mode(CollisionModes::CmodeFloor, 0x80), CollisionModes::CmodeFloor);
    assert_eq!(next_collision_mode(CollisionModes::CmodeFloor, 0x81), CollisionModes::CmodeLWall);
    assert_eq!(next_collision_mode(CollisionModes::CmodeFloor, 0xDE), CollisionModes::CmodeFloor);
    assert_eq!(next_collision_mode(CollisionModes::CmodeFloor, 0x23), CollisionModes::CmodeRWall);
    assert_eq!(next_collision_mode(CollisionModes::CmodeLWall, 0xE3), CollisionModes::CmodeFloor);
    assert_eq!(next_collision_mode(CollisionModes::CmodeLWall, 0x9D), CollisionModes::CmodeRoof);
    assert_eq!(next_collision_mode(CollisionModes::CmodeRoof, 0xA3), CollisionModes::CmodeLWall);
    assert_eq!(next_collision_mode(CollisionModes::CmodeRoof, 0x5D), CollisionModes::CmodeRWall);
    assert_eq!(next_collision_mode(CollisionModes::CmodeRWall, 0x1D), CollisionModes::CmodeFloor);
    assert_eq!(next_collision_mode(CollisionModes::CmodeRWall, 0x63), CollisionModes::CmodeRoof);
    assert_eq!(next_collision_mode(CollisionModes::CmodeRWall, 0x40), CollisionModes::CmodeRWall);
}

#[test]
fn airborne_actor_lands_on_flat_ground() {
    let scene = scene_with(false, FLAT);
    let mut e = actor(f(100), f(40), 0, false);
    e.velocity = Vector2 { x: f(1), y: f(4) };
    process_object_movement(&scene, &trig(), &mut e, &outer(), &inner());
    assert!(e.on_ground);
    assert_eq!(e.collision_mode, CollisionModes::CmodeFloor);
    assert_eq!(e.angle, 0);
    assert_eq!(e.velocity.y, 0);
    assert_eq!(e.position.y, f(44));
    assert_eq!(e.position.x, f(101));
    assert_eq!(e.ground_vel, f(1));
    assert_eq!(e.velocity.x, f(1));
}

#[test]
fn rising_actor_does_not_land() {
    let scene = scene_with(false, FLAT);
    let mut e = actor(f(100), f(48), 0, false);
    e.velocity = Vector2 { x: 0, y: -f(4) };
    process_air_collision(&scene, &ctx(15), &mut e);
    assert!(!e.on_ground);
    assert_eq!(e.position.y, f(44));
}

#[test]
fn resting_actor_keeps_its_place() {
    let scene = scene_with(false, FLAT);
    let mut e = actor(f(100), f(44), 0, true);
    process_path_grip(&scene, &ctx(8), &trig(), &mut e);
    assert!(e.on_ground);
    assert_eq!(e.position, Vector2 { x: f(100), y: f(44) });
    assert_eq!(e.angle, 0);
    assert_eq!(e.ground_vel, 0);
}

#[test]
fn walking_actor_follows_flat_ground() {
    let scene = scene_with(false, FLAT);
    let mut e = actor(f(40), f(44), f(5), true);
    process_object_movement(&scene, &trig(), &mut e, &outer(), &inner());
    assert!(e.on_ground);
    assert_eq!(e.position, Vector2 { x: f(45), y: f(44) });
    assert_eq!(e.ground_vel, f(5));
    assert_eq!(e.velocity, Vector2 { x: f(5), y: 0 });
}

#[test]
fn wall_ahead_stops_the_actor() {
    let scene = scene_with(true, FLAT);
    let mut e = actor(f(100), f(44), f(4), true);
    process_path_grip(&scene, &ctx(8), &trig(), &mut e);
    assert!(e.on_ground);
    assert_eq!(e.ground_vel, 0);
    assert_eq!(e.velocity.x, 0);
    // The wall's left side is at x = 112; the outer box reaches 10 pixels right.
    assert_eq!(e.position.x, f(112) - f(10));
    assert_eq!(e.position.y, f(44));
}

#[test]
fn actor_runs_off_a_ledge() {
    // Floor only under columns 0..8.
    let mut scene = scene_with(false, FLAT);
    for x in 8..16 {
        scene.layers[0].layout[4 * 16 + x] = EMPTY;
    }
    let mut e = actor(f(150), f(44), f(2), true);
    process_object_movement(&scene, &trig(), &mut e, &outer(), &inner());
    assert!(!e.on_ground);
    assert_eq!(e.collision_mode, CollisionModes::CmodeFloor);
    assert_eq!(e.velocity, Vector2 { x: f(2), y: 0 });
    assert_eq!(e.ground_vel, f(2));
    assert_eq!(e.position.x, f(152));
}

#[test]
fn free_actor_moves_by_velocity() {
    let scene = scene_with(false, FLAT);
    let mut e = actor(f(10), f(10), 0, false);
    e.tile_collisions = TileCollisionModes::TileCollisionNone;
    e.velocity = Vector2 { x: f(3), y: -f(2) };
    process_object_movement(&scene, &trig(), &mut e, &outer(), &inner());
    assert_eq!(e.position, Vector2 { x: f(13), y: f(8) });
}

#[test]
fn forward_sensor_meets_left_side_of_wall() {
    let scene = scene_with(true, FLAT);
    let mut s = CollisionSensor { position: Vector2 { x: f(114), y: f(48) }, collided: false, angle: 0 };
    l_wall_collision(&scene, &ctx(8), &mut s);
    assert!(s.collided);
    assert_eq!(s.position.x, f(112));
    assert_eq!(s.angle, 0xC0);
}

#[test]
fn tracking_sensor_snaps_to_slope() {
    let scene = scene_with(false, SLOPE);
    // Column 3 of a slope tile: depth 12, so the surface is at y = 76.
    let mut s = CollisionSensor { position: Vector2 { x: f(16 + 3), y: f(72) }, collided: false, angle: 0xF0 };
    find_floor_position(&scene, &ctx(8), &mut s);
    assert!(s.collided);
    assert_eq!(s.position.y, f(76));
    assert_eq!(s.angle, 0xE0);
    // Out of tolerance: nothing.
    let mut t = CollisionSensor { position: Vector2 { x: f(16 + 3), y: f(60) }, collided: false, angle: 0xF0 };
    find_floor_position(&scene, &ctx(8), &mut t);
    assert!(!t.collided);
}

#[test]
fn object_grip_snaps_within_tolerance() {
    let scene = scene_with(false, FLAT);
    let mut e = actor(f(20), f(60), 0, false);
    assert!(object_tile_grip(&scene, &mut e, 1, CollisionModes::CmodeFloor, 0, 0, f(2), 8));
    assert_eq!(e.position.y, f(64) - f(2));
    assert_eq!(e.position.x, f(20));
    let mut far = actor(f(20), f(40), 0, false);
    assert!(!object_tile_grip(&scene, &mut far, 1, CollisionModes::CmodeFloor, 0, 0, 0, 8));
    assert_eq!(far.position.y, f(40));
}

#[test]
fn tile_config_rejects_short_or_deep_payloads() {
    let short = vec![0u8; TILE_CONFIG_SIZE - 1];
    assert!(load_tile_config(&short).is_none());
    let mut deep = payload();
    set_record(&mut deep, 1, 9, [16; 16], [1; 16], false, [0; 4]);
    assert!(load_tile_config(&deep).is_none());
    let mut inactive_deep = payload();
    set_record(&mut inactive_deep, 1, 9, [16; 16], [0; 16], false, [0; 4]);
    assert!(load_tile_config(&inactive_deep).is_some());
}

#[test]
fn empty_table_has_no_surfaces() {
    let cfg = TileConfig::empty();
    assert_eq!(cfg.masks.len(), 8192);
    assert!(cfg.masks.iter().all(|m| m.floor_masks.iter().all(|&d| d == 0xFF)));
}

#[test]
fn upside_down_tile_profile() {
    let mut b = payload();
    let heights: [u8; 16] = [4; 16];
    set_record(&mut b, 0, 20, heights, [1; 16], true, [0; 4]);
    let cfg = load_tile_config(&b).unwrap();
    let m = cfg.masks[20];
    assert!(m.floor_masks.iter().all(|&d| d == 0));
    assert!(m.roof_masks.iter().all(|&d| d == 4));
    assert_eq!(m.l_wall_masks[4], 0);
    assert_eq!(m.l_wall_masks[5], 0xFF);
}

#[test]
fn fixed_point_conversions() {
    assert_eq!(to_fixed(3), 0x30000);
    assert_eq!(to_fixed(-1), -0x10000);
    assert_eq!(from_fixed(0x18000), 1);
    assert_eq!(from_fixed(-1), -1);
}

#[test]
fn layer_lookup_is_bounds_checked() {
    let scene = scene_with(false, FLAT);
    let l = &scene.layers[0];
    assert_eq!(l.get(3, 4), Some(FLAT | TOP_SOLID | ALL_SOLID));
    assert_eq!(l.get(3, 3), Some(EMPTY));
    assert_eq!(l.get(16, 0), None);
    assert_eq!(l.get(-1, 0), None);
    assert_eq!(l.get(0, 8), None);
}

#[test]
fn tile_layout_decodes_little_endian_ids() {
    let data = vec![0x01, 0x10, 0xFF, 0xFF, 0x34, 0x12, 0x00, 0x00];
    let l = load_tile_layout(&data, 2, 2, Vector2 { x: 0, y: 0 }).unwrap();
    assert_eq!(l.layout, vec![0x1001, 0xFFFF, 0x1234, 0x0000]);
    assert_eq!(l.get(1, 1), Some(0));
    assert!(load_tile_layout(&data[..7].to_vec(), 2, 2, Vector2 { x: 0, y: 0 }).is_none());
    assert!(load_tile_layout(&data, 2, 2, Vector2 { x: 0x4001, y: 0 }).is_none());
}

fn extended(mut scene: TileScene) -> TileScene {
    scene.revision = EngineRevision::ExtendedDualOrientation;
    scene
}

#[test]
fn precise_floor_check_keeps_the_highest_surface() {
    // Two stacked floors, rows 3 and 4: a classic check from inside row 3
    // finds row 3's top; the precise check keeps the highest surface too,
    // but only within 14 pixels.
    let mut scene = scene_with(false, FLAT);
    for x in 0..16 {
        scene.layers[0].layout[3 * 16 + x] = FLAT | TOP_SOLID | ALL_SOLID;
    }
    let scene = extended(scene);
    let mut c = ctx(15);
    c.revision = EngineRevision::ExtendedDualOrientation;
    let mut s = CollisionSensor { position: Vector2 { x: f(20), y: f(60) }, collided: false, angle: 0 };
    floor_collision(&scene, &c, &mut s);
    assert!(s.collided);
    assert_eq!(s.position.y, f(48));
    // From 16 pixels below row 3's top, nothing is close enough.
    let mut far = CollisionSensor { position: Vector2 { x: f(20), y: f(64) }, collided: false, angle: 0 };
    floor_collision(&scene, &c, &mut far);
    assert!(!far.collided);
    assert_eq!(far.position.y, f(64));
}

#[test]
fn upward_actor_leaves_surface_into_roof_mode() {
    let scene = extended(scene_with(false, FLAT));
    let mut e = actor(f(100), f(20), f(2), true);
    e.tile_collisions = TileCollisionModes::TileCollisionUp;
    e.collision_mode = CollisionModes::CmodeRoof;
    e.angle = 0x80;
    process_object_movement(&scene, &trig(), &mut e, &outer(), &inner());
    assert!(!e.on_ground);
    assert_eq!(e.collision_mode, CollisionModes::CmodeRoof);
    assert_eq!(e.angle, 0x80);
}

#[test]
fn upward_actor_lands_on_a_roof() {
    // The bottom of row 4 is at y = 80; an upward actor rising into it lands.
    let scene = extended(scene_with(false, FLAT));
    let mut e = actor(f(100), f(102), 0, false);
    e.tile_collisions = TileCollisionModes::TileCollisionUp;
    e.velocity = Vector2 { x: f(1), y: -f(4) };
    let mut c = ctx(15);
    c.up = true;
    c.revision = EngineRevision::ExtendedDualOrientation;
    process_air_collision(&scene, &c, &mut e);
    assert!(e.on_ground);
    assert_eq!(e.collision_mode, CollisionModes::CmodeRoof);
    assert_eq!(e.velocity.y, 0);
    assert_eq!(e.ground_vel, -f(1));
    assert_eq!(e.angle, 0x80);
    assert_eq!(e.position.y, f(79) + f(20));
}

#[test]
fn roof_check_from_below() {
    let scene = scene_with(false, FLAT);
    let mut s = CollisionSensor { position: Vector2 { x: f(20), y: f(70) }, collided: false, angle: 0 };
    // The classic roof check takes a tile bottom up to 14 pixels past the sensor.
    roof_collision(&scene, &ctx(15), &mut s);
    assert!(s.collided);
    assert_eq!(s.position.y, f(79));
    assert_eq!(s.angle, 0x80);
}

#[test]
fn compressed_block_framing() {
    let mut data = vec![0u8; 4];
    data.extend_from_slice(&[7, 0, 0, 0, 0, 0, 0x01, 0x30]);
    data.extend_from_slice(&[1, 2, 3]);
    let b = compressed_block_header(&data, 4).unwrap();
    assert_eq!(b, CompressedBlock { start: 12, len: 3, size: 0x130 });
    assert!(compressed_block_header(&data[..14].to_vec(), 4).is_none());
    assert!(compressed_block_header(&data, 8).is_none());
    let mut tiny = data.clone();
    tiny[4] = 3;
    assert!(compressed_block_header(&tiny, 4).is_none());
}

#[test]
fn tile_config_signature() {
    assert!(has_tile_config_signature(&vec![0x54, 0x49, 0x4C, 0x00, 9]));
    assert!(!has_tile_config_signature(&vec![0x54, 0x49, 0x4C]));
    assert!(!has_tile_config_signature(&vec![0x43, 0x46, 0x47, 0x00]));
}

#[test]
fn compressed_block_inflates() {
    let stream: Vec<u8> = vec![120, 156, 203, 72, 205, 201, 201, 87, 200, 64, 34, 67, 60, 125, 0, 86, 124, 7, 134];
    let mut data = vec![0xAA, 0xBB];
    data.extend_from_slice(&((stream.len() + 4) as u32).to_le_bytes());
    data.extend_from_slice(&21u32.to_be_bytes());
    data.extend_from_slice(&stream);
    data.push(0x99);
    let (out, next) = read_compressed(&data, 2).unwrap();
    assert_eq!(out, b"hello hello hello TIL".to_vec());
    assert_eq!(next, 2 + 8 + stream.len());
    // A stream that is not zlib does not inflate.
    let mut bad = data.clone();
    bad[10] = 0;
    assert!(read_compressed(&bad, 2).is_none());
    // A block that runs past the data.
    assert!(read_compressed(&data[..20].to_vec(), 2).is_none());
}

#[test]
fn strings_are_length_prefixed() {
    let data = vec![9, 3, b'T', b'I', b'L', 0xE9, 7];
    let (s, next) = read_string(&data, 1).unwrap();
    assert_eq!(s, "TIL");
    assert_eq!(next, 5);
    let (e, next) = read_string(&vec![1, 0xE9], 0).unwrap();
    assert_eq!(e, "\u{e9}");
    assert_eq!(next, 2);
    let (empty, next) = read_string(&vec![0], 0).unwrap();
    assert_eq!(empty, "");
    assert_eq!(next, 1);
    assert!(read_string(&data, 6).is_none());
    assert!(read_string(&data, 7).is_none());
}

#[test]
fn wall_tracking_compares_angles_plainly() {
    // Column 7 holds walls whose left side has angle 0xF0. A sensor at 0xE0
    // takes it; one at 0x02 does not, though the two angles are only 0x12
    // apart around the circle.
    let mut scene = scene_with(false, FLAT);
    for y in 0..4 {
        scene.layers[0].layout[y * 16 + 7] = STEEP | TOP_SOLID | ALL_SOLID;
    }
    let mut s = CollisionSensor { position: Vector2 { x: f(110), y: f(40) }, collided: false, angle: 0xE0 };
    find_l_wall_position(&scene, &ctx(15), &mut s);
    assert!(s.collided);
    assert_eq!(s.position.x, f(112));
    assert_eq!(s.angle, 0xF0);
    let mut t = CollisionSensor { position: Vector2 { x: f(110), y: f(40) }, collided: false, angle: 0x02 };
    find_l_wall_position(&scene, &ctx(15), &mut t);
    assert!(!t.collided);
    assert_eq!(t.position.x, f(110));
}

#[test]
fn free_actor_needs_no_speed_bounds() {
    let scene = scene_with(false, FLAT);
    let mut e = actor(f(10), f(10), i32::MIN, false);
    e.tile_collisions = TileCollisionModes::TileCollisionNone;
    e.collision_plane = 7;
    e.velocity = Vector2 { x: i32::MIN, y: 0 };
    process_object_movement(&scene, &trig(), &mut e, &outer(), &inner());
    assert_eq!(e.position, Vector2 { x: f(10).wrapping_add(i32::MIN), y: f(10) });
    assert_eq!(e.ground_vel, i32::MIN);
}

#[test]
fn object_grip_misses_a_sentinel_column() {
    let scene = scene_with(false, HOLED);
    let mut e = actor(f(16 + 5), f(60), 0, false);
    assert!(!object_tile_grip(&scene, &mut e, 1, CollisionModes::CmodeFloor, 0, 0, f(2), 8));
    assert_eq!(e.position, Vector2 { x: f(21), y: f(60) });
}

#[test]
fn extended_revision_stops_at_the_wall() {
    // The same wall as in the classic case, with the extended revision.
    let scene = extended(scene_with(true, FLAT));
    let mut c = ctx(8);
    c.revision = EngineRevision::ExtendedDualOrientation;
    let mut e = actor(f(100), f(44), f(4), true);
    process_path_grip(&scene, &c, &trig(), &mut e);
    assert!(e.on_ground);
    assert_eq!(e.ground_vel, 0);
    assert_eq!(e.position.x, f(112) - f(10));
    assert_eq!(e.position.y, f(44));
}
