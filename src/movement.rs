//! The movement orchestrator: once per actor and tick, picks the collision
//! tolerance, builds the collision context and runs the grounded or the
//! airborne path. Also the one-shot tile grip for simple objects.
use vstd::prelude::*;
use crate::actor::{CollisionModes, Entity, TileCollisionModes};
use crate::fixed::{from_fixed, from_fixed_spec, to_fixed, to_fixed_spec, Vector2};
use crate::grip::{
    add_w, fx, mode_surface, path_grip, process_path_grip, scale_by_trig,
    scale_trig, sub_w, wadd, wsub,
};
use crate::sensor::{
    cast_from, cast_layers, column_sentinel, contact_probe, lemma_sentinel_cast_finds_nothing, floor_collision, is_vertical, roof_collision,
    side_solid, side_solid_bits, top_solid, top_solid_bits, Cast, CollisionContext,
    CollisionSensor, EngineRevision, Hitbox, ScanRule, ScanState, Surface, TileScene,
};
use crate::trig::TrigTable;

verus! {

/// Tolerance of a slow actor on flat ground.
pub const LOW_COLLISION_TOLERANCE: i32 = 8;

/// Tolerance otherwise, in the classic revision.
pub const HIGH_COLLISION_TOLERANCE: i32 = 15;

/// Tolerance otherwise, in the extended revision.
pub const HIGH_COLLISION_TOLERANCE_EXTENDED: i32 = 14;

/// Below this ground speed (6 pixels per tick) a flat actor gets the low tolerance.
pub const LOW_TOLERANCE_SPEED: i32 = 0x60000;

/// Outer hitboxes at least this deep get the forward sensor offset.
pub const MIN_OFFSET_BOTTOM: i16 = 14;

/// Vertical offset of the forward sensor of a tall enough actor: 4 pixels.
pub const COLLISION_OFFSET: i32 = 0x40000;

pub open spec fn slow_and_flat(ground_vel: i32, angle: i32) -> bool {
    -LOW_TOLERANCE_SPEED < ground_vel < LOW_TOLERANCE_SPEED && angle == 0
}

/// The tolerance of tracking sensors for an actor: tight for a slow actor
/// standing upright (so it does not catch on tile seams), loose otherwise.
/// The classic revision keeps a shallow hitbox loose.
pub open spec fn tolerance_spec(revision: EngineRevision, ground_vel: i32, angle: i32, outer_bottom: i16) -> i32 {
    match revision {
        EngineRevision::ClassicSingleOrientation => if outer_bottom >= MIN_OFFSET_BOTTOM
            && slow_and_flat(ground_vel, angle) {
            LOW_COLLISION_TOLERANCE
        } else {
            HIGH_COLLISION_TOLERANCE
        },
        EngineRevision::ExtendedDualOrientation => if slow_and_flat(ground_vel, angle) {
            LOW_COLLISION_TOLERANCE
        } else {
            HIGH_COLLISION_TOLERANCE_EXTENDED
        },
    }
}

/// The collision tolerance for an actor's speed, its angle (already taken
/// modulo 256) and the depth of its outer hitbox.
pub fn collision_tolerance(revision: EngineRevision, ground_vel: i32, angle: i32, outer_bottom: i16) -> (r: i32)
    ensures
        r == tolerance_spec(revision, ground_vel, angle, outer_bottom),
{
    let slow = ground_vel > -LOW_TOLERANCE_SPEED && ground_vel < LOW_TOLERANCE_SPEED && angle == 0;
    match revision {
        EngineRevision::ClassicSingleOrientation => {
            if outer_bottom >= MIN_OFFSET_BOTTOM && slow {
                LOW_COLLISION_TOLERANCE
            } else {
                HIGH_COLLISION_TOLERANCE
            }
        },
        EngineRevision::ExtendedDualOrientation => {
            if slow {
                LOW_COLLISION_TOLERANCE
            } else {
                HIGH_COLLISION_TOLERANCE_EXTENDED
            }
        },
    }
}

/// Whether the forward sensor of a grounded actor sits `COLLISION_OFFSET`
/// off its centre: for a deep enough hitbox, and in the extended revision
/// only while the actor stands upright (upside down when collisions face up).
pub open spec fn uses_offset(revision: EngineRevision, e: Entity, outer_bottom: i16) -> bool {
    outer_bottom >= MIN_OFFSET_BOTTOM && (revision == EngineRevision::ClassicSingleOrientation || (
    e.on_ground && e.angle == (if e.tile_collisions == TileCollisionModes::TileCollisionUp {
        0x80i32
    } else {
        0i32
    })))
}

/// The context of one movement call.
pub open spec fn context_spec(revision: EngineRevision, e: Entity, outer: Hitbox, inner: Hitbox) -> CollisionContext {
    CollisionContext {
        tolerance: tolerance_spec(revision, e.ground_vel, e.angle, outer.bottom),
        offset: if uses_offset(revision, e, outer.bottom) {
            COLLISION_OFFSET
        } else {
            0
        },
        outer,
        inner,
        layers: e.collision_layers,
        plane: e.collision_plane,
        up: e.tile_collisions == TileCollisionModes::TileCollisionUp,
        revision,
    }
}

/// The landing probe of an airborne actor after it moved: from the bottom
/// of its outer hitbox against floors, or from its top against roofs when
/// tile collisions face up.
pub open spec fn landing_sensor(scene: TileScene, ctx: CollisionContext, e: Entity) -> CollisionSensor {
    let b = fx(ctx.outer.bottom);
    contact_probe(
        scene,
        ctx,
        if ctx.up {
            Surface::Roof
        } else {
            Surface::Floor
        },
        CollisionSensor {
            position: Vector2 {
                x: e.position.x,
                y: if ctx.up {
                    wsub(e.position.y, b)
                } else {
                    wadd(e.position.y, b)
                },
            },
            collided: false,
            angle: 0,
        },
    )
}

/// An airborne actor moves by its velocity; falling onto a floor (rising
/// onto a roof when collisions face up) it lands: it stands on the surface
/// in that mode at the surface's angle, with no vertical velocity and its
/// ground speed taken from its horizontal velocity.
pub open spec fn air_step(scene: TileScene, ctx: CollisionContext, e: Entity) -> Entity {
    let moved = Entity {
        position: Vector2 {
            x: wadd(e.position.x, e.velocity.x),
            y: wadd(e.position.y, e.velocity.y),
        },
        ..e
    };
    let s = landing_sensor(scene, ctx, moved);
    let b = fx(ctx.outer.bottom);
    if !ctx.up && e.velocity.y >= 0 && s.collided {
        Entity {
            position: Vector2 { x: moved.position.x, y: wsub(s.position.y, b) },
            velocity: Vector2 { x: e.velocity.x, y: 0 },
            ground_vel: e.velocity.x,
            angle: s.angle as i32,
            collision_mode: CollisionModes::CmodeFloor,
            on_ground: true,
            ..moved
        }
    } else if ctx.up && e.velocity.y <= 0 && s.collided {
        Entity {
            position: Vector2 { x: moved.position.x, y: wadd(s.position.y, b) },
            velocity: Vector2 { x: e.velocity.x, y: 0 },
            ground_vel: (-e.velocity.x) as i32,
            angle: s.angle as i32,
            collision_mode: CollisionModes::CmodeRoof,
            on_ground: true,
            ..moved
        }
    } else {
        moved
    }
}

/// The airborne path: move, then probe for a surface to land on.
pub fn process_air_collision(scene: &TileScene, ctx: &CollisionContext, e: &mut Entity)
    requires
        scene.wf(),
        ctx.wf(),
        old(e).velocity.x > i32::MIN,
    ensures
        *final(e) == air_step(*scene, *ctx, *old(e)),
        final(e).on_ground != old(e).on_ground ==> final(e).on_ground && final(e).velocity.y == 0
            && final(e).collision_mode == (if ctx.up {
            CollisionModes::CmodeRoof
        } else {
            CollisionModes::CmodeFloor
        }),
        old(e).ground_vel > i32::MIN ==> final(e).ground_vel > i32::MIN,
{
    let bottom = to_fixed(ctx.outer.bottom as i32);
    e.position = Vector2 {
        x: add_w(e.position.x, e.velocity.x),
        y: add_w(e.position.y, e.velocity.y),
    };
    let mut s = CollisionSensor {
        position: Vector2 {
            x: e.position.x,
            y: if ctx.up {
                sub_w(e.position.y, bottom)
            } else {
                add_w(e.position.y, bottom)
            },
        },
        collided: false,
        angle: 0,
    };
    if ctx.up {
        roof_collision(scene, ctx, &mut s);
    } else {
        floor_collision(scene, ctx, &mut s);
    }
    if !ctx.up && e.velocity.y >= 0 && s.collided {
        e.position.y = sub_w(s.position.y, bottom);
        e.velocity.y = 0;
        e.ground_vel = e.velocity.x;
        e.angle = s.angle as i32;
        e.collision_mode = CollisionModes::CmodeFloor;
        e.on_ground = true;
    } else if ctx.up && e.velocity.y <= 0 && s.collided {
        e.position.y = add_w(s.position.y, bottom);
        e.velocity.y = 0;
        e.ground_vel = -e.velocity.x;
        e.angle = s.angle as i32;
        e.collision_mode = CollisionModes::CmodeRoof;
        e.on_ground = true;
    }
}

/// One tick of movement for an actor.
pub open spec fn movement_spec(scene: TileScene, trig: TrigTable, e: Entity, outer: Hitbox, inner: Hitbox) -> Entity {
    if e.tile_collisions == TileCollisionModes::TileCollisionNone {
        Entity {
            position: Vector2 {
                x: wadd(e.position.x, e.velocity.x),
                y: wadd(e.position.y, e.velocity.y),
            },
            ..e
        }
    } else {
        let e0 = Entity { angle: e.angle & 0xFF, ..e };
        let ctx = context_spec(scene.revision, e0, outer, inner);
        let e1 = if e0.on_ground {
            path_grip(scene, ctx, trig, e0)
        } else {
            air_step(scene, ctx, e0)
        };
        if e1.on_ground {
            Entity {
                velocity: Vector2 {
                    x: scale_trig(trig.cos_spec(e1.angle), e1.ground_vel),
                    y: scale_trig(trig.sin_spec(e1.angle), e1.ground_vel),
                },
                ..e1
            }
        } else {
            Entity { ground_vel: e1.velocity.x, ..e1 }
        }
    }
}

/// Moves an actor for one tick against the scene's tiles, with the
/// hitboxes of its current animation frame. The collision context lives
/// for this call only.
pub fn process_object_movement(scene: &TileScene, trig: &TrigTable, e: &mut Entity, outer: &Hitbox, inner: &Hitbox)
    requires
        scene.wf(),
        trig.wf(),
        old(e).tile_collisions != TileCollisionModes::TileCollisionNone ==> {
            &&& old(e).collision_plane < 2
            &&& old(e).ground_vel > i32::MIN
            &&& old(e).velocity.x > i32::MIN
        },
    ensures
        *final(e) == movement_spec(*scene, *trig, *old(e), *outer, *inner),
{
    if e.tile_collisions == TileCollisionModes::TileCollisionNone {
        e.position = Vector2 {
            x: add_w(e.position.x, e.velocity.x),
            y: add_w(e.position.y, e.velocity.y),
        };
        return ;
    }
    e.angle = e.angle & 0xFF;
    let revision = scene.revision;
    let tolerance = collision_tolerance(revision, e.ground_vel, e.angle, outer.bottom);
    let up = e.tile_collisions == TileCollisionModes::TileCollisionUp;
    let upright = e.on_ground && e.angle == if up {
        0x80
    } else {
        0
    };
    let offset = if outer.bottom >= MIN_OFFSET_BOTTOM && (revision
        == EngineRevision::ClassicSingleOrientation || upright) {
        COLLISION_OFFSET
    } else {
        0
    };
    let ctx = CollisionContext {
        tolerance,
        offset,
        outer: *outer,
        inner: *inner,
        layers: e.collision_layers,
        plane: e.collision_plane,
        up,
        revision,
    };
    if e.on_ground {
        process_path_grip(scene, &ctx, trig, e);
    } else {
        process_air_collision(scene, &ctx, e);
    }
    if e.on_ground {
        let x = scale_by_trig(trig.cos_256(e.angle), e.ground_vel);
        let y = scale_by_trig(trig.sin_256(e.angle), e.ground_vel);
        e.velocity = Vector2 { x, y };
    } else {
        e.ground_vel = e.velocity.x;
    }
}

/// The result of a one-shot grip: the cast, and where it leaves the object.
pub open spec fn tile_grip_cast(e: Entity, layers: u16, mode: CollisionModes, plane: u8, x_offset: i32, y_offset: i32, tolerance: i32) -> Cast {
    let surf = mode_surface(mode);
    let px = from_fixed_spec(wadd(x_offset, e.position.x));
    let py = from_fixed_spec(wadd(y_offset, e.position.y));
    Cast {
        surf,
        rule: ScanRule::Grip { tolerance },
        solid: if mode == CollisionModes::CmodeFloor {
            top_solid(plane)
        } else {
            side_solid(plane)
        },
        layers,
        plane,
        primary: if is_vertical(surf) {
            px
        } else {
            py
        },
        sensor: if is_vertical(surf) {
            py
        } else {
            px
        },
    }
}

pub open spec fn tile_grip_result(scene: TileScene, e: Entity, layers: u16, mode: CollisionModes, plane: u8, x_offset: i32, y_offset: i32, tolerance: i32) -> ScanState {
    let cast = tile_grip_cast(e, layers, mode, plane, x_offset, y_offset, tolerance);
    cast_from(scene, cast, ScanState { hit: false, collided: false, angle: 0, pos: cast.sensor }, 0)
}

/// A single probe for a simple object (a rope, a rail): along the axis of
/// `mode`, from the object's position plus the offsets. The first surface
/// found in each selected layer counts if it lies within `tolerance`
/// pixels; on a contact the object moves onto it along that axis.
pub fn object_tile_grip(scene: &TileScene, e: &mut Entity, layers: u16, mode: CollisionModes, plane: u8, x_offset: i32, y_offset: i32, tolerance: i32) -> (r: bool)
    requires
        scene.wf(),
        plane < 2,
    ensures
        ({
            let res = tile_grip_result(*scene, *old(e), layers, mode, plane, x_offset, y_offset, tolerance);
            &&& r == res.hit
            &&& *final(e) == (if !res.hit {
                *old(e)
            } else if is_vertical(mode_surface(mode)) {
                Entity {
                    position: Vector2 {
                        x: old(e).position.x,
                        y: wsub(to_fixed_spec(res.pos), y_offset),
                    },
                    ..*old(e)
                }
            } else {
                Entity {
                    position: Vector2 {
                        x: wsub(to_fixed_spec(res.pos), x_offset),
                        y: old(e).position.y,
                    },
                    ..*old(e)
                }
            })
        }),
{
    let surf = match mode {
        CollisionModes::CmodeFloor => Surface::Floor,
        CollisionModes::CmodeLWall => Surface::LeftWall,
        CollisionModes::CmodeRoof => Surface::Roof,
        CollisionModes::CmodeRWall => Surface::RightWall,
    };
    let vertical = match mode {
        CollisionModes::CmodeFloor | CollisionModes::CmodeRoof => true,
        _ => false,
    };
    let solid = if mode == CollisionModes::CmodeFloor {
        top_solid_bits(plane)
    } else {
        side_solid_bits(plane)
    };
    let px = from_fixed(add_w(x_offset, e.position.x));
    let py = from_fixed(add_w(y_offset, e.position.y));
    let cast = Cast {
        surf,
        rule: ScanRule::Grip { tolerance },
        solid,
        layers,
        plane,
        primary: if vertical {
            px
        } else {
            py
        },
        sensor: if vertical {
            py
        } else {
            px
        },
    };
    let res = cast_layers(
        scene,
        &cast,
        ScanState { hit: false, collided: false, angle: 0, pos: cast.sensor },
    );
    if res.hit {
        if vertical {
            e.position.y = sub_w(to_fixed(res.pos), y_offset);
        } else {
            e.position.x = sub_w(to_fixed(res.pos), x_offset);
        }
    }
    res.hit
}

/// The one-shot grip along a column where every solid tile has the sentinel
/// reports no contact, so the object stays where it was.
pub proof fn lemma_sentinel_tile_grip_misses(scene: TileScene, e: Entity, layers: u16, mode: CollisionModes, plane: u8, x_offset: i32, y_offset: i32, tolerance: i32)
    requires
        column_sentinel(scene, tile_grip_cast(e, layers, mode, plane, x_offset, y_offset, tolerance)),
    ensures
        !tile_grip_result(scene, e, layers, mode, plane, x_offset, y_offset, tolerance).hit,
{
    let cast = tile_grip_cast(e, layers, mode, plane, x_offset, y_offset, tolerance);
    lemma_sentinel_cast_finds_nothing(
        scene,
        cast,
        ScanState { hit: false, collided: false, angle: 0, pos: cast.sensor },
    );
}

/// Landing on flat ground: a falling actor whose landing sensor meets a
/// floor of angle 0 ends on the ground, in floor mode, at angle 0, with no
/// vertical velocity.
pub proof fn lemma_flat_landing(scene: TileScene, ctx: CollisionContext, e: Entity)
    requires
        !ctx.up,
        e.velocity.y >= 0,
        ({
            let moved = Entity {
                position: Vector2 {
                    x: wadd(e.position.x, e.velocity.x),
                    y: wadd(e.position.y, e.velocity.y),
                },
                ..e
            };
            let s = landing_sensor(scene, ctx, moved);
            s.collided && s.angle == 0
        }),
    ensures
        air_step(scene, ctx, e).on_ground,
        air_step(scene, ctx, e).collision_mode == CollisionModes::CmodeFloor,
        air_step(scene, ctx, e).angle == 0,
        air_step(scene, ctx, e).velocity.y == 0,
{
}

} // verus!
