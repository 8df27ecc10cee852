//! The path-grip stepper: moves a grounded actor along its surface in
//! tile-sized steps, re-casting its sensors at each step.
use vstd::prelude::*;
use vstd::wrapping::i32_specs;
use crate::actor::{next_collision_mode, next_mode_spec, CollisionModes, Entity};
use crate::fixed::{to_fixed, to_fixed_spec, Vector2, FIXED_ONE};
use crate::sensor::{
    contact_probe, floor_collision, l_wall_collision, r_wall_collision, roof_collision,
    find_floor_position, find_l_wall_position, find_r_wall_position, find_roof_position,
    track_probe, CollisionContext, CollisionSensor, EngineRevision, Hitbox, Surface, TileScene,
};
use crate::trig::TrigTable;

verus! {

/// Q16.16 addition in the engine's wrapping 32-bit registers.
pub open spec fn wadd(a: i32, b: i32) -> i32 {
    i32_specs::wrapping_add(a, b)
}

/// Q16.16 subtraction in the engine's wrapping 32-bit registers.
pub open spec fn wsub(a: i32, b: i32) -> i32 {
    i32_specs::wrapping_sub(a, b)
}

/// `a + b` in 32-bit wrapping arithmetic.
pub fn add_w(a: i32, b: i32) -> (r: i32)
    ensures
        r == wadd(a, b),
{
    a.wrapping_add(b)
}

/// `a - b` in 32-bit wrapping arithmetic.
pub fn sub_w(a: i32, b: i32) -> (r: i32)
    ensures
        r == wsub(a, b),
{
    a.wrapping_sub(b)
}

/// Largest speed at which the velocity is clamped when leaving a surface: 16 pixels per tick.
pub const MAX_LAUNCH_SPEED: i32 = 0x100000;

/// `v * c / 256` rounded down, for a trig value `c`.
pub open spec fn scale_trig(c: i32, v: i32) -> i32 {
    ((v * c) as i64 >> 8u64) as i32
}

pub open spec fn clamp_launch(v: i32) -> i32 {
    if v < -MAX_LAUNCH_SPEED {
        (-MAX_LAUNCH_SPEED) as i32
    } else if v > MAX_LAUNCH_SPEED {
        MAX_LAUNCH_SPEED
    } else {
        v
    }
}

/// The velocity of an actor leaving its surface: the ground speed turned
/// by the surface angle, the vertical part clamped to 16 pixels per tick.
pub open spec fn launch_velocity(trig: TrigTable, angle: i32, gv: i32) -> Vector2 {
    Vector2 {
        x: scale_trig(trig.cos_spec(angle), gv),
        y: clamp_launch(scale_trig(trig.sin_spec(angle), gv)),
    }
}

/// `v * c >> 8`, computed wide; the result fits for a trig value.
pub fn scale_by_trig(c: i32, v: i32) -> (r: i32)
    requires
        -256 <= c <= 256,
        v > i32::MIN,
    ensures
        r == scale_trig(c, v),
{
    proof {
        assert(-0x7F_FFFF_FF00 <= v * c <= 0x7F_FFFF_FF00) by (nonlinear_arith)
            requires
                -256 <= c <= 256,
                -0x7FFF_FFFF <= v <= 0x7FFF_FFFF,
        ;
    }
    let x: i64 = v as i64 * c as i64;
    proof {
        assert(-0x7F_FFFF_FF00i64 <= x <= 0x7F_FFFF_FF00i64 ==> -0x7FFF_FFFFi64 <= (x >> 8u64)
            <= 0x7FFF_FFFFi64) by (bit_vector);
    }
    (x >> 8u64) as i32
}

/// The velocity of an actor leaving its surface (see `launch_velocity`).
pub fn launch(trig: &TrigTable, angle: i32, gv: i32) -> (r: Vector2)
    requires
        trig.wf(),
        gv > i32::MIN,
    ensures
        r == launch_velocity(*trig, angle, gv),
{
    let x = scale_by_trig(trig.cos_256(angle), gv);
    let mut y = scale_by_trig(trig.sin_256(angle), gv);
    if y < -MAX_LAUNCH_SPEED {
        y = -MAX_LAUNCH_SPEED;
    }
    if y > MAX_LAUNCH_SPEED {
        y = MAX_LAUNCH_SPEED;
    }
    Vector2 { x, y }
}

/// The surface that the tracking sensors follow in a mode.
pub open spec fn mode_surface(m: CollisionModes) -> Surface {
    match m {
        CollisionModes::CmodeFloor => Surface::Floor,
        CollisionModes::CmodeLWall => Surface::LeftWall,
        CollisionModes::CmodeRoof => Surface::Roof,
        CollisionModes::CmodeRWall => Surface::RightWall,
    }
}

/// The surface that blocks travel in a mode: a wall ahead while on a floor
/// or a roof, a floor or a roof ahead while on a wall.
pub open spec fn forward_surface(m: CollisionModes, forward: bool) -> Surface {
    match m {
        CollisionModes::CmodeFloor => if forward {
            Surface::LeftWall
        } else {
            Surface::RightWall
        },
        CollisionModes::CmodeLWall => if forward {
            Surface::Roof
        } else {
            Surface::Floor
        },
        CollisionModes::CmodeRoof => if forward {
            Surface::RightWall
        } else {
            Surface::LeftWall
        },
        CollisionModes::CmodeRWall => if forward {
            Surface::Floor
        } else {
            Surface::Roof
        },
    }
}

/// Travel along x (floor, roof) or along y (walls).
pub open spec fn travels_x(m: CollisionModes) -> bool {
    m == CollisionModes::CmodeFloor || m == CollisionModes::CmodeRoof
}

pub open spec fn fx(v: i16) -> i32 {
    to_fixed_spec(v as i32)
}

/// Where the forward sensor stands ahead of the actor along the travel
/// axis: the outer hitbox's extent on the side of travel, turned with the mode.
pub open spec fn forward_offset(m: CollisionModes, gv: i32, outer: Hitbox) -> i32 {
    let one = FIXED_ONE;
    match m {
        CollisionModes::CmodeFloor => if gv > 0 {
            fx(outer.right)
        } else {
            wsub(fx(outer.left), one)
        },
        CollisionModes::CmodeRoof => if gv > 0 {
            wsub(0, fx(outer.right))
        } else {
            wadd(wsub(0, fx(outer.left)), one)
        },
        CollisionModes::CmodeLWall => if gv > 0 {
            wsub(wsub(0, fx(outer.right)), one)
        } else {
            wsub(0, fx(outer.left))
        },
        CollisionModes::CmodeRWall => if gv > 0 {
            fx(outer.right)
        } else {
            wsub(fx(outer.left), one)
        },
    }
}

/// The sensors of one grip, with the actor's mode and angle as they evolve.
#[derive(Clone, Copy, Debug, PartialEq, Eq, Structural)]
pub struct GripState {
    /// Tracking sensors: behind, at and ahead of the contact point.
    pub s0: CollisionSensor,
    pub s1: CollisionSensor,
    pub s2: CollisionSensor,
    /// The forward (wall) sensor.
    pub fwd: CollisionSensor,
    /// Where the actor's centre follows the surface.
    pub anchor: Vector2,
    pub angle: i32,
    pub mode: CollisionModes,
    /// Whole steps left; below zero once the grip is over.
    pub check_dist: i32,
}

pub open spec fn set_coord(v: Vector2, x_axis: bool, c: i32) -> Vector2 {
    if x_axis {
        Vector2 { x: c, y: v.y }
    } else {
        Vector2 { x: v.x, y: c }
    }
}

pub open spec fn along(v: Vector2, x_axis: bool) -> i32 {
    if x_axis {
        v.x
    } else {
        v.y
    }
}

pub open spec fn place(s: CollisionSensor, p: Vector2) -> CollisionSensor {
    CollisionSensor { position: p, collided: s.collided, angle: s.angle }
}

/// The sensors placed around the anchor for the current mode.
#[verifier::opaque]
pub open spec fn setup_spec(ctx: CollisionContext, gv: i32, st: GripState) -> GripState {
    let a = st.anchor;
    let one = FIXED_ONE;
    let il = wsub(wadd(a.x, fx(ctx.inner.left)), one);
    let ir = wadd(a.x, fx(ctx.inner.right));
    let jl = wsub(wadd(a.y, fx(ctx.inner.left)), one);
    let jr = wadd(a.y, fx(ctx.inner.right));
    let f = forward_offset(st.mode, gv, ctx.outer);
    match st.mode {
        CollisionModes::CmodeFloor => {
            let y = wadd(a.y, fx(ctx.outer.bottom));
            GripState {
                s0: place(st.s0, Vector2 { x: il, y }),
                s1: place(st.s1, Vector2 { x: a.x, y }),
                s2: place(st.s2, Vector2 { x: ir, y }),
                fwd: place(st.fwd, Vector2 { x: wadd(a.x, f), y: wadd(a.y, ctx.offset) }),
                ..st
            }
        },
        CollisionModes::CmodeRoof => {
            let y = wsub(wsub(a.y, fx(ctx.outer.bottom)), one);
            GripState {
                s0: place(st.s0, Vector2 { x: il, y }),
                s1: place(st.s1, Vector2 { x: a.x, y }),
                s2: place(st.s2, Vector2 { x: ir, y }),
                fwd: place(st.fwd, Vector2 { x: wadd(a.x, f), y: wsub(a.y, ctx.offset) }),
                ..st
            }
        },
        CollisionModes::CmodeLWall => {
            let x = wadd(a.x, fx(ctx.outer.bottom));
            GripState {
                s0: place(st.s0, Vector2 { x, y: jl }),
                s1: place(st.s1, Vector2 { x, y: a.y }),
                s2: place(st.s2, Vector2 { x, y: jr }),
                fwd: place(st.fwd, Vector2 { x: a.x, y: wadd(a.y, f) }),
                ..st
            }
        },
        CollisionModes::CmodeRWall => {
            let x = wsub(wsub(a.x, fx(ctx.outer.bottom)), one);
            GripState {
                s0: place(st.s0, Vector2 { x, y: jl }),
                s1: place(st.s1, Vector2 { x, y: a.y }),
                s2: place(st.s2, Vector2 { x, y: jr }),
                fwd: place(st.fwd, Vector2 { x: a.x, y: wadd(a.y, f) }),
                ..st
            }
        },
    }
}

fn fixed_of(v: i16) -> (r: i32)
    ensures
        r == fx(v),
{
    to_fixed(v as i32)
}

fn set_path_grip_sensors(ctx: &CollisionContext, gv: i32, st: &mut GripState)
    ensures
        *final(st) == setup_spec(*ctx, gv, *old(st)),
        final(st).check_dist == old(st).check_dist,
        final(st).mode == old(st).mode,
        final(st).angle == old(st).angle,
        final(st).anchor == old(st).anchor,
{
    reveal(setup_spec);
    let a = st.anchor;
    let one = FIXED_ONE;
    let il = sub_w(add_w(a.x, fixed_of(ctx.inner.left)), one);
    let ir = add_w(a.x, fixed_of(ctx.inner.right));
    let jl = sub_w(add_w(a.y, fixed_of(ctx.inner.left)), one);
    let jr = add_w(a.y, fixed_of(ctx.inner.right));
    let right = fixed_of(ctx.outer.right);
    let left = fixed_of(ctx.outer.left);
    let f = match st.mode {
        CollisionModes::CmodeFloor | CollisionModes::CmodeRWall => if gv > 0 {
            right
        } else {
            sub_w(left, one)
        },
        CollisionModes::CmodeRoof => if gv > 0 {
            sub_w(0, right)
        } else {
            add_w(sub_w(0, left), one)
        },
        CollisionModes::CmodeLWall => if gv > 0 {
            sub_w(sub_w(0, right), one)
        } else {
            sub_w(0, left)
        },
    };
    let bottom = fixed_of(ctx.outer.bottom);
    match st.mode {
        CollisionModes::CmodeFloor => {
            let y = add_w(a.y, bottom);
            st.s0.position = Vector2 { x: il, y };
            st.s1.position = Vector2 { x: a.x, y };
            st.s2.position = Vector2 { x: ir, y };
            st.fwd.position = Vector2 { x: add_w(a.x, f), y: add_w(a.y, ctx.offset) };
        },
        CollisionModes::CmodeRoof => {
            let y = sub_w(sub_w(a.y, bottom), one);
            st.s0.position = Vector2 { x: il, y };
            st.s1.position = Vector2 { x: a.x, y };
            st.s2.position = Vector2 { x: ir, y };
            st.fwd.position = Vector2 { x: add_w(a.x, f), y: sub_w(a.y, ctx.offset) };
        },
        CollisionModes::CmodeLWall => {
            let x = add_w(a.x, bottom);
            st.s0.position = Vector2 { x, y: jl };
            st.s1.position = Vector2 { x, y: a.y };
            st.s2.position = Vector2 { x, y: jr };
            st.fwd.position = Vector2 { x: a.x, y: add_w(a.y, f) };
        },
        CollisionModes::CmodeRWall => {
            let x = sub_w(sub_w(a.x, bottom), one);
            st.s0.position = Vector2 { x, y: jl };
            st.s1.position = Vector2 { x, y: a.y };
            st.s2.position = Vector2 { x, y: jr };
            st.fwd.position = Vector2 { x: a.x, y: add_w(a.y, f) };
        },
    }
}

/// The velocity of one step and the whole steps left after it: a whole
/// step moves 4 pixels (a quarter tile) along the angle, the last step
/// moves the remainder of the speed; both point backwards for a negative
/// ground speed.
#[verifier::opaque]
pub open spec fn step_velocity(trig: TrigTable, angle: i32, gv: i32, rem: i32, check_dist: i32) -> (Vector2, i32) {
    let c = trig.cos_spec(angle);
    let s = trig.sin_spec(angle);
    let (vx, vy, cd) = if check_dist >= 1 {
        ((c * 1024) as i32, (s * 1024) as i32, (check_dist - 1) as i32)
    } else {
        (((rem * c) as i32) >> 8u32, ((rem * s) as i32) >> 8u32, -1i32)
    };
    if gv < 0 {
        (Vector2 { x: (-vx) as i32, y: (-vy) as i32 }, cd)
    } else {
        (Vector2 { x: vx, y: vy }, cd)
    }
}

pub open spec fn moved(s: CollisionSensor, v: Vector2) -> CollisionSensor {
    place(s, Vector2 { x: wadd(s.position.x, v.x), y: wadd(s.position.y, v.y) })
}

pub open spec fn uncollide(s: CollisionSensor) -> CollisionSensor {
    CollisionSensor { collided: false, ..s }
}

/// Floor-mode tie-break: a sensor on a surface at the same height wins if
/// its angle is within 8 of flat.
pub open spec fn near_flat(a: u8) -> bool {
    a < 0x08 || a > 0xF8
}

/// Whether tracking sensor `s` beats the current winner `w`: the higher
/// floor, the lower roof, the wall further out.
pub open spec fn beats(m: CollisionModes, s: CollisionSensor, w: CollisionSensor) -> bool {
    match m {
        CollisionModes::CmodeFloor => s.position.y < w.position.y || (s.position.y
            == w.position.y && near_flat(s.angle)),
        CollisionModes::CmodeLWall => s.position.x < w.position.x,
        CollisionModes::CmodeRoof => s.position.y > w.position.y,
        CollisionModes::CmodeRWall => s.position.x > w.position.x,
    }
}

pub open spec fn winner_step(m: CollisionModes, w: int, ss: Seq<CollisionSensor>, i: int) -> int {
    if w > -1 {
        if ss[i].collided && beats(m, ss[i], ss[w]) {
            i
        } else {
            w
        }
    } else if ss[i].collided {
        i
    } else {
        -1
    }
}

/// The winning tracking sensor, in order 0, 1, 2; -1 if none collided.
#[verifier::opaque]
pub open spec fn pick_winner(m: CollisionModes, s0: CollisionSensor, s1: CollisionSensor, s2: CollisionSensor) -> int {
    let ss = seq![s0, s1, s2];
    winner_step(m, winner_step(m, winner_step(m, -1, ss, 0), ss, 1), ss, 2)
}

/// The three tracking sensors take the winner's coordinate across the
/// surface and its angle; the anchor follows them.
#[verifier::opaque]
pub open spec fn adopt(ctx: CollisionContext, st: GripState, w: CollisionSensor) -> GripState {
    let one = FIXED_ONE;
    let b = fx(ctx.outer.bottom);
    let take = |s: CollisionSensor|
        CollisionSensor {
            position: if travels_x(st.mode) {
                Vector2 { x: s.position.x, y: w.position.y }
            } else {
                Vector2 { x: w.position.x, y: s.position.y }
            },
            collided: s.collided,
            angle: w.angle,
        };
    let s0 = take(st.s0);
    let s1 = take(st.s1);
    let s2 = take(st.s2);
    let anchor = match st.mode {
        CollisionModes::CmodeFloor => Vector2 { x: s1.position.x, y: wsub(s0.position.y, b) },
        CollisionModes::CmodeLWall => Vector2 { x: wsub(s1.position.x, b), y: s1.position.y },
        CollisionModes::CmodeRoof => Vector2 {
            x: s1.position.x,
            y: wadd(wadd(s0.position.y, b), one),
        },
        CollisionModes::CmodeRWall => Vector2 {
            x: wadd(wadd(s1.position.x, b), one),
            y: s1.position.y,
        },
    };
    GripState { s0, s1, s2, anchor, ..st }
}

/// In the extended revision, on a floor or a roof, a blocked forward sensor
/// pulls the leading tracking sensor to 2 pixels short of the obstacle.
pub open spec fn lead_adjust(ctx: CollisionContext, m: CollisionModes, gv: i32, fwd: CollisionSensor, s0: CollisionSensor, s2: CollisionSensor) -> (CollisionSensor, CollisionSensor) {
    let two = 0x20000i32;
    let fx0 = fwd.position.x;
    if ctx.revision == EngineRevision::ExtendedDualOrientation && fwd.collided {
        match m {
            CollisionModes::CmodeFloor => if gv > 0 {
                (s0, place(s2, Vector2 { x: wsub(fx0, two), y: s2.position.y }))
            } else if gv < 0 {
                (place(s0, Vector2 { x: wadd(fx0, two), y: s0.position.y }), s2)
            } else {
                (s0, s2)
            },
            CollisionModes::CmodeRoof => if gv > 0 {
                (s0, place(s2, Vector2 { x: wadd(fx0, two), y: s2.position.y }))
            } else if gv < 0 {
                (place(s0, Vector2 { x: wsub(fx0, two), y: s0.position.y }), s2)
            } else {
                (s0, s2)
            },
            _ => (s0, s2),
        }
    } else {
        (s0, s2)
    }
}

/// One step of the grip.
pub open spec fn grip_step(scene: TileScene, ctx: CollisionContext, trig: TrigTable, gv: i32, rem: i32, st: GripState) -> GripState {
    let (v0, cd0) = step_velocity(trig, st.angle, gv, rem, st.check_dist);
    let anchor = Vector2 { x: wadd(st.anchor.x, v0.x), y: wadd(st.anchor.y, v0.y) };
    let fwd0 = moved(st.fwd, v0);
    let fwd = if gv > 0 {
        contact_probe(scene, ctx, forward_surface(st.mode, true), fwd0)
    } else if gv < 0 {
        contact_probe(scene, ctx, forward_surface(st.mode, false), fwd0)
    } else {
        fwd0
    };
    let v = if fwd.collided {
        set_coord(v0, travels_x(st.mode), 0)
    } else {
        v0
    };
    let surf = mode_surface(st.mode);
    let (l0, l2) = lead_adjust(ctx, st.mode, gv, fwd, uncollide(st.s0), uncollide(st.s2));
    let t0 = track_probe(scene, ctx, surf, moved(l0, v));
    let t1 = track_probe(scene, ctx, surf, moved(uncollide(st.s1), v));
    let t2 = track_probe(scene, ctx, surf, moved(l2, v));
    let w = pick_winner(st.mode, t0, t1, t2);
    let probed = GripState { s0: t0, s1: t1, s2: t2, fwd, anchor, ..st };
    let after = if w == -1 {
        probed
    } else {
        adopt(ctx, probed, seq![t0, t1, t2][w])
    };
    let mode = next_mode_spec(st.mode, after.s0.angle);
    let angle = if w == -1 {
        st.angle
    } else {
        after.s0.angle as i32
    };
    let cd = if w == -1 || fwd.collided {
        -1i32
    } else {
        cd0
    };
    let next = GripState { mode, angle, check_dist: cd, ..after };
    if !fwd.collided {
        setup_spec(ctx, gv, next)
    } else {
        GripState { check_dist: -2i32, ..next }
    }
}

fn velocity_of_step(trig: &TrigTable, angle: i32, gv: i32, rem: i32, check_dist: i32) -> (r: (Vector2, i32))
    requires
        trig.wf(),
        0 <= rem <= 0x3FFFF,
        -2 <= check_dist <= 0x2000,
    ensures
        r == step_velocity(*trig, angle, gv, rem, check_dist),
        -1 <= r.1 < 0x2000,
        r.1 < check_dist || check_dist < 0,
{
    reveal(step_velocity);
    let c = trig.cos_256(angle);
    let s = trig.sin_256(angle);
    let (vx, vy, cd) = if check_dist >= 1 {
        (c * 1024, s * 1024, check_dist - 1)
    } else {
        proof {
            assert(-0x4000000 <= rem * c <= 0x4000000) by (nonlinear_arith)
                requires
                    0 <= rem <= 0x3FFFF,
                    -256 <= c <= 256,
            ;
            assert(-0x4000000 <= rem * s <= 0x4000000) by (nonlinear_arith)
                requires
                    0 <= rem <= 0x3FFFF,
                    -256 <= s <= 256,
            ;
        }
        ((rem * c) >> 8u32, (rem * s) >> 8u32, -1i32)
    };
    proof {
        assert(-0x40000 <= vx <= 0x40000) by {
            if check_dist < 1 {
                let p = (rem * c) as i32;
                assert(-0x4000000 <= p <= 0x4000000 ==> -0x40000 <= (p >> 8u32) <= 0x40000)
                    by (bit_vector);
            }
        }
        assert(-0x40000 <= vy <= 0x40000) by {
            if check_dist < 1 {
                let p = (rem * s) as i32;
                assert(-0x4000000 <= p <= 0x4000000 ==> -0x40000 <= (p >> 8u32) <= 0x40000)
                    by (bit_vector);
            }
        }
    }
    if gv < 0 {
        (Vector2 { x: -vx, y: -vy }, cd)
    } else {
        (Vector2 { x: vx, y: vy }, cd)
    }
}

fn move_sensor(s: &mut CollisionSensor, v: Vector2)
    ensures
        *final(s) == moved(*old(s), v),
{
    s.position = Vector2 { x: add_w(s.position.x, v.x), y: add_w(s.position.y, v.y) };
}

fn beats_exec(m: CollisionModes, s: &CollisionSensor, w: &CollisionSensor) -> (r: bool)
    ensures
        r == beats(m, *s, *w),
{
    match m {
        CollisionModes::CmodeFloor => s.position.y < w.position.y || (s.position.y
            == w.position.y && (s.angle < 0x08 || s.angle > 0xF8)),
        CollisionModes::CmodeLWall => s.position.x < w.position.x,
        CollisionModes::CmodeRoof => s.position.y > w.position.y,
        CollisionModes::CmodeRWall => s.position.x > w.position.x,
    }
}

/// The winning tracking sensor (see `pick_winner`).
fn winner_of(m: CollisionModes, s0: &CollisionSensor, s1: &CollisionSensor, s2: &CollisionSensor) -> (r: i32)
    ensures
        r == pick_winner(m, *s0, *s1, *s2),
        -1 <= r <= 2,
{
    reveal(pick_winner);
    let ghost ss = seq![*s0, *s1, *s2];
    let mut w: i32 = if s0.collided {
        0
    } else {
        -1
    };
    assert(w == winner_step(m, -1, ss, 0));
    if w > -1 {
        if s1.collided && beats_exec(m, s1, s0) {
            w = 1;
        }
    } else if s1.collided {
        w = 1;
    }
    assert(w == winner_step(m, winner_step(m, -1, ss, 0), ss, 1));
    if w > -1 {
        let cur = if w == 0 {
            s0
        } else {
            s1
        };
        if s2.collided && beats_exec(m, s2, cur) {
            w = 2;
        }
    } else if s2.collided {
        w = 2;
    }
    w
}

fn adopt_winner(ctx: &CollisionContext, st: &mut GripState, w: CollisionSensor)
    ensures
        *final(st) == adopt(*ctx, *old(st), w),
        final(st).check_dist == old(st).check_dist,
        final(st).mode == old(st).mode,
        final(st).angle == old(st).angle,
        final(st).fwd == old(st).fwd,
        final(st).s0.angle == w.angle,
{
    reveal(adopt);
    let one = FIXED_ONE;
    let b = fixed_of(ctx.outer.bottom);
    let on_x = match st.mode {
        CollisionModes::CmodeFloor | CollisionModes::CmodeRoof => true,
        _ => false,
    };
    if on_x {
        st.s0.position.y = w.position.y;
        st.s1.position.y = w.position.y;
        st.s2.position.y = w.position.y;
    } else {
        st.s0.position.x = w.position.x;
        st.s1.position.x = w.position.x;
        st.s2.position.x = w.position.x;
    }
    st.s0.angle = w.angle;
    st.s1.angle = w.angle;
    st.s2.angle = w.angle;
    st.anchor = match st.mode {
        CollisionModes::CmodeFloor => Vector2 {
            x: st.s1.position.x,
            y: sub_w(st.s0.position.y, b),
        },
        CollisionModes::CmodeLWall => Vector2 {
            x: sub_w(st.s1.position.x, b),
            y: st.s1.position.y,
        },
        CollisionModes::CmodeRoof => Vector2 {
            x: st.s1.position.x,
            y: add_w(add_w(st.s0.position.y, b), one),
        },
        CollisionModes::CmodeRWall => Vector2 {
            x: add_w(add_w(st.s1.position.x, b), one),
            y: st.s1.position.y,
        },
    };
}

fn forward_check(scene: &TileScene, ctx: &CollisionContext, m: CollisionModes, ahead: bool, s: &mut CollisionSensor)
    requires
        scene.wf(),
        ctx.wf(),
    ensures
        *final(s) == contact_probe(*scene, *ctx, forward_surface(m, ahead), *old(s)),
{
    match (m, ahead) {
        (CollisionModes::CmodeFloor, true) => l_wall_collision(scene, ctx, s),
        (CollisionModes::CmodeFloor, false) => r_wall_collision(scene, ctx, s),
        (CollisionModes::CmodeLWall, true) => roof_collision(scene, ctx, s),
        (CollisionModes::CmodeLWall, false) => floor_collision(scene, ctx, s),
        (CollisionModes::CmodeRoof, true) => r_wall_collision(scene, ctx, s),
        (CollisionModes::CmodeRoof, false) => l_wall_collision(scene, ctx, s),
        (CollisionModes::CmodeRWall, true) => floor_collision(scene, ctx, s),
        (CollisionModes::CmodeRWall, false) => roof_collision(scene, ctx, s),
    }
}

fn track_surface(scene: &TileScene, ctx: &CollisionContext, m: CollisionModes, s: &mut CollisionSensor)
    requires
        scene.wf(),
        ctx.wf(),
    ensures
        *final(s) == track_probe(*scene, *ctx, mode_surface(m), *old(s)),
{
    match m {
        CollisionModes::CmodeFloor => find_floor_position(scene, ctx, s),
        CollisionModes::CmodeLWall => find_l_wall_position(scene, ctx, s),
        CollisionModes::CmodeRoof => find_roof_position(scene, ctx, s),
        CollisionModes::CmodeRWall => find_r_wall_position(scene, ctx, s),
    }
}

/// One step of the grip (see `grip_step`).
#[verifier::rlimit(50)]
fn step(scene: &TileScene, ctx: &CollisionContext, trig: &TrigTable, gv: i32, rem: i32, st: &mut GripState)
    requires
        scene.wf(),
        ctx.wf(),
        trig.wf(),
        0 <= rem <= 0x3FFFF,
        0 <= old(st).check_dist <= 0x2000,
    ensures
        *final(st) == grip_step(*scene, *ctx, *trig, gv, rem, *old(st)),
        final(st).check_dist < old(st).check_dist,
        -2 <= final(st).check_dist,
{
    let (v0, cd0) = velocity_of_step(trig, st.angle, gv, rem, st.check_dist);
    st.anchor = Vector2 { x: add_w(st.anchor.x, v0.x), y: add_w(st.anchor.y, v0.y) };
    move_sensor(&mut st.fwd, v0);
    if gv > 0 {
        forward_check(scene, ctx, st.mode, true, &mut st.fwd);
    } else if gv < 0 {
        forward_check(scene, ctx, st.mode, false, &mut st.fwd);
    }
    let on_x = match st.mode {
        CollisionModes::CmodeFloor | CollisionModes::CmodeRoof => true,
        _ => false,
    };
    let v = if st.fwd.collided {
        if on_x {
            Vector2 { x: 0, y: v0.y }
        } else {
            Vector2 { x: v0.x, y: 0 }
        }
    } else {
        v0
    };
    let mode = st.mode;
    st.s0.collided = false;
    st.s1.collided = false;
    st.s2.collided = false;
    if ctx.revision == EngineRevision::ExtendedDualOrientation && st.fwd.collided {
        let two: i32 = 0x20000;
        let fx0 = st.fwd.position.x;
        match mode {
            CollisionModes::CmodeFloor => {
                if gv > 0 {
                    st.s2.position.x = sub_w(fx0, two);
                } else if gv < 0 {
                    st.s0.position.x = add_w(fx0, two);
                }
            },
            CollisionModes::CmodeRoof => {
                if gv > 0 {
                    st.s2.position.x = add_w(fx0, two);
                } else if gv < 0 {
                    st.s0.position.x = sub_w(fx0, two);
                }
            },
            _ => {},
        }
    }
    move_sensor(&mut st.s0, v);
    move_sensor(&mut st.s1, v);
    move_sensor(&mut st.s2, v);
    track_surface(scene, ctx, mode, &mut st.s0);
    track_surface(scene, ctx, mode, &mut st.s1);
    track_surface(scene, ctx, mode, &mut st.s2);
    let w = winner_of(mode, &st.s0, &st.s1, &st.s2);
    if w != -1 {
        let ws = if w == 0 {
            st.s0
        } else if w == 1 {
            st.s1
        } else {
            st.s2
        };
        adopt_winner(ctx, st, ws);
    }
    st.mode = next_collision_mode(mode, st.s0.angle);
    if w != -1 {
        st.angle = st.s0.angle as i32;
    }
    st.check_dist = if w == -1 || st.fwd.collided {
        -1
    } else {
        cd0
    };
    if !st.fwd.collided {
        set_path_grip_sensors(ctx, gv, st);
    } else {
        st.check_dist = -2;
    }
}

/// More than the number of steps a grip can take.
pub open spec fn grip_fuel() -> nat {
    0x2001
}

/// The grip's steps, until one ends it.
pub open spec fn grip_loop(scene: TileScene, ctx: CollisionContext, trig: TrigTable, gv: i32, rem: i32, st: GripState, fuel: nat) -> GripState
    decreases fuel,
{
    if st.check_dist < 0 || fuel == 0 {
        st
    } else {
        grip_loop(scene, ctx, trig, gv, rem, grip_step(scene, ctx, trig, gv, rem, st), (fuel - 1) as nat)
    }
}

pub open spec fn abs_speed(gv: i32) -> i32 {
    if gv < 0 {
        (-gv) as i32
    } else {
        gv
    }
}

/// Whole steps of a speed: one per 4 pixels.
pub open spec fn whole_steps(gv: i32) -> i32 {
    abs_speed(gv) >> 18u32
}

/// What is left of a speed after its whole steps.
pub open spec fn step_remainder(gv: i32) -> i32 {
    abs_speed(gv) & 0x3FFFFi32
}

/// The sensors as a grip starts: all at the actor, at its angle, placed for its mode.
pub open spec fn grip_start(ctx: CollisionContext, e: Entity) -> GripState {
    let s = CollisionSensor { position: e.position, collided: false, angle: e.angle as u8 };
    setup_spec(
        ctx,
        e.ground_vel,
        GripState {
            s0: s,
            s1: s,
            s2: s,
            fwd: s,
            anchor: e.position,
            angle: e.angle,
            mode: e.collision_mode,
            check_dist: whole_steps(e.ground_vel),
        },
    )
}

/// The state in which a grip of actor `e` ends.
pub open spec fn grip_run(scene: TileScene, ctx: CollisionContext, trig: TrigTable, e: Entity) -> GripState {
    grip_loop(
        scene,
        ctx,
        trig,
        e.ground_vel,
        step_remainder(e.ground_vel),
        grip_start(ctx, e),
        grip_fuel(),
    )
}

/// Where a blocked actor stops along its travel axis: at the forward
/// sensor's contact, less the offset at which that sensor stood.
pub open spec fn clamp_coord(ctx: CollisionContext, gv: i32, st: GripState) -> i32 {
    wsub(along(st.fwd.position, travels_x(st.mode)), forward_offset(st.mode, gv, ctx.outer))
}

/// The actor after its grip ended in `st`. While a tracking sensor holds a
/// surface the actor follows the anchor at the surface's angle; otherwise
/// it leaves the surface with its ground speed turned into a velocity, and
/// falls back to the airborne mode. A blocked forward sensor stops it against
/// the obstacle with no ground speed.
pub open spec fn grip_finish(ctx: CollisionContext, trig: TrigTable, e: Entity, st: GripState) -> Entity {
    let gv0 = e.ground_vel;
    let any = st.s0.collided || st.s1.collided || st.s2.collided;
    let blocked = st.fwd.collided;
    let x_axis = travels_x(st.mode);
    let c = clamp_coord(ctx, gv0, st);
    let base = Entity { angle: st.angle, collision_mode: st.mode, ..e };
    if any {
        let e1 = Entity { angle: st.s0.angle as i32, ..base };
        if !blocked {
            Entity { position: st.anchor, ..e1 }
        } else if st.mode == CollisionModes::CmodeFloor {
            Entity {
                position: set_coord(st.anchor, true, c),
                ground_vel: 0,
                velocity: Vector2 { x: 0, y: e.velocity.y },
                ..e1
            }
        } else {
            Entity { position: set_coord(st.anchor, x_axis, c), ground_vel: 0, ..e1 }
        }
    } else {
        let v = launch_velocity(trig, st.angle, gv0);
        let e1 = Entity {
            on_ground: false,
            collision_mode: airborne_mode(ctx),
            velocity: v,
            ground_vel: v.x,
            angle: airborne_angle(ctx),
            ..base
        };
        if x_axis {
            let x = if !blocked {
                wadd(e.position.x, v.x)
            } else {
                c
            };
            let y = if st.mode == CollisionModes::CmodeFloor {
                wadd(e.position.y, v.y)
            } else {
                st.anchor.y
            };
            if !blocked {
                Entity { position: Vector2 { x, y }, ..e1 }
            } else if st.mode == CollisionModes::CmodeFloor {
                Entity {
                    position: Vector2 { x, y },
                    ground_vel: 0,
                    velocity: Vector2 { x: 0, y: v.y },
                    ..e1
                }
            } else {
                Entity { position: Vector2 { x, y }, ground_vel: 0, ..e1 }
            }
        } else if !blocked {
            Entity { position: st.anchor, ..e1 }
        } else {
            Entity { position: set_coord(st.anchor, false, c), ground_vel: 0, ..e1 }
        }
    }
}

/// The mode an actor falls back to when it leaves its surface: floor, or
/// roof when tile collisions face up.
pub open spec fn airborne_mode(ctx: CollisionContext) -> CollisionModes {
    if ctx.up {
        CollisionModes::CmodeRoof
    } else {
        CollisionModes::CmodeFloor
    }
}

/// The angle of that mode.
pub open spec fn airborne_angle(ctx: CollisionContext) -> i32 {
    if ctx.up {
        0x80
    } else {
        0
    }
}

/// The path grip of a grounded actor.
pub open spec fn path_grip(scene: TileScene, ctx: CollisionContext, trig: TrigTable, e: Entity) -> Entity {
    grip_finish(ctx, trig, e, grip_run(scene, ctx, trig, e))
}

pub open spec fn grip_ok(scene: TileScene, ctx: CollisionContext, trig: TrigTable, e: Entity) -> bool {
    &&& scene.wf()
    &&& ctx.wf()
    &&& trig.wf()
    &&& e.ground_vel > i32::MIN
}

fn finish(ctx: &CollisionContext, trig: &TrigTable, e: &mut Entity, st: &GripState)
    requires
        trig.wf(),
        old(e).ground_vel > i32::MIN,
    ensures
        *final(e) == grip_finish(*ctx, *trig, *old(e), *st),
{
    let gv0 = e.ground_vel;
    let any = st.s0.collided || st.s1.collided || st.s2.collided;
    let blocked = st.fwd.collided;
    let x_axis = match st.mode {
        CollisionModes::CmodeFloor | CollisionModes::CmodeRoof => true,
        _ => false,
    };
    let one = FIXED_ONE;
    let right = fixed_of(ctx.outer.right);
    let left = fixed_of(ctx.outer.left);
    let f = match st.mode {
        CollisionModes::CmodeFloor | CollisionModes::CmodeRWall => if gv0 > 0 {
            right
        } else {
            sub_w(left, one)
        },
        CollisionModes::CmodeRoof => if gv0 > 0 {
            sub_w(0, right)
        } else {
            add_w(sub_w(0, left), one)
        },
        CollisionModes::CmodeLWall => if gv0 > 0 {
            sub_w(sub_w(0, right), one)
        } else {
            sub_w(0, left)
        },
    };
    let c = sub_w(
        if x_axis {
            st.fwd.position.x
        } else {
            st.fwd.position.y
        },
        f,
    );
    let is_floor = st.mode == CollisionModes::CmodeFloor;
    e.collision_mode = st.mode;
    if any {
        e.angle = st.s0.angle as i32;
        if !blocked {
            e.position = st.anchor;
        } else {
            e.position = if x_axis {
                Vector2 { x: c, y: st.anchor.y }
            } else {
                Vector2 { x: st.anchor.x, y: c }
            };
            e.ground_vel = 0;
            if is_floor {
                e.velocity.x = 0;
            }
        }
    } else {
        let v = launch(trig, st.angle, gv0);
        let pos = e.position;
        e.on_ground = false;
        if ctx.up {
            e.collision_mode = CollisionModes::CmodeRoof;
            e.angle = 0x80;
        } else {
            e.collision_mode = CollisionModes::CmodeFloor;
            e.angle = 0;
        }
        e.velocity = v;
        e.ground_vel = v.x;
        if x_axis {
            let x = if !blocked {
                add_w(pos.x, v.x)
            } else {
                c
            };
            let y = if is_floor {
                add_w(pos.y, v.y)
            } else {
                st.anchor.y
            };
            e.position = Vector2 { x, y };
            if blocked {
                e.ground_vel = 0;
                if is_floor {
                    e.velocity.x = 0;
                }
            }
        } else if !blocked {
            e.position = st.anchor;
        } else {
            e.position = Vector2 { x: st.anchor.x, y: c };
            e.ground_vel = 0;
        }
    }
}

/// Moves a grounded actor along its surface by its ground speed: in whole
/// steps of 4 pixels and a last step for the remainder (at least one step,
/// even at rest), re-casting the sensors after each step. The grip ends
/// when the forward sensor meets an obstacle or no tracking sensor holds
/// a surface; leaving the surface, the actor falls back to floor mode (roof
/// mode when tile collisions face up).
pub fn process_path_grip(scene: &TileScene, ctx: &CollisionContext, trig: &TrigTable, e: &mut Entity)
    requires
        grip_ok(*scene, *ctx, *trig, *old(e)),
    ensures
        *final(e) == path_grip(*scene, *ctx, *trig, *old(e)),
        ({
            let st = grip_run(*scene, *ctx, *trig, *old(e));
            st.fwd.collided ==> final(e).ground_vel == 0 && along(
                final(e).position,
                travels_x(st.mode),
            ) == clamp_coord(*ctx, old(e).ground_vel, st)
        }),
        final(e).on_ground ==> final(e).ground_vel > i32::MIN,
        ({
            let st = grip_run(*scene, *ctx, *trig, *old(e));
            st.fwd.collided && st.mode == CollisionModes::CmodeFloor ==> final(e).velocity.x == 0
        }),
{
    let gv = e.ground_vel;
    let abs: i32 = if gv < 0 {
        -gv
    } else {
        gv
    };
    let check_dist = abs >> 18u32;
    let rem = abs & 0x3FFFFi32;
    proof {
        assert(0 <= abs ==> 0 <= (abs >> 18u32) <= 0x2000) by (bit_vector);
        assert(0 <= abs ==> 0 <= (abs & 0x3FFFFi32) <= 0x3FFFF) by (bit_vector);
    }
    let s = CollisionSensor { position: e.position, collided: false, angle: e.angle as u8 };
    let mut st = GripState {
        s0: s,
        s1: s,
        s2: s,
        fwd: s,
        anchor: e.position,
        angle: e.angle,
        mode: e.collision_mode,
        check_dist,
    };
    set_path_grip_sensors(ctx, gv, &mut st);
    let ghost fuel: nat = grip_fuel();
    while st.check_dist >= 0
        invariant
            scene.wf(),
            ctx.wf(),
            trig.wf(),
            0 <= rem <= 0x3FFFF,
            gv == old(e).ground_vel,
            -2 <= st.check_dist <= 0x2000,
            st.check_dist < fuel,
            grip_loop(*scene, *ctx, *trig, gv, rem, st, fuel) == grip_run(
                *scene,
                *ctx,
                *trig,
                *old(e),
            ),
        decreases st.check_dist + 2,
    {
        step(scene, ctx, trig, gv, rem, &mut st);
        proof {
            fuel = (fuel - 1) as nat;
        }
    }
    finish(ctx, trig, e, &st);
}

proof fn lemma_wrap_add_sub(a: i32, b: i32)
    ensures
        wsub(wadd(a, b), b) == a,
        wadd(wsub(a, b), b) == a,
        wadd(a, 0) == a,
{
}

/// At rest, the grip takes exactly one step.
pub proof fn lemma_rest_grip_single_step(scene: TileScene, ctx: CollisionContext, trig: TrigTable, e: Entity)
    requires
        grip_ok(scene, ctx, trig, e),
        e.ground_vel == 0,
    ensures
        grip_run(scene, ctx, trig, e) == grip_step(scene, ctx, trig, 0, 0, grip_start(ctx, e)),
        grip_start(ctx, e).check_dist == 0,
        grip_run(scene, ctx, trig, e).check_dist < 0,
{
    reveal(setup_spec);
    reveal(step_velocity);
    assert((0i32 >> 18u32) == 0) by (bit_vector);
    assert((0i32 & 0x3FFFFi32) == 0) by (bit_vector);
    let st0 = grip_start(ctx, e);
    assert(st0.check_dist == 0);
    let st1 = grip_step(scene, ctx, trig, 0, 0, st0);
    assert(st1.check_dist < 0);
    reveal_with_fuel(grip_loop, 2);
}

/// At rest, when each tracking sensor finds the surface exactly where it
/// stands, the actor keeps its position and stays on the surface.
#[verifier::rlimit(100)]
pub proof fn lemma_rest_grip_keeps_position(scene: TileScene, ctx: CollisionContext, trig: TrigTable, e: Entity)
    requires
        grip_ok(scene, ctx, trig, e),
        e.ground_vel == 0,
        ({
            let st = grip_start(ctx, e);
            let z = Vector2 { x: 0, y: 0 };
            let surf = mode_surface(e.collision_mode);
            &&& track_probe(scene, ctx, surf, moved(uncollide(st.s0), z)).position
                == st.s0.position
            &&& track_probe(scene, ctx, surf, moved(uncollide(st.s1), z)).position
                == st.s1.position
            &&& track_probe(scene, ctx, surf, moved(uncollide(st.s2), z)).position
                == st.s2.position
            &&& track_probe(scene, ctx, surf, moved(uncollide(st.s0), z)).collided
            &&& track_probe(scene, ctx, surf, moved(uncollide(st.s1), z)).collided
            &&& track_probe(scene, ctx, surf, moved(uncollide(st.s2), z)).collided
        }),
    ensures
        path_grip(scene, ctx, trig, e).position == e.position,
        path_grip(scene, ctx, trig, e).on_ground == e.on_ground,
        path_grip(scene, ctx, trig, e).ground_vel == 0,
{
    lemma_rest_grip_single_step(scene, ctx, trig, e);
    reveal(setup_spec);
    reveal(step_velocity);
    reveal(adopt);
    reveal(pick_winner);
    let st0 = grip_start(ctx, e);
    let c = trig.cos_spec(st0.angle);
    let sn = trig.sin_spec(st0.angle);
    assert(((0 * c) as i32) >> 8u32 == 0) by {
        assert((0i32 >> 8u32) == 0) by (bit_vector);
    }
    assert(((0 * sn) as i32) >> 8u32 == 0) by {
        assert((0i32 >> 8u32) == 0) by (bit_vector);
    }
    let b = fx(ctx.outer.bottom);
    let one = FIXED_ONE;
    let a = e.position;
    lemma_wrap_add_sub(a.x, 0);
    lemma_wrap_add_sub(a.y, 0);
    lemma_wrap_add_sub(a.y, b);
    lemma_wrap_add_sub(a.x, b);
    assert(wadd(wadd(wsub(wsub(a.y, b), one), b), one) == a.y) by {
        lemma_wrap_sub_add_pair(a.y, b, one);
    }
    assert(wadd(wadd(wsub(wsub(a.x, b), one), b), one) == a.x) by {
        lemma_wrap_sub_add_pair(a.x, b, one);
    }
    assert(st0.anchor == e.position);
    assert(!st0.fwd.collided);
    match e.collision_mode {
        CollisionModes::CmodeFloor => {},
        CollisionModes::CmodeLWall => {},
        CollisionModes::CmodeRoof => {},
        CollisionModes::CmodeRWall => {},
    }
}

proof fn lemma_wrap_sub_add_pair(a: i32, b: i32, c: i32)
    ensures
        wadd(wadd(wsub(wsub(a, b), c), b), c) == a,
{
}

/// The forward clamp on a floor: when the grip ends with the forward sensor
/// blocked and the actor still in floor mode, the actor stops against the
/// contact less its outer hitbox's extent on the side of travel (the right
/// side when moving right; the left side and one pixel when moving left),
/// with no ground speed and no horizontal velocity.
pub proof fn lemma_floor_forward_clamp(scene: TileScene, ctx: CollisionContext, trig: TrigTable, e: Entity)
    requires
        grip_ok(scene, ctx, trig, e),
        grip_run(scene, ctx, trig, e).fwd.collided,
        grip_run(scene, ctx, trig, e).mode == CollisionModes::CmodeFloor,
    ensures
        ({
            let st = grip_run(scene, ctx, trig, e);
            let r = path_grip(scene, ctx, trig, e);
            &&& r.ground_vel == 0
            &&& r.velocity.x == 0
            &&& e.ground_vel > 0 ==> r.position.x == wsub(st.fwd.position.x, fx(ctx.outer.right))
            &&& e.ground_vel <= 0 ==> r.position.x == wsub(
                st.fwd.position.x,
                wsub(fx(ctx.outer.left), FIXED_ONE),
            )
        }),
{
}

} // verus!
