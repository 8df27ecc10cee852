//! The actor: the fields of a moving entity that tile collision reads and updates.
use vstd::prelude::*;
use crate::fixed::Vector2;

verus! {

/// Which way tile collisions face for an actor.
#[derive(Clone, Copy, Debug, PartialEq, Eq, Structural)]
pub enum TileCollisionModes {
    /// No tile collisions: the actor moves freely.
    TileCollisionNone,
    /// Downwards tile collisions.
    TileCollisionDown,
    /// Upwards tile collisions: the actor's floor is the tiles' bottoms.
    TileCollisionUp,
}

/// The surface a grounded actor stands on.
#[derive(Clone, Copy, Debug, PartialEq, Eq, Structural)]
pub enum CollisionModes {
    CmodeFloor,
    CmodeLWall,
    CmodeRoof,
    CmodeRWall,
}

/// A moving entity, as far as tile collision goes.
#[derive(Clone, Copy, Debug, PartialEq, Eq, Structural)]
pub struct Entity {
    /// Q16.16 world position.
    pub position: Vector2,
    /// Q16.16 per tick.
    pub velocity: Vector2,
    /// Signed speed along the current surface, Q16.16 per tick.
    pub ground_vel: i32,
    /// Byte angle of the surface under the actor.
    pub angle: i32,
    pub collision_mode: CollisionModes,
    pub collision_plane: u8,
    pub on_ground: bool,
    /// Bit `l` selects tile layer `l`.
    pub collision_layers: u16,
    pub tile_collisions: TileCollisionModes,
}

/// The transition rule of the grounded state machine: the mode that a
/// surface angle `a` moves an actor in mode `m` to. Every bound is exclusive.
pub open spec fn next_mode_spec(m: CollisionModes, a: u8) -> CollisionModes {
    match m {
        CollisionModes::CmodeFloor => if 0x80 < a < 0xDE {
            CollisionModes::CmodeLWall
        } else if 0x22 < a < 0x80 {
            CollisionModes::CmodeRWall
        } else {
            m
        },
        CollisionModes::CmodeLWall => if a > 0xE2 {
            CollisionModes::CmodeFloor
        } else if a < 0x9E {
            CollisionModes::CmodeRoof
        } else {
            m
        },
        CollisionModes::CmodeRoof => if a > 0xA2 {
            CollisionModes::CmodeLWall
        } else if a < 0x5E {
            CollisionModes::CmodeRWall
        } else {
            m
        },
        CollisionModes::CmodeRWall => if a < 0x1E {
            CollisionModes::CmodeFloor
        } else if a > 0x62 {
            CollisionModes::CmodeRoof
        } else {
            m
        },
    }
}

/// The mode that the surface angle `angle` moves a grounded actor in mode `mode` to.
pub fn next_collision_mode(mode: CollisionModes, angle: u8) -> (r: CollisionModes)
    ensures
        r == next_mode_spec(mode, angle),
{
    match mode {
        CollisionModes::CmodeFloor => {
            if angle > 0x80 && angle < 0xDE {
                CollisionModes::CmodeLWall
            } else if angle > 0x22 && angle < 0x80 {
                CollisionModes::CmodeRWall
            } else {
                mode
            }
        },
        CollisionModes::CmodeLWall => {
            if angle > 0xE2 {
                CollisionModes::CmodeFloor
            } else if angle < 0x9E {
                CollisionModes::CmodeRoof
            } else {
                mode
            }
        },
        CollisionModes::CmodeRoof => {
            if angle > 0xA2 {
                CollisionModes::CmodeLWall
            } else if angle < 0x5E {
                CollisionModes::CmodeRWall
            } else {
                mode
            }
        },
        CollisionModes::CmodeRWall => {
            if angle < 0x1E {
                CollisionModes::CmodeFloor
            } else if angle > 0x62 {
                CollisionModes::CmodeRoof
            } else {
                mode
            }
        },
    }
}

/// Near a mode's own angle no transition happens: a floor with an angle
/// within 0x22 of flat on either side keeps the actor on the floor, and
/// the floor's two transition ranges end exclusively at the half turn.
pub proof fn lemma_floor_mode_is_stable_near_flat(a: u8)
    ensures
        (a <= 0x22 || a >= 0xDE || a == 0x80) ==> next_mode_spec(CollisionModes::CmodeFloor, a)
            == CollisionModes::CmodeFloor,
        0x80 < a < 0xDE ==> next_mode_spec(CollisionModes::CmodeFloor, a)
            == CollisionModes::CmodeLWall,
{
}

} // verus!
