//! The player's physics body and the per-tick simulation: friction,
//! input acceleration, the jump debounce, position integration, and
//! the collision resolver that corrects the raw integration against
//! the map.

use vstd::prelude::*;
use crate::common::{
    Position2d, Velocity2d, Size2d, in_world, valid_dt, scale_spec, snap_spec, scale_by_dt,
    snap_to_unit, FP_ONE, TILE_FP,
};
use crate::level::{TileMap, MapElementCollideType};

verus! {

/// Horizontal input acceleration, in fixed-point world units per
/// second squared.
pub const PLAYER_ACCEL: i64 = 150 * FP_ONE;

/// Horizontal friction decay toward zero, in fixed-point world units
/// per second squared.
pub const PLAYER_FRICTION: i64 = 150 * FP_ONE;

/// Horizontal speed cap, in fixed-point world units per second.
pub const PLAYER_MAX_SPEED: i64 = 150 * FP_ONE;

/// Jump impulse: the vertical velocity set the tick a jump triggers,
/// in fixed-point world units per second (negative is up).
pub const PLAYER_JUMP_VELOCITY: i64 = -400 * FP_ONE;

/// Gravity acceleration applied to unsupported bodies, in fixed-point
/// world units per second squared.
pub const SPRITE_FALLING: i64 = 20 * FP_ONE;

/// Marker for the concrete player entity kind.
pub trait PlayerTrait {

}

/// The presentation animation selected by the simulation; it never
/// feeds back into physics.
#[derive(Clone, Copy, PartialEq, Eq, Structural, Debug)]
pub enum PlayerAnimation {
    Idle,
    Run,
    Jump,
    Fall,
}

/// The one moving body: top-left anchored bounding box, velocity, the
/// standing flag maintained by the collision resolver, and the jump
/// debounce latch.
#[derive(Clone, Copy, PartialEq, Eq, Structural, Debug)]
pub struct Player {
    pub position: Position2d,
    pub velocity: Velocity2d,
    pub size: Size2d,
    pub standing: bool,
    pub jump_ready: bool,
    pub animation: PlayerAnimation,
}

impl PlayerTrait for Player {

}

impl Player {
    /// A player at rest at the origin, one tile in size, standing and
    /// ready to jump.
    pub fn new() -> (r: Self)
        ensures
            r.position.x == 0,
            r.position.y == 0,
            r.velocity.vx == 0,
            r.velocity.vy == 0,
            r.size.w == TILE_FP,
            r.size.h == TILE_FP,
            r.standing,
            r.jump_ready,
            r.animation == PlayerAnimation::Idle,
    {
        Player {
            position: Position2d { x: 0, y: 0 },
            velocity: Velocity2d { vx: 0, vy: 0 },
            size: Size2d { w: TILE_FP, h: TILE_FP },
            standing: true,
            jump_ready: true,
            animation: PlayerAnimation::Idle,
        }
    }
}

/// Friction: decays the horizontal velocity toward zero by
/// `PLAYER_FRICTION * dt`, clamped at the zero crossing so it never
/// overshoots past zero.
pub open spec fn friction_spec(vx: int, dt: int) -> int {
    let dec = scale_spec(PLAYER_FRICTION as int, dt);
    if vx > 0 {
        if vx - dec < 0 {
            0
        } else {
            vx - dec
        }
    } else if vx < 0 {
        if vx + dec > 0 {
            0
        } else {
            vx + dec
        }
    } else {
        vx
    }
}

/// Input acceleration: each held direction adds `PLAYER_ACCEL * dt`,
/// clamped to the speed cap on that side.
pub open spec fn accel_spec(vx: int, left: bool, right: bool, dt: int) -> int {
    let acc = scale_spec(PLAYER_ACCEL as int, dt);
    let v1 = if left {
        if vx - acc < -PLAYER_MAX_SPEED {
            -PLAYER_MAX_SPEED as int
        } else {
            vx - acc
        }
    } else {
        vx
    };
    if right {
        if v1 + acc > PLAYER_MAX_SPEED {
            PLAYER_MAX_SPEED as int
        } else {
            v1 + acc
        }
    } else {
        v1
    }
}

/// One input-and-integration tick: friction, then input acceleration,
/// then the debounced jump impulse (instantaneous, not time-scaled),
/// then `position += velocity * dt`.
pub open spec fn update_spec(p: Player, left: bool, right: bool, jump: bool, dt: int) -> Player {
    let vx = accel_spec(friction_spec(p.velocity.vx as int, dt), left, right, dt);
    let run_anim = if left || right {
        PlayerAnimation::Run
    } else {
        p.animation
    };
    let jump_fires = jump && p.standing && p.jump_ready;
    let vy = if jump_fires {
        PLAYER_JUMP_VELOCITY as int
    } else {
        p.velocity.vy as int
    };
    Player {
        position: Position2d {
            x: (p.position.x + scale_spec(vx, dt)) as i64,
            y: (p.position.y + scale_spec(vy, dt)) as i64,
        },
        velocity: Velocity2d { vx: vx as i64, vy: vy as i64 },
        size: p.size,
        standing: if jump_fires {
            false
        } else {
            p.standing
        },
        jump_ready: if jump_fires {
            false
        } else if !jump && !p.jump_ready {
            true
        } else {
            p.jump_ready
        },
        animation: if jump_fires {
            PlayerAnimation::Jump
        } else {
            run_anim
        },
    }
}

impl Player {
    /// Applies one tick of input and integration, exactly as
    /// `update_spec` describes it.
    pub fn update(&mut self, left: bool, right: bool, jump: bool, dt: i64)
        requires
            in_world(old(self).position.x),
            in_world(old(self).position.y),
            in_world(old(self).velocity.vx),
            in_world(old(self).velocity.vy),
            valid_dt(dt),
        ensures
            *final(self) == update_spec(*old(self), left, right, jump, dt as int),
    {
        let dec = scale_by_dt(PLAYER_FRICTION, dt);
        if self.velocity.vx > 0 {
            self.velocity.vx = self.velocity.vx - dec;
            if self.velocity.vx < 0 {
                self.velocity.vx = 0;
            }
        }
        if self.velocity.vx < 0 {
            self.velocity.vx = self.velocity.vx + dec;
            if self.velocity.vx > 0 {
                self.velocity.vx = 0;
            }
        }
        let acc = scale_by_dt(PLAYER_ACCEL, dt);
        if left {
            self.velocity.vx = self.velocity.vx - acc;
            if self.velocity.vx < -PLAYER_MAX_SPEED {
                self.velocity.vx = -PLAYER_MAX_SPEED;
            }
            self.animation = PlayerAnimation::Run;
        }
        if right {
            self.velocity.vx = self.velocity.vx + acc;
            if self.velocity.vx > PLAYER_MAX_SPEED {
                self.velocity.vx = PLAYER_MAX_SPEED;
            }
            self.animation = PlayerAnimation::Run;
        }
        if jump {
            if self.standing && self.jump_ready {
                self.velocity.vy = PLAYER_JUMP_VELOCITY;
                self.standing = false;
                self.jump_ready = false;
                self.animation = PlayerAnimation::Jump;
            }
        } else if !self.jump_ready {
            self.jump_ready = true;
        }
        self.position.x = self.position.x + scale_by_dt(self.velocity.vx, dt);
        self.position.y = self.position.y + scale_by_dt(self.velocity.vy, dt);
    }
}

/// One collision-resolution tick: horizontal blocking before vertical,
/// the ceiling before the floor, then gravity on unsupported bodies.
pub open spec fn resolve_spec(map: TileMap, p: Player, dt: int) -> Player {
    let vx = p.velocity.vx as int;
    let vy = p.velocity.vy as int;
    let collide_h = if vx > 0 {
        map.collide_spec(MapElementCollideType::Right, p.position, p.size)
    } else if vx < 0 {
        map.collide_spec(MapElementCollideType::Left, p.position, p.size)
    } else {
        false
    };
    let vx1 = if collide_h {
        0
    } else {
        vx
    };
    let x1 = if collide_h {
        snap_spec(p.position.x as int)
    } else {
        p.position.x as int
    };
    let pos1 = Position2d { x: x1 as i64, y: p.position.y };
    let above = vy < 0 && map.collide_spec(MapElementCollideType::Above, pos1, p.size);
    let vy1 = if above {
        0
    } else {
        vy
    };
    let y1 = if above {
        snap_spec(p.position.y as int)
    } else {
        p.position.y as int
    };
    let pos2 = Position2d { x: x1 as i64, y: y1 as i64 };
    let below_checked = p.standing || vy1 > 0;
    let below = below_checked && map.collide_spec(MapElementCollideType::Below, pos2, p.size);
    let standing1 = if below_checked {
        below
    } else {
        p.standing
    };
    let vy2 = if below {
        0
    } else {
        vy1
    };
    let y2 = if below {
        snap_spec(y1)
    } else {
        y1
    };
    let vy3 = if !standing1 {
        vy2 + scale_spec(SPRITE_FALLING as int, dt)
    } else {
        vy2
    };
    Player {
        position: Position2d { x: x1 as i64, y: y2 as i64 },
        velocity: Velocity2d { vx: vx1 as i64, vy: vy3 as i64 },
        size: p.size,
        standing: standing1,
        jump_ready: p.jump_ready,
        animation: p.animation,
    }
}

/// Probes the map on up to four sides of the body and corrects
/// velocity, position and the standing flag, exactly as `resolve_spec`
/// describes it.
pub fn update_sprite(sprite: &mut Player, map: &TileMap, dt: i64)
    requires
        in_world(old(sprite).position.x),
        in_world(old(sprite).position.y),
        in_world(old(sprite).velocity.vx),
        in_world(old(sprite).velocity.vy),
        in_world(old(sprite).size.w),
        in_world(old(sprite).size.h),
        valid_dt(dt),
    ensures
        *final(sprite) == resolve_spec(*map, *old(sprite), dt as int),
{
    let mut collide = false;
    let mut velocity = sprite.velocity;
    if !collide && velocity.vx > 0 {
        collide = map.collide(MapElementCollideType::Right, sprite.position, sprite.size);
    }
    if !collide && velocity.vx < 0 {
        collide = map.collide(MapElementCollideType::Left, sprite.position, sprite.size);
    }
    if collide {
        velocity.vx = 0;
        sprite.position.x = snap_to_unit(sprite.position.x);
    }
    collide = false;
    if !collide && velocity.vy < 0 {
        collide = map.collide(MapElementCollideType::Above, sprite.position, sprite.size);
        if collide {
            velocity.vy = 0;
            sprite.position.y = snap_to_unit(sprite.position.y);
        }
    }
    if sprite.standing || velocity.vy > 0 {
        collide = map.collide(MapElementCollideType::Below, sprite.position, sprite.size);
        if collide {
            sprite.standing = true;
            velocity.vy = 0;
            sprite.position.y = snap_to_unit(sprite.position.y);
        } else {
            sprite.standing = false;
        }
    }
    if !sprite.standing {
        velocity.vy = velocity.vy + scale_by_dt(SPRITE_FALLING, dt);
    }
    sprite.velocity = velocity;
}

/// Jump debounce law: with the jump key held across two consecutive
/// input ticks from a standing, jump-ready state, only the first tick
/// sets the jump impulse and clears `standing`; the second tick leaves
/// the vertical velocity and the airborne state alone.
pub proof fn lemma_jump_debounce(
    p: Player,
    l1: bool,
    r1: bool,
    dt1: int,
    l2: bool,
    r2: bool,
    dt2: int,
)
    requires
        p.standing,
        p.jump_ready,
    ensures
        ({
            let p1 = update_spec(p, l1, r1, true, dt1);
            let p2 = update_spec(p1, l2, r2, true, dt2);
            p1.velocity.vy == PLAYER_JUMP_VELOCITY && !p1.standing && !p1.jump_ready
                && p2.velocity.vy == PLAYER_JUMP_VELOCITY && !p2.standing && !p2.jump_ready
        }),
{
}

} // verus!
