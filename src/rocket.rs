//! The flying body and its landing target.
use vstd::prelude::*;

use crate::geometry::{Rect, Vector2, WEIGHT_PER_UNIT};

verus! {

/// Height of the playfield: the floor lies at this y (800 world units).
pub const WINDOW_Y: i64 = 8_000_000_000;

/// The y at or below which a resting rocket counts as down on the platform
/// (650 world units).
pub const WINDOW_MIDDLE: i64 = 6_500_000_000;

/// The y of the platform's top edge in the standard playfield (390 world units).
pub const WINDOW_BOTTOM: i64 = 3_900_000_000;

/// The x of the platform's left edge in the standard playfield (160 world units).
pub const PLATFORM_X: i64 = 1_600_000_000;

/// Width of the standard platform (100 world units).
pub const PLATFORM_W: i64 = 1_000_000_000;

/// Height of the standard platform (30 world units).
pub const PLATFORM_H: i64 = 300_000_000;

/// Magnitude of one directional thrust, in force steps (0.0009).
pub const MOVEMENT_FORCE: i64 = 9;

/// Width of the rocket (60 world units).
pub const ROCKET_W: i64 = 600_000_000;

/// Height of the rocket (150 world units).
pub const ROCKET_H: i64 = 1_500_000_000;

/// Whether a mathematical integer can be held in an `i64`.
pub open spec fn fits_i64(v: int) -> bool {
    i64::MIN <= v <= i64::MAX
}

/// The rocket: its bounding box, motion, the forces its thrusters push
/// with, its weight and its fuel.
///
/// `shape.x` and `shape.y` hold the top-left corner; once the rocket has
/// flown a step they equal the velocity, which doubles as the position.
#[derive(Clone, Copy, PartialEq, Eq, Debug, Structural)]
pub struct Rocket {
    pub shape: Rect,
    pub acceleration: Vector2,
    pub velocity: Vector2,
    pub up_force: Vector2,
    pub left_force: Vector2,
    pub right_force: Vector2,
    pub weight: i64,
    pub is_moving: bool,
    pub fuel: i64,
    pub is_flying: bool,
}

/// The landing target: a rectangle that never moves.
#[derive(Clone, Copy, PartialEq, Eq, Debug, Structural)]
pub struct Platform {
    pub shape: Rect,
}

impl Platform {
    pub fn new(x: i64, y: i64, w: i64, h: i64) -> (r: Platform)
        ensures
            r.shape == (Rect { x, y, w, h }),
    {
        Platform { shape: Rect::new(x, y, w, h) }
    }
}

impl Rocket {
    /// The fixed size and thrust vectors every rocket keeps for its lifetime.
    pub open spec fn wf(self) -> bool {
        &&& self.shape.w == ROCKET_W
        &&& self.shape.h == ROCKET_H
        &&& self.up_force.x == 0 && self.up_force.y == -MOVEMENT_FORCE
        &&& self.left_force.x == -MOVEMENT_FORCE && self.left_force.y == 0
        &&& self.right_force.x == MOVEMENT_FORCE && self.right_force.y == 0
    }

    /// Applying `f` stays within `i64`.
    pub open spec fn can_apply(self, f: Vector2) -> bool {
        &&& fits_i64(f.x * self.weight)
        &&& fits_i64(f.y * self.weight)
        &&& fits_i64(self.acceleration.x + f.x * self.weight)
        &&& fits_i64(self.acceleration.y + f.y * self.weight)
    }

    /// The rocket after `f`, scaled by the weight, is added to the acceleration.
    pub open spec fn with_force(self, f: Vector2) -> Rocket {
        Rocket {
            acceleration: Vector2 {
                x: (self.acceleration.x + f.x * self.weight) as i64,
                y: (self.acceleration.y + f.y * self.weight) as i64,
            },
            ..self
        }
    }

    /// Flying one step stays within `i64`.
    pub open spec fn can_fly(self) -> bool {
        &&& fits_i64(self.velocity.x + self.acceleration.x)
        &&& fits_i64(self.velocity.y + self.acceleration.y)
    }

    /// The rocket after one integration step: the acceleration is added to
    /// the velocity, the position is set to the new velocity, and only the
    /// horizontal acceleration is cleared.
    pub open spec fn flown(self) -> Rocket {
        let vx = (self.velocity.x + self.acceleration.x) as i64;
        let vy = (self.velocity.y + self.acceleration.y) as i64;
        Rocket {
            velocity: Vector2 { x: vx, y: vy },
            shape: Rect { x: vx, y: vy, ..self.shape },
            acceleration: Vector2 { x: 0, y: self.acceleration.y },
            ..self
        }
    }

    /// Whether the bottom edge is at or past `window_height`.
    pub open spec fn touches_floor(self, window_height: i64) -> bool {
        self.shape.y + self.shape.h >= window_height
    }

    /// The rocket after the floor check against `window_height`: on contact
    /// it stops falling, rests on the floor and no longer flies.
    pub open spec fn grounded(self, window_height: i64) -> Rocket {
        if self.touches_floor(window_height) {
            Rocket {
                velocity: Vector2 { x: self.velocity.x, y: 0 },
                shape: Rect { y: (window_height - self.shape.h) as i64, ..self.shape },
                is_flying: false,
                ..self
            }
        } else {
            self
        }
    }

    /// The rocket placed to rest `platform_h` above the floor.
    pub open spec fn fallen(self, platform_h: i64) -> Rocket {
        Rocket {
            shape: Rect { y: (WINDOW_Y - self.shape.h - platform_h) as i64, ..self.shape },
            is_flying: false,
            ..self
        }
    }

    /// The rocket after an upward thrust: the force is applied and fuel
    /// changes by the force's y times the weight (negative, so fuel drops).
    pub open spec fn thrust_up(self) -> Rocket {
        Rocket {
            fuel: (self.fuel + self.up_force.y * self.weight) as i64,
            ..self.with_force(self.up_force)
        }
    }

    pub open spec fn can_thrust_up(self) -> bool {
        self.can_apply(self.up_force) && fits_i64(self.fuel + self.up_force.y * self.weight)
    }

    /// The rocket after a leftward thrust: fuel changes by the force's x
    /// times the weight (negative, so fuel drops).
    pub open spec fn thrust_left(self) -> Rocket {
        Rocket {
            fuel: (self.fuel + self.left_force.x * self.weight) as i64,
            ..self.with_force(self.left_force)
        }
    }

    pub open spec fn can_thrust_left(self) -> bool {
        self.can_apply(self.left_force) && fits_i64(self.fuel + self.left_force.x * self.weight)
    }

    /// The rocket after a rightward thrust: fuel drops by the force's x times
    /// the weight.
    pub open spec fn thrust_right(self) -> Rocket {
        Rocket {
            fuel: (self.fuel - self.right_force.x * self.weight) as i64,
            ..self.with_force(self.right_force)
        }
    }

    pub open spec fn can_thrust_right(self) -> bool {
        self.can_apply(self.right_force) && fits_i64(self.fuel - self.right_force.x * self.weight)
    }

    /// The downward push: applied like any force, scaled by the weight.
    pub open spec fn down_force() -> Vector2 {
        Vector2 { x: 0, y: MOVEMENT_FORCE }
    }

    /// The rocket after a downward thrust: the push is applied, then the
    /// vertical acceleration is lowered by the movement force for a weight of
    /// one, bypassing the weight. No fuel is spent.
    pub open spec fn thrust_down(self) -> Rocket {
        let r = self.with_force(Self::down_force());
        Rocket {
            acceleration: Vector2 {
                x: r.acceleration.x,
                y: (r.acceleration.y - MOVEMENT_FORCE * WEIGHT_PER_UNIT) as i64,
            },
            ..r
        }
    }

    pub open spec fn can_thrust_down(self) -> bool {
        &&& self.can_apply(Self::down_force())
        &&& fits_i64(self.acceleration.y + MOVEMENT_FORCE * self.weight - MOVEMENT_FORCE
            * WEIGHT_PER_UNIT)
    }

    /// The landing zone: the left edge lies between the platform's right edge
    /// and one platform width plus one rocket width beyond it, and the top
    /// edge is at or below the landing threshold.
    pub open spec fn on_platform(self, platform: Platform) -> bool {
        &&& self.shape.x >= platform.shape.x + platform.shape.w
        &&& self.shape.x - self.shape.w <= platform.shape.x + platform.shape.w
            + platform.shape.w
        &&& self.shape.y >= WINDOW_MIDDLE
    }

    /// The arithmetic of the landing check stays within `i64`.
    pub open spec fn can_check_platform(self, platform: Platform) -> bool {
        &&& fits_i64(platform.shape.x + platform.shape.w)
        &&& fits_i64(platform.shape.x + platform.shape.w + platform.shape.w)
        &&& fits_i64(self.shape.x - self.shape.w)
    }
}

impl Rocket {
    /// A new rocket with its top-left corner at `(x, y)`: no motion yet, the
    /// standard size and thrusters, flying and not steered.
    pub fn new(x: i64, y: i64, weight: i64, fuel: i64) -> (r: Rocket)
        ensures
            r.wf(),
            r.shape == (Rect { x, y, w: ROCKET_W, h: ROCKET_H }),
            r.acceleration == (Vector2 { x: 0, y: 0 }),
            r.velocity == (Vector2 { x: 0, y: 0 }),
            r.weight == weight,
            r.fuel == fuel,
            r.is_flying,
            !r.is_moving,
    {
        let acceleration = Vector2::new(0, 0);
        let velocity = Vector2::new(0, 0);
        let up_force = Vector2::new(0, -MOVEMENT_FORCE);
        let left_force = Vector2::new(-MOVEMENT_FORCE, 0);
        let right_force = Vector2::new(MOVEMENT_FORCE, 0);
        Rocket {
            shape: Rect::new(x, y, ROCKET_W, ROCKET_H),
            acceleration,
            velocity,
            up_force,
            left_force,
            right_force,
            weight,
            is_moving: false,
            fuel,
            is_flying: true,
        }
    }

    /// Adds `force` times the weight to the acceleration.
    pub fn apply_force(&mut self, force: &Vector2)
        requires
            old(self).can_apply(*force),
        ensures
            *final(self) == old(self).with_force(*force),
            final(self).acceleration.x == old(self).acceleration.x + force.x * old(self).weight,
            final(self).acceleration.y == old(self).acceleration.y + force.y * old(self).weight,
    {
        self.acceleration.x = self.acceleration.x + force.x * self.weight;
        self.acceleration.y = self.acceleration.y + force.y * self.weight;
    }

    /// One integration step; see [`Rocket::flown`].
    pub fn fly(&mut self)
        requires
            old(self).can_fly(),
        ensures
            *final(self) == old(self).flown(),
            final(self).velocity.x == old(self).velocity.x + old(self).acceleration.x,
            final(self).velocity.y == old(self).velocity.y + old(self).acceleration.y,
    {
        self.velocity.x = self.velocity.x + self.acceleration.x;
        self.velocity.y = self.velocity.y + self.acceleration.y;
        self.shape.x = self.velocity.x;
        self.shape.y = self.velocity.y;
        self.acceleration.x = 0;
    }

    /// Stops the rocket on the floor at `window_height` once its bottom edge
    /// reaches it; otherwise leaves it as it is.
    pub fn hit_ground(&mut self, window_height: i64)
        requires
            fits_i64(old(self).shape.y + old(self).shape.h),
            fits_i64(window_height - old(self).shape.h),
        ensures
            *final(self) == old(self).grounded(window_height),
            old(self).touches_floor(window_height) ==> {
                &&& final(self).velocity.y == 0
                &&& final(self).shape.y + final(self).shape.h == window_height
                &&& !final(self).is_flying
            },
    {
        if self.shape.y + self.shape.h >= window_height {
            self.velocity.y = 0;
            self.shape.y = window_height - self.shape.h;
            self.is_flying = false;
        }
    }

    /// Thrusts upward; see [`Rocket::thrust_up`].
    pub fn up(&mut self)
        requires
            old(self).can_thrust_up(),
        ensures
            *final(self) == old(self).thrust_up(),
    {
        let up_force = self.up_force;
        self.apply_force(&up_force);
        self.fuel = self.fuel + up_force.y * self.weight;
    }

    /// Thrusts downward; see [`Rocket::thrust_down`].
    pub fn down_movimentation(&mut self)
        requires
            old(self).can_thrust_down(),
        ensures
            *final(self) == old(self).thrust_down(),
    {
        let down_force = Vector2::new(0, MOVEMENT_FORCE);
        self.apply_force(&down_force);
        self.acceleration.y = self.acceleration.y - MOVEMENT_FORCE * WEIGHT_PER_UNIT;
    }

    /// Thrusts to the left; see [`Rocket::thrust_left`].
    pub fn left_movimentation(&mut self)
        requires
            old(self).can_thrust_left(),
        ensures
            *final(self) == old(self).thrust_left(),
    {
        let left_force = self.left_force;
        self.apply_force(&left_force);
        self.fuel = self.fuel + left_force.x * self.weight;
    }

    /// Thrusts to the right; see [`Rocket::thrust_right`].
    pub fn rigth_movimentation(&mut self)
        requires
            old(self).can_thrust_right(),
        ensures
            *final(self) == old(self).thrust_right(),
    {
        let right_force = self.right_force;
        self.apply_force(&right_force);
        self.fuel = self.fuel - right_force.x * self.weight;
    }

    /// Whether the rocket is in the landing zone of `platform`.
    pub fn is_running_into_platform(&self, platform: &Platform) -> (r: bool)
        requires
            self.can_check_platform(*platform),
        ensures
            r == self.on_platform(*platform),
    {
        self.shape.x >= platform.shape.x + platform.shape.w && self.shape.x - self.shape.w
            <= platform.shape.x + platform.shape.w + platform.shape.w && self.shape.y
            >= WINDOW_MIDDLE
    }

    /// Whether any fuel is left.
    pub fn has_fuel(&self) -> (r: bool)
        ensures
            r == (self.fuel > 0),
    {
        !(self.fuel <= 0)
    }

    /// Puts the rocket to rest `platform_h` above the floor.
    pub fn fall(&mut self, platform_h: i64)
        requires
            fits_i64(WINDOW_Y - old(self).shape.h),
            fits_i64(WINDOW_Y - old(self).shape.h - platform_h),
        ensures
            *final(self) == old(self).fallen(platform_h),
            final(self).shape.y == WINDOW_Y - old(self).shape.h - platform_h,
            !final(self).is_flying,
    {
        self.shape.y = WINDOW_Y - self.shape.h - platform_h;
        self.is_flying = false;
    }
}

} // verus!
