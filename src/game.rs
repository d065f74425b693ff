//! The per-frame state machine that drives the rocket.
use vstd::prelude::*;

use crate::decimal::{parse_steps, parses, signed_steps};
use crate::geometry::{Rect, Vector2, FORCE_PLACES, FUEL_PLACES, WEIGHT_PLACES};
use crate::rocket::{
    Platform, Rocket, MOVEMENT_FORCE, PLATFORM_H, PLATFORM_W, PLATFORM_X, ROCKET_H, ROCKET_W, WINDOW_BOTTOM, WINDOW_Y,
};

verus! {

/// Largest magnitude of a weight or a gravity component (2^30) for which
/// the simulation promises to stay within `i64` for a step.
pub const FORCE_LIMIT: i64 = 1_073_741_824;

/// Largest magnitude of a position, velocity, acceleration, fuel amount or
/// platform coordinate (2^60) for which a step stays within `i64`.
pub const VALUE_LIMIT: i64 = 1_152_921_504_606_846_976;

/// Whether the game is still running. Once over it stays over.
#[derive(Clone, Copy, PartialEq, Eq, Debug, Structural)]
pub enum GameState {
    Playing,
    GameOver,
}

/// Why a game could not be set up from its startup parameters.
#[derive(Clone, Copy, PartialEq, Eq, Debug, Structural)]
pub enum StartError {
    InvalidWeight,
    InvalidFuel,
    InvalidGravity,
    /// The parameters read as numbers, but too large for a step to stay
    /// within `i64`.
    OutOfRange,
}

/// One frame's snapshot of the directional keys: which are held and which
/// were just released. Keys are independent: several may act in one frame.
#[derive(Clone, Copy, PartialEq, Eq, Debug, Structural)]
pub struct KeyInput {
    pub up: bool,
    pub down: bool,
    pub left: bool,
    pub right: bool,
    pub up_released: bool,
    pub left_released: bool,
    pub right_released: bool,
}

/// The whole game: the rocket, the platform, the gravity acting now, and
/// whether play goes on.
#[derive(Clone, Copy, PartialEq, Eq, Debug, Structural)]
pub struct MyGame {
    pub rocket: Rocket,
    pub gravity: Vector2,
    pub platform: Platform,
    pub game_state: GameState,
}

/// Whether `v` lies within `limit` of zero.
pub open spec fn bounded(v: int, limit: int) -> bool {
    -limit <= v <= limit
}

impl MyGame {
    /// The rocket is well formed and every quantity is small enough that a
    /// step cannot leave `i64`.
    pub open spec fn in_range(self) -> bool {
        let r = self.rocket;
        let p = self.platform.shape;
        &&& r.wf()
        &&& bounded(r.weight as int, FORCE_LIMIT as int)
        &&& bounded(self.gravity.x as int, FORCE_LIMIT as int)
        &&& bounded(self.gravity.y as int, FORCE_LIMIT as int)
        &&& bounded(r.acceleration.x as int, VALUE_LIMIT as int)
        &&& bounded(r.acceleration.y as int, VALUE_LIMIT as int)
        &&& bounded(r.velocity.x as int, VALUE_LIMIT as int)
        &&& bounded(r.velocity.y as int, VALUE_LIMIT as int)
        &&& bounded(r.shape.x as int, VALUE_LIMIT as int)
        &&& bounded(r.shape.y as int, VALUE_LIMIT as int)
        &&& bounded(r.fuel as int, VALUE_LIMIT as int)
        &&& bounded(p.x as int, VALUE_LIMIT as int)
        &&& bounded(p.y as int, VALUE_LIMIT as int)
        &&& bounded(p.w as int, VALUE_LIMIT as int)
        &&& bounded(p.h as int, VALUE_LIMIT as int)
    }

    /// The standard opening; see [`MyGame::start`].
    pub open spec fn opening(weight: i64, fuel: i64, gravity: i64) -> MyGame {
        MyGame {
            rocket: Rocket {
                shape: Rect { x: 0, y: 0, w: ROCKET_W, h: ROCKET_H },
                acceleration: Vector2 { x: 0, y: 0 },
                velocity: Vector2 { x: 0, y: 0 },
                up_force: Vector2 { x: 0, y: -MOVEMENT_FORCE as i64 },
                left_force: Vector2 { x: -MOVEMENT_FORCE as i64, y: 0 },
                right_force: Vector2 { x: MOVEMENT_FORCE, y: 0 },
                weight,
                is_moving: false,
                fuel,
                is_flying: true,
            },
            gravity: Vector2 { x: 0, y: gravity },
            platform: Platform {
                shape: Rect { x: PLATFORM_X, y: WINDOW_BOTTOM, w: PLATFORM_W, h: PLATFORM_H },
            },
            game_state: GameState::Playing,
        }
    }

    /// The game ended: gravity switched off, the rocket put to rest
    /// `platform_h` above the floor.
    pub open spec fn ended(self, platform_h: i64) -> MyGame {
        MyGame {
            gravity: Vector2 { x: 0, y: 0 },
            rocket: self.rocket.fallen(platform_h),
            game_state: GameState::GameOver,
            ..self
        }
    }

    /// The first part of a step. A flying rocket feels gravity, pays its
    /// passive fuel cost, flies and meets the floor; a resting one ends the
    /// game, on the platform if it is in the landing zone, else on the floor.
    pub open spec fn after_motion(self) -> MyGame {
        if self.rocket.is_flying {
            let pulled = self.rocket.with_force(self.gravity);
            let paid = Rocket {
                fuel: (pulled.fuel - self.gravity.y * pulled.weight) as i64,
                ..pulled
            };
            MyGame { rocket: paid.flown().grounded(WINDOW_Y), ..self }
        } else if self.rocket.on_platform(self.platform) {
            self.ended(self.platform.shape.h)
        } else {
            self.ended(0)
        }
    }

    /// The second part: out of fuel and not in the landing zone ends the game
    /// on the floor.
    pub open spec fn after_fuel_check(self) -> MyGame {
        if !(self.rocket.fuel > 0) && !self.rocket.on_platform(self.platform) {
            self.ended(0)
        } else {
            self
        }
    }

    /// The last part: a released key stops steering, each held key thrusts in
    /// its direction and steers, in the order up, left, right, down.
    pub open spec fn after_input(self, input: KeyInput) -> MyGame {
        let r0 = self.rocket;
        let r1 = if input.up_released || input.right_released || input.left_released {
            Rocket { is_moving: false, ..r0 }
        } else {
            r0
        };
        let r2 = if input.up {
            Rocket { is_moving: true, ..r1 }.thrust_up()
        } else {
            r1
        };
        let r3 = if input.left {
            Rocket { is_moving: true, ..r2 }.thrust_left()
        } else {
            r2
        };
        let r4 = if input.right {
            Rocket { is_moving: true, ..r3 }.thrust_right()
        } else {
            r3
        };
        let r5 = if input.down {
            Rocket { is_moving: true, ..r4 }.thrust_down()
        } else {
            r4
        };
        MyGame { rocket: r5, ..self }
    }

    /// The game after one frame with `input`. Nothing happens once it is over.
    pub open spec fn stepped(self, input: KeyInput) -> MyGame {
        match self.game_state {
            GameState::Playing => self.after_motion().after_fuel_check().after_input(input),
            GameState::GameOver => self,
        }
    }
}

proof fn lemma_mul_bound(a: int, b: int)
    requires
        bounded(a, FORCE_LIMIT as int),
        bounded(b, FORCE_LIMIT as int),
    ensures
        bounded(a * b, VALUE_LIMIT as int),
{
    assert(-1_152_921_504_606_846_976 <= a * b <= 1_152_921_504_606_846_976) by (nonlinear_arith)
        requires
            -1_073_741_824 <= a <= 1_073_741_824,
            -1_073_741_824 <= b <= 1_073_741_824,
    ;
}

fn within(v: i64, limit: i64) -> (r: bool)
    requires
        limit >= 0,
    ensures
        r == bounded(v as int, limit as int),
{
    -limit <= v && v <= limit
}

impl MyGame {
    /// A game about to start: playing, with the given rocket, gravity and
    /// platform.
    pub fn new(rocket: Rocket, gravity: Vector2, platform: Platform) -> (r: MyGame)
        ensures
            r == (MyGame { rocket, gravity, platform, game_state: GameState::Playing }),
    {
        MyGame { rocket, gravity, platform, game_state: GameState::Playing }
    }

    /// Sets up the standard opening from startup parameters written as
    /// decimals: a weight, an amount of fuel and a gravity, in world units.
    /// The first parameter that does not read as a number gives its error;
    /// values too large for a step give `OutOfRange`.
    pub fn from_settings(weight: &[u8], fuel: &[u8], gravity: &[u8]) -> (r: Result<
        MyGame,
        StartError,
    >)
        ensures
            !parses(weight@, WEIGHT_PLACES as nat) ==> r == Err::<MyGame, StartError>(
                StartError::InvalidWeight,
            ),
            parses(weight@, WEIGHT_PLACES as nat) && !parses(fuel@, FUEL_PLACES as nat) ==> r
                == Err::<MyGame, StartError>(StartError::InvalidFuel),
            parses(weight@, WEIGHT_PLACES as nat) && parses(fuel@, FUEL_PLACES as nat) && !parses(
                gravity@,
                FORCE_PLACES as nat,
            ) ==> r == Err::<MyGame, StartError>(StartError::InvalidGravity),
            parses(weight@, WEIGHT_PLACES as nat) && parses(fuel@, FUEL_PLACES as nat) && parses(
                gravity@,
                FORCE_PLACES as nat,
            ) ==> {
                let g = MyGame::opening(
                    signed_steps(weight@, WEIGHT_PLACES as nat) as i64,
                    signed_steps(fuel@, FUEL_PLACES as nat) as i64,
                    signed_steps(gravity@, FORCE_PLACES as nat) as i64,
                );
                &&& g.in_range() ==> r == Ok::<MyGame, StartError>(g)
                &&& !g.in_range() ==> r == Err::<MyGame, StartError>(StartError::OutOfRange)
            },
    {
        let w = match parse_steps(weight, WEIGHT_PLACES) {
            Some(v) => v,
            None => return Err(StartError::InvalidWeight),
        };
        let f = match parse_steps(fuel, FUEL_PLACES) {
            Some(v) => v,
            None => return Err(StartError::InvalidFuel),
        };
        let g = match parse_steps(gravity, FORCE_PLACES) {
            Some(v) => v,
            None => return Err(StartError::InvalidGravity),
        };
        let game = MyGame::start(w, f, g);
        if game.within_limits() {
            Ok(game)
        } else {
            Err(StartError::OutOfRange)
        }
    }

    /// The standard opening: a rocket of the given weight and fuel at the
    /// origin, the platform at (160, 390) sized 100 by 30 world units, and
    /// gravity pulling straight down with strength `gravity`.
    pub fn start(weight: i64, fuel: i64, gravity: i64) -> (r: MyGame)
        ensures
            r == MyGame::opening(weight, fuel, gravity),
            r.rocket.wf(),
    {
        let rocket = Rocket::new(0, 0, weight, fuel);
        let platform = Platform::new(PLATFORM_X, WINDOW_BOTTOM, PLATFORM_W, PLATFORM_H);
        MyGame::new(rocket, Vector2::new(0, gravity), platform)
    }

    /// Whether [`MyGame::update`] may be called: see [`MyGame::in_range`].
    pub fn within_limits(&self) -> (r: bool)
        ensures
            r == self.in_range(),
    {
        let r = &self.rocket;
        let p = &self.platform.shape;
        r.shape.w == ROCKET_W && r.shape.h == ROCKET_H && r.up_force.x == 0 && r.up_force.y
            == -MOVEMENT_FORCE && r.left_force.x == -MOVEMENT_FORCE && r.left_force.y == 0
            && r.right_force.x == MOVEMENT_FORCE && r.right_force.y == 0
            && within(r.weight, FORCE_LIMIT) && within(self.gravity.x, FORCE_LIMIT)
            && within(self.gravity.y, FORCE_LIMIT) && within(r.acceleration.x, VALUE_LIMIT)
            && within(r.acceleration.y, VALUE_LIMIT) && within(r.velocity.x, VALUE_LIMIT)
            && within(r.velocity.y, VALUE_LIMIT) && within(r.shape.x, VALUE_LIMIT) && within(
            r.shape.y,
            VALUE_LIMIT,
        ) && within(r.fuel, VALUE_LIMIT) && within(p.x, VALUE_LIMIT) && within(p.y, VALUE_LIMIT)
            && within(p.w, VALUE_LIMIT) && within(p.h, VALUE_LIMIT)
    }

    /// Bounds that hold after the motion part of a step and keep the rest of
    /// the step within `i64`; `n` counts the thrusts applied so far.
    spec fn settled(self, n: int) -> bool {
        let r = self.rocket;
        let p = self.platform.shape;
        let lim = 2_305_843_009_213_693_952 + n * 34_359_738_368;
        &&& r.wf()
        &&& bounded(r.weight as int, FORCE_LIMIT as int)
        &&& bounded(r.acceleration.x as int, lim)
        &&& bounded(r.acceleration.y as int, lim)
        &&& bounded(r.fuel as int, lim)
        &&& bounded(r.shape.x as int, 4_611_686_018_427_387_904)
        &&& bounded(r.shape.y as int, 4_611_686_018_427_387_904)
        &&& bounded(p.x as int, VALUE_LIMIT as int)
        &&& bounded(p.w as int, VALUE_LIMIT as int)
        &&& bounded(p.h as int, VALUE_LIMIT as int)
    }

    fn advance(&mut self)
        requires
            old(self).in_range(),
            old(self).game_state == GameState::Playing,
        ensures
            *final(self) == old(self).after_motion(),
            final(self).settled(0),
    {
        proof {
            lemma_mul_bound(self.gravity.x as int, self.rocket.weight as int);
            lemma_mul_bound(self.gravity.y as int, self.rocket.weight as int);
        }
        if self.rocket.is_flying {
            let gravity = self.gravity;
            self.rocket.apply_force(&gravity);
            self.rocket.fuel = self.rocket.fuel - gravity.y * self.rocket.weight;
            self.rocket.fly();
            self.rocket.hit_ground(WINDOW_Y);
        } else if self.rocket.is_running_into_platform(&self.platform) {
            self.gravity = Vector2::new(0, 0);
            let platform_h = self.platform.shape.h;
            self.rocket.fall(platform_h);
            self.game_state = GameState::GameOver;
        } else {
            self.gravity = Vector2::new(0, 0);
            self.rocket.fall(0);
            self.game_state = GameState::GameOver;
        }
    }

    fn check_fuel(&mut self)
        requires
            old(self).settled(0),
        ensures
            *final(self) == old(self).after_fuel_check(),
            final(self).settled(0),
    {
        if !self.rocket.has_fuel() && !self.rocket.is_running_into_platform(&self.platform) {
            self.gravity = Vector2::new(0, 0);
            self.rocket.fall(0);
            self.game_state = GameState::GameOver;
        }
    }

    fn steer(&mut self, input: &KeyInput)
        requires
            old(self).settled(0),
        ensures
            *final(self) == old(self).after_input(*input),
    {
        let w = self.rocket.weight;
        proof {
            assert(-34_359_738_368 <= MOVEMENT_FORCE * w <= 34_359_738_368);
            assert(self.rocket.up_force.y * w == -MOVEMENT_FORCE * w);
            assert(self.rocket.left_force.x * w == -MOVEMENT_FORCE * w);
            assert(self.rocket.right_force.x * w == MOVEMENT_FORCE * w);
            assert(self.rocket.up_force.x * w == 0);
            assert(self.rocket.left_force.y * w == 0);
            assert(self.rocket.right_force.y * w == 0);
        }
        if input.up_released || input.right_released || input.left_released {
            self.rocket.is_moving = false;
        }
        if input.up {
            self.rocket.is_moving = true;
            self.rocket.up();
        }
        assert(self.settled(1));
        if input.left {
            self.rocket.is_moving = true;
            self.rocket.left_movimentation();
        }
        assert(self.settled(2));
        if input.right {
            self.rocket.is_moving = true;
            self.rocket.rigth_movimentation();
        }
        assert(self.settled(3));
        if input.down {
            self.rocket.is_moving = true;
            self.rocket.down_movimentation();
        }
    }

    /// Runs one frame with `input`; see [`MyGame::stepped`].
    pub fn update(&mut self, input: &KeyInput)
        requires
            old(self).in_range(),
        ensures
            *final(self) == old(self).stepped(*input),
            old(self).game_state == GameState::GameOver ==> *final(self) == *old(self),
            old(self).game_state == GameState::Playing && !old(self).rocket.is_flying
                ==> final(self).game_state == GameState::GameOver,
            old(self).game_state == GameState::Playing && final(self).game_state
                == GameState::GameOver ==> final(self).gravity == (Vector2 { x: 0, y: 0 }),
    {
        match self.game_state {
            GameState::Playing => {
                self.advance();
                self.check_fuel();
                self.steer(input);
            },
            GameState::GameOver => {},
        }
    }
}

} // verus!
