//! The lander's state and the per-frame update rules: input handling, the
//! fixed-cadence physics step, and the reset that follows a boundary event.

use vstd::prelude::*;

verus! {

/// Gravity added to the velocity each physics step, in milli-units.
pub const GRAVITY_MILLI: i64 = 100;

/// Thrust subtracted from the velocity each physics step, per engine level,
/// in milli-units.
pub const ENGINE_FACTOR_MILLI: i64 = 20;

/// Pixels moved per unit of velocity in one physics step.
pub const PIXEL_PER_VELOCITY: i64 = 2;

/// Highest engine level the input handler will reach.
pub const MAX_ENGINE_LEVEL: u8 = 9;

/// Vertical position below which a boundary event fires, in milli-pixels.
pub const BOUNDARY_Y_MILLI: i64 = -250000;

/// Vertical position of a freshly spawned lander, in milli-pixels.
pub const SPAWN_Y_MILLI: i64 = 200000;

/// The single lander: engine thrust level and vertical velocity
/// (milli-units per physics step).
pub struct Lander {
    pub engine: u8,
    pub velocity_milli: i64,
}

impl Lander {
    /// The one invariant of the state: the engine level stays in `[0, 9]`.
    pub open spec fn wf(self) -> bool {
        self.engine <= MAX_ENGINE_LEVEL
    }
}

/// A fresh lander and its spawn position: engine off, at rest, at the spawn
/// height.
pub fn spawn_lander() -> (r: (Lander, i64))
    ensures
        r.0.engine == 0,
        r.0.velocity_milli == 0,
        r.1 == SPAWN_Y_MILLI,
        r.0.wf(),
{
    (
        Lander { engine: 0, velocity_milli: 0 },
        SPAWN_Y_MILLI,
    )
}

/// The engine level after one frame of input: "up" raises it by one when it
/// is below the maximum, then "down" lowers it by one when it is above zero.
/// Both keys use held semantics, so each frame applies at most one step in
/// each direction.
pub open spec fn engine_after_input(engine: u8, up_pressed: bool, down_pressed: bool) -> u8 {
    let raised: u8 = if up_pressed && engine < MAX_ENGINE_LEVEL {
        (engine + 1) as u8
    } else {
        engine
    };
    if down_pressed && raised > 0 {
        (raised - 1) as u8
    } else {
        raised
    }
}

/// The velocity after one physics step: gravity pulls, each engine level
/// thrusts against it (all in milli-units).
pub open spec fn velocity_after_step(velocity_milli: int, engine: int) -> int {
    velocity_milli + GRAVITY_MILLI - engine * ENGINE_FACTOR_MILLI
}

/// The vertical position after one physics step: the new velocity moves the
/// lander down by `PIXEL_PER_VELOCITY` pixels per velocity unit.
pub open spec fn y_after_step(y_milli: int, new_velocity_milli: int) -> int {
    y_milli - new_velocity_milli * PIXEL_PER_VELOCITY
}

/// One frame of the input handler: adjusts the engine level from the two
/// held keys and touches nothing else.
pub fn lander_input(lander: &mut Lander, up_pressed: bool, down_pressed: bool)
    requires
        old(lander).wf(),
    ensures
        final(lander).engine == engine_after_input(old(lander).engine, up_pressed, down_pressed),
        final(lander).velocity_milli == old(lander).velocity_milli,
        final(lander).wf(),
{
    if up_pressed {
        if lander.engine < MAX_ENGINE_LEVEL {
            lander.engine = lander.engine + 1;
        }
    }
    if down_pressed {
        if lander.engine > 0 {
            lander.engine = lander.engine - 1;
        }
    }
}

/// One physics step: the new velocity is the old one plus gravity minus the
/// engine's thrust; the position drops by the new velocity times the pixel
/// scale; the result says whether the lander crossed the lower boundary.
///
/// The two `requires` only keep the new velocity and position inside `i64`.
pub fn lander_movement(lander: &mut Lander, y_milli: &mut i64) -> (boundary_event: bool)
    requires
        old(lander).wf(),
        i64::MIN <= velocity_after_step(
            old(lander).velocity_milli as int,
            old(lander).engine as int,
        ) <= i64::MAX,
        i64::MIN <= y_after_step(
            *old(y_milli) as int,
            velocity_after_step(old(lander).velocity_milli as int, old(lander).engine as int),
        ) <= i64::MAX,
    ensures
        final(lander).engine == old(lander).engine,
        final(lander).velocity_milli as int == velocity_after_step(
            old(lander).velocity_milli as int,
            old(lander).engine as int,
        ),
        *final(y_milli) as int == y_after_step(
            *old(y_milli) as int,
            final(lander).velocity_milli as int,
        ),
        boundary_event <==> *final(y_milli) < BOUNDARY_Y_MILLI,
        final(lander).wf(),
{
    let acceleration_milli: i64 = GRAVITY_MILLI - (lander.engine as i64) * ENGINE_FACTOR_MILLI;
    lander.velocity_milli = lander.velocity_milli + acceleration_milli;
    let drop_milli: i128 = (lander.velocity_milli as i128) * (PIXEL_PER_VELOCITY as i128);
    *y_milli = ((*y_milli as i128) - drop_milli) as i64;
    *y_milli < BOUNDARY_Y_MILLI
}

/// One frame of the reset handler: a boundary event replaces the lander and
/// its position with a freshly spawned one; no event leaves both unchanged.
pub fn game_over(lander: &mut Lander, y_milli: &mut i64, boundary_event: bool)
    ensures
        boundary_event ==> final(lander).engine == 0 && final(lander).velocity_milli == 0
            && *final(y_milli) == SPAWN_Y_MILLI,
        !boundary_event ==> *final(lander) == *old(lander) && *final(y_milli) == *old(y_milli),
        boundary_event ==> final(lander).wf(),
{
    if boundary_event {
        let (fresh, spawn_y) = spawn_lander();
        *lander = fresh;
        *y_milli = spawn_y;
    }
}

/// The velocity after `n` physics steps at a constant engine level, starting
/// from `velocity_milli`.
pub open spec fn velocity_after_steps(velocity_milli: int, engine: int, n: nat) -> int
    decreases n,
{
    if n == 0 {
        velocity_milli
    } else {
        velocity_after_step(velocity_after_steps(velocity_milli, engine, (n - 1) as nat), engine)
    }
}

/// With the engine off, gravity is the only term: after `n` physics steps the
/// velocity has grown by exactly `n * GRAVITY_MILLI`.
pub proof fn lemma_velocity_accumulates_engine_off(velocity_milli: int, n: nat)
    ensures
        velocity_after_steps(velocity_milli, 0, n) == velocity_milli + n * GRAVITY_MILLI,
    decreases n,
{
    if n > 0 {
        lemma_velocity_accumulates_engine_off(velocity_milli, (n - 1) as nat);
    }
}

/// The vertical position after `n` physics steps at a constant engine level,
/// starting from position `y_milli` and velocity `velocity_milli`.
pub open spec fn y_after_steps(y_milli: int, velocity_milli: int, engine: int, n: nat) -> int
    decreases n,
{
    if n == 0 {
        y_milli
    } else {
        y_after_step(
            y_after_steps(y_milli, velocity_milli, engine, (n - 1) as nat),
            velocity_after_steps(velocity_milli, engine, n),
        )
    }
}

/// Falling from rest with the engine off, the velocities form an arithmetic
/// series: after `n` physics steps the position is lower by exactly
/// `GRAVITY_MILLI * n * (n + 1)` milli-pixels.
pub proof fn lemma_fall_from_rest_engine_off(y_milli: int, n: nat)
    ensures
        y_after_steps(y_milli, 0, 0, n) == y_milli - GRAVITY_MILLI * n * (n + 1),
    decreases n,
{
    if n > 0 {
        lemma_fall_from_rest_engine_off(y_milli, (n - 1) as nat);
        lemma_velocity_accumulates_engine_off(0, n);
        assert(100 * (n - 1) * (n as int) + (n as int) * 100 * 2 == 100 * (n as int) * (n + 1))
            by (nonlinear_arith);
    }
}

/// Pressing only "up" for one frame yields `min(engine + 1, 9)`: the level
/// climbs by one and clamps at the maximum.
pub proof fn lemma_input_up_clamps(engine: u8)
    requires
        engine <= MAX_ENGINE_LEVEL,
    ensures
        engine_after_input(engine, true, false) as int == vstd::math::min(
            engine as int + 1,
            MAX_ENGINE_LEVEL as int,
        ),
{
}

/// Pressing only "down" for one frame yields `max(engine - 1, 0)`: the level
/// drops by one and clamps at zero.
pub proof fn lemma_input_down_clamps(engine: u8)
    requires
        engine <= MAX_ENGINE_LEVEL,
    ensures
        engine_after_input(engine, false, true) as int == vstd::math::max(engine as int - 1, 0),
{
}

} // verus!
