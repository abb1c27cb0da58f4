//! Core rules of a small "Moon Lander" arcade game.
//!
//! The lander is a single falling sprite. Two keys raise and lower an engine
//! thrust level in `[0, 9]`; gravity and thrust change the vertical velocity
//! on a fixed cadence; when the lander drops below a fixed boundary the game
//! resets to a fresh lander at the spawn height.
//!
//! All quantities here are exact fixed-point values in thousandths of a unit
//! (milli-units): gravity adds `0.100` to the velocity each physics step, each
//! engine level subtracts `0.020`, and the vertical position moves by twice
//! the velocity in pixels. Windowing, rendering, input polling and scheduling
//! are left to the surrounding application; this crate holds the state and
//! the update rules, each with a proved contract.

pub mod lander;
pub mod status;
