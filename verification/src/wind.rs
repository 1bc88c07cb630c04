//! The wind model: a single horizontal acceleration, redrawn on demand.

use vstd::prelude::*;
use crate::physics::{GlobalWorldAcceleration, Vec2i};
use crate::rng::next_random_u32;

verus! {

/// The current wind: a horizontal acceleration plus the raw length of the
/// on-screen indicator arrow that presents it.
#[derive(Clone, Copy, Debug, PartialEq, Eq, Structural)]
pub struct Wind {
    /// Wind strength in whole pixels per second squared, in [-20, 20).
    pub wind_px: i64,
    /// The same strength as a world acceleration, milli-pixels/s^2.
    pub accel: GlobalWorldAcceleration,
    /// Raw signed length of the indicator arrow, ten pixels per unit.
    pub indicator_length: i64,
}

impl Wind {
    /// Every wind value the model can hold: strength within the documented
    /// range and the derived fields in exact proportion.
    pub open spec fn wf(self) -> bool {
        &&& -20 <= self.wind_px < 20
        &&& self.accel.0.x == self.wind_px * 1000
        &&& self.accel.0.y == 0
        &&& self.indicator_length == self.wind_px * 10
    }
}

/// The wind a 32-bit draw determines: the draw wrapped modulo 40 and
/// shifted into [-20, 20) pixels/s^2, with the acceleration and the
/// indicator length in exact proportion.
pub fn wind_from_draw(draw: u32) -> (w: Wind)
    ensures
        w.wind_px == draw as int % 40 - 20,
        w.wf(),
{
    let wind_px: i64 = (draw % 40) as i64 - 20;
    Wind {
        wind_px,
        accel: GlobalWorldAcceleration(Vec2i { x: wind_px * 1000, y: 0 }),
        indicator_length: wind_px * 10,
    }
}

/// Draws a fresh wind strength uniformly from [-20, 20) pixels/s^2 and
/// packages it with its acceleration and indicator length: exactly the
/// wind that `wind_from_draw` assigns to the drawn value.
pub fn spawn_wind_wth_accel(rng: &mut rand::rngs::ThreadRng) -> (w: Wind)
    ensures
        w.wf(),
{
    let draw: u32 = next_random_u32(rng);
    wind_from_draw(draw)
}

/// The wind present when the arena is first built.
pub fn setup_wind(rng: &mut rand::rngs::ThreadRng) -> (w: Wind)
    ensures
        w.wf(),
{
    spawn_wind_wth_accel(rng)
}

/// Replaces the current wind with a freshly drawn one; the new value reaches
/// the physics step from the next tick onward.
pub fn wind_changer(rng: &mut rand::rngs::ThreadRng) -> (w: Wind)
    ensures
        w.wf(),
{
    spawn_wind_wth_accel(rng)
}

} // verus!
