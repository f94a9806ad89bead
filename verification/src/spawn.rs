//! Initial conditions: every body starts from five random draws on an
//! integer grid.

use rand::Rng;
use vstd::prelude::*;

verus! {

/// Number of distinct values a single draw can take: draws lie in `0..LEVELS`.
pub const LEVELS: i32 = 10;

/// What one body is created from: five grid draws.
///
/// The position is counted in tenths of the unit square's side, so it lies in
/// `[0, 1)` on both axes; mass and velocity are counted in whole units.
#[derive(Clone, Copy, Debug, PartialEq, Eq, Structural)]
pub struct Seed {
    pub x_tenths: i32,
    pub y_tenths: i32,
    pub mass: i32,
    pub velocity_x: i32,
    pub velocity_y: i32,
}

/// A single draw is on the grid when it lies in `0..LEVELS`.
pub open spec fn on_grid(draw: int) -> bool {
    0 <= draw < LEVELS
}

impl Seed {
    /// Every field is on the grid; in particular the mass is not negative.
    pub open spec fn wf(&self) -> bool {
        &&& on_grid(self.x_tenths as int)
        &&& on_grid(self.y_tenths as int)
        &&& on_grid(self.mass as int)
        &&& on_grid(self.velocity_x as int)
        &&& on_grid(self.velocity_y as int)
    }

    /// The seed made of five draws, in the order in which they are taken;
    /// `None` as soon as one of them is off the grid.
    pub fn from_draws(x_tenths: i32, y_tenths: i32, mass: i32, velocity_x: i32, velocity_y: i32) -> (seed: Option<Seed>)
        ensures
            seed.is_some() <==> on_grid(x_tenths as int) && on_grid(y_tenths as int) && on_grid(
                mass as int,
            ) && on_grid(velocity_x as int) && on_grid(velocity_y as int),
            seed.is_some() ==> seed.unwrap() == (Seed {
                x_tenths,
                y_tenths,
                mass,
                velocity_x,
                velocity_y,
            }),
    {
        if is_on_grid(x_tenths) && is_on_grid(y_tenths) && is_on_grid(mass) && is_on_grid(
            velocity_x,
        ) && is_on_grid(velocity_y) {
            Some(Seed { x_tenths, y_tenths, mass, velocity_x, velocity_y })
        } else {
            None
        }
    }
}

/// Whether a draw is on the grid.
pub fn is_on_grid(draw: i32) -> (yes: bool)
    ensures
        yes == on_grid(draw as int),
{
    0 <= draw && draw < LEVELS
}

/// One draw from `low..high` by `rand::Rng::gen_range`, on the generator that
/// `rand::thread_rng` hands out for the calling thread.
///
/// Trusted: the value lies in the half-open range. Nothing is claimed about
/// which value comes, so two calls with the same bounds may differ. An empty
/// range makes `gen_range` panic and is excluded. `thread_rng` itself panics
/// if the system cannot seed the generator, whatever the bounds are.
#[verifier::external_body]
fn draw_in(low: i32, high: i32) -> (value: i32)
    requires
        low < high,
    ensures
        low <= value < high,
{
    rand::thread_rng().gen_range(low..high)
}

/// `n` seeds, each from five fresh draws on the grid, taken in the order
/// `x_tenths`, `y_tenths`, `mass`, `velocity_x`, `velocity_y`.
///
/// With `n == 0` the result is empty. Which values are drawn is left to the
/// generator: only their range is promised.
pub fn spawn_data(n: usize) -> (seeds: Vec<Seed>)
    ensures
        seeds@.len() == n,
        forall|i: int| 0 <= i < n ==> (#[trigger] seeds@[i]).wf(),
{
    let mut seeds: Vec<Seed> = Vec::new();
    let mut made: usize = 0;
    while made < n
        invariant
            made <= n,
            seeds@.len() == made,
            forall|i: int| 0 <= i < made ==> (#[trigger] seeds@[i]).wf(),
        decreases n - made,
    {
        let x_tenths: i32 = draw_in(0, LEVELS);
        let y_tenths: i32 = draw_in(0, LEVELS);
        let mass: i32 = draw_in(0, LEVELS);
        let velocity_x: i32 = draw_in(0, LEVELS);
        let velocity_y: i32 = draw_in(0, LEVELS);
        let seed = Seed::from_draws(x_tenths, y_tenths, mass, velocity_x, velocity_y);
        seeds.push(seed.unwrap());
        made = made + 1;
    }
    seeds
}

} // verus!
