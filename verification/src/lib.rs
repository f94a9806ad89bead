//! The discrete side of a brute-force gravitational N-body simulation:
//! initial conditions drawn on an integer grid, the validated run counts,
//! and the controller that walks a run from its first step to its end.

pub mod config;
pub mod driver;
pub mod fanout;
pub mod spawn;
