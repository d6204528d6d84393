//! Simulation core of a top-down survival driving game.
//!
//! A vehicle drives along a procedurally generated road while a growing
//! population of hostile agents pursues it; the run is won at the finish
//! line and lost when health runs out or the vehicle drives too far the
//! wrong way.  All continuous quantities (positions, speeds, health)
//! are held in fixed-point integers: one world unit is 1000 milli-units,
//! so an engine-facing layer can convert to and from floating point at
//! the boundary.
//!
//! The modules, leaf first: [`fixed`] holds the fixed-point arithmetic,
//! [`rng`] the seeded random source, [`tiles`] the road-tile index,
//! [`road`] the generator, [`physics`] the vehicle, [`progress`] the
//! progress tracker and camera policy, [`settings`] the run settings,
//! [`spawn`] the population policy, [`enemy`] and [`bullet`] the moving
//! agents, [`collision`] the contact resolution, and [`sim`] the
//! per-tick loop that binds them in a fixed order.

pub mod bullet;
pub mod collision;
pub mod enemy;
pub mod fixed;
pub mod physics;
pub mod progress;
pub mod rng;
pub mod road;
pub mod settings;
pub mod sim;
pub mod spawn;
pub mod tiles;
