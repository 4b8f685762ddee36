//! Engine-independent rules of the Chase Me arcade game: the player steers
//! clear of enemies that chase it, and scores the strength of every enemy
//! that it outlives.
//!
//! Every real quantity is a signed integer counted in thousandths of its
//! unit: positions and speeds in thousandths of a pixel, masses and energies
//! in thousandths, times in milliseconds. Randomness comes from the `rand`
//! crate through the two functions of the `random` module; everything else
//! is verified against the contracts that the functions carry.

pub mod assets;
pub mod buttons;
pub mod collisions;
pub mod difficulty;
pub mod enemy;
pub mod events;
pub mod fixed;
pub mod level;
pub mod movement;
pub mod pig;
mod random;
pub mod resources;
pub mod screens;
pub mod spawn;
pub mod state;
pub mod summary;
pub mod timer;
pub mod views;
pub mod walls;
pub mod widgets;
pub mod window;
