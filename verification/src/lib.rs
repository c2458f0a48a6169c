//! Simulation core of a top-down action game: raw input state is resolved
//! into a per-tick intent (movement direction, fire flag, mouse-grab toggle),
//! the intent drives player movement and projectile spawning, and a
//! time-gated spawner sends enemies in pursuit of the player.
//!
//! All world coordinates and velocities are fixed-point integers counting
//! thousandths of a distance unit (see [`vec2::MILLI`]); times are integer
//! milliseconds. Rendering, audio playback and window handling are outside
//! collaborators: they read the positions this crate computes and feed back
//! plain values (key states, pointer position, elapsed time).

pub mod actions;
pub mod audio;
pub mod bullet;
pub mod input;
pub mod player;
pub mod seq_facts;
pub mod vec2;
pub mod world;
pub mod zombie;
