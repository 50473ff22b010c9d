//! Ray casting on a uniform grid: all that a first-person renderer decides
//! and paints in whole numbers.
//!
//! A ray caster casts one ray for every screen column, walks it through a
//! grid of cells until it strikes a wall, and paints the wall as a column of
//! a texture, the smaller and the foggier the farther away it is. The walk
//! runs on fractions, and fractions are the caller's business. This library
//! holds what is exact about it:
//!
//! - `rays`: which grid line a ray meets next, which cell a point on a ray
//!   belongs to, and the screen columns in their order;
//! - `map`: the world, the reading of its cells, and the small map that
//!   shows it from above;
//! - `textures`: texels, the names of textures, and the loaded textures;
//! - `paint`: what a picture holds after columns were painted into it;
//! - `camera`: the picture itself, painted column by column, and the memory
//!   of the pose that it was painted from;
//! - `player`: the keys that are held, and what the player does for them;
//! - `game`: the events, the pacing of the frames, and the options;
//! - `render_precedence`: the order of the layers of a frame.

pub mod camera;
pub mod game;
pub mod map;
pub mod paint;
pub mod player;
pub mod rays;
pub mod render_precedence;
pub mod textures;
