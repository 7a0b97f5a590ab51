//! Simulation core of a two-paddle ball game: fixed-timestep physics,
//! axis-aligned collision, scoring, and a rule-based opponent controller.
//!
//! All geometry lives in a fixed-point plane: one world unit is `MILLI`
//! (1000) fixed-point steps, so every position, size and direction is an
//! integer number of thousandths of a unit.  Directions are unit vectors up
//! to fixed-point rounding; speeds are whole units per tick.  The embedder
//! supplies wall-clock time in nanoseconds and discrete input events; the
//! core owns everything else.

pub mod game;
pub mod laws;
pub mod quad;
pub mod vec2;

pub use game::Entity;
pub use game::GameState;
pub use game::InputEvent;
pub use quad::Quad;
pub use vec2::Vec2;
pub use vec2::Vec2i;
