//! An animated ASCII aquarium: a bordered tank of fish that wander with
//! stochastic, semi-smooth trajectories and bounce off the walls.
//!
//! The library holds the whole simulation and rendering logic: the per-tick
//! velocity/position update of each fish, the spawn procedure, and the
//! rasterization of a frame into character rows (borders, fish glyphs and
//! their ANSI color escapes). The driver around it only queries the terminal
//! size, draws the floating-point direction-change gate, prints the rows and
//! sleeps between frames.

pub mod fish;
pub mod render;
pub mod rng;
pub mod sim;

pub use fish::Fish;
pub use fish::MovVec;
pub use fish::Point;
pub use render::calculate_aquarium;
pub use render::render_frame;
pub use rng::draw_roll;
pub use sim::advance_clock;
pub use sim::calculate_movement;
pub use sim::calculate_speed;
pub use sim::move_fish;
pub use sim::spawn_fish;
