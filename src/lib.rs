//! The engine of a falling-rectangle game: a seeded generator of uniform
//! fractions, the rectangle's spawn and descent rules, the hit test, the score
//! and miss counters, the binding of the start/stop control, and the controller
//! that drives them through ticks, clicks and toggles.

pub mod binding;
pub mod controller;
pub mod game_state;
pub mod laws;
pub mod random;
pub mod rectangle;
