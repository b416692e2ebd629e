//! A small 2D platformer simulation on fixed-point integers: one actor under
//! gravity and keyboard intent, resolved against static square obstacles.
pub mod units;
pub mod geometry;
pub mod input;
pub mod world;
pub mod collision;
pub mod motion;
