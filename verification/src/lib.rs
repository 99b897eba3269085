//! Core simulation logic for an Asteroids-style arcade game.
//!
//! A ship maneuvers under ramped thrust on a toroidal play-field, fires
//! projectiles, and destroys meteors that split into smaller children
//! until a deepest level is reached; a data-driven director sequences
//! which bodies each wave brings. Every quantity the gameplay rules touch
//! is carried in fixed-point integers: one unit of world space, speed or
//! mass is 1000 milli steps, headings are milli-degrees, durations are
//! milliseconds. The shell around the library converts to and from
//! whatever engine it drives, does the floating-point trigonometry, and
//! performs all input and output.

pub mod boundary;
pub mod collision;
pub mod components;
pub mod geometry;
pub mod kinematics;
pub mod meteor;
pub mod num;
pub mod player;
pub mod rng;
pub mod timers;
pub mod wave;
