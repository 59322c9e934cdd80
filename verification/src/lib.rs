//! A two-player paddle-and-ball game, simulated frame by frame.
//!
//! The host calls [`update::update`] once per frame and [`input::event`] once
//! per press or release of a key, and draws what it finds in the
//! [`model::Model`] afterwards.
//!
//! Positions and velocities are fixed-point numbers ([`fixed::Fixed`]), so
//! every rule of the game is exact arithmetic on integers: what a frame or a
//! key does is stated over the integer view of the state, and [`laws`] holds
//! what follows for every state.

pub mod fixed;
pub mod vect;
pub mod geometry;
pub mod ball;
pub mod model;
pub mod update;
pub mod input;
pub mod laws;
