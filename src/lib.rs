//! A small episodic reinforcement-learning sandbox: a grid-world game, a
//! tabular Q-learning agent, the bookkeeping of an experience-replay agent,
//! and a runner that advances training one step at a time.
pub mod action;
pub mod game;
pub mod network;
pub mod qtable;
pub mod replay;
pub mod single_layer;
pub mod spatium;
mod rng;

pub use action::Action;
pub use network::{IntoModelParameters, ModelParameters};
