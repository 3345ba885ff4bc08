//! Shared state and rules of a live music-guessing game.
//!
//! One admin steers the game, one buzzer per team races to answer and any
//! number of spectators watch. All of them observe a single [`session::Game`].
//! This crate holds the part that can be reasoned about on its own: the
//! session state, the phase state machine, the three role projections and the
//! decisions each connection handler takes. Waiting on sockets, on the
//! notification bus and on the music provider is left to the caller, which
//! feeds what happened into the functions here and performs what they answer.

pub mod game;
pub mod track;
pub mod message;
pub mod session;
pub mod machine;
pub mod projection;
pub mod laws;
pub mod provider;
pub mod names;
pub mod bus;
pub mod admin;
pub mod buzzer;
pub mod spectator;
pub mod links;
