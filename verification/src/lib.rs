//! A two-player snake game over the network, as a library.
//!
//! One process, the server, decides the match; every other process shows a
//! copy of it and sends its player's key presses. This crate holds what they
//! decide and compute, and proves it against contracts:
//!
//! - [`comms`]: frames on a byte stream, and the reassembly of frames from
//!   what a socket delivers piece by piece;
//! - [`game`]: the snakes, the match and its rules, and what follows from
//!   the rules;
//! - [`server`] and [`client`]: what either side makes of a message;
//! - [`ifc`]: the messages;
//! - [`names`]: the order of player names;
//! - [`common`]: positions, colours and dimensions;
//! - [`fsm`]: a small state machine over states that decide for themselves.
//!
//! Nothing in here opens a socket or a window. Whoever runs the game reads,
//! writes and draws, and hands plain values in and out.

pub mod client;
pub mod common;
pub mod comms;
pub mod fsm;
pub mod game;
pub mod ifc;
pub mod names;
pub mod server;
