//! Core of a small multiplayer service: a transport-agnostic request
//! dispatch layer together with the plain utilities that surround it.
//!
//! Every function in this crate carries a contract that Verus proves.
//! Calls into other crates stand behind small trusted items, each of which
//! says in its documentation what is believed of the outside code.

pub mod assertions;
pub mod auth;
pub mod collections;
pub mod config;
pub mod function_composition;
pub mod game;
pub mod ids;
pub mod logger;
pub mod math;
pub mod methods;
pub mod random;
pub mod relay;
pub mod rpc;
pub mod time;
pub mod types;
