//! Verified core of an SSH lobby that lets users pick a terminal game and
//! bridges their session to it.
use vstd::prelude::*;

pub mod bridge;
pub mod channel;
pub mod client;
pub mod config;
pub mod converter;
pub mod credential;
pub mod idle;
pub mod input;
pub mod keys;
pub mod loading;
pub mod lobby;
pub mod preview;
pub mod session;
pub mod text;
pub mod ui;
pub mod writer;

verus! {

} // verus!
