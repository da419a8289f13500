//! A peer-to-peer chat node: the decisions of its run loops, its set-once
//! host bridge, and the parsing of the bootstrap peer it dials first.

pub mod peer;
pub mod command;
pub mod text;
pub mod handlers;
pub mod node;
pub mod bridge;
pub mod bootstrap;
