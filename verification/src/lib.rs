//! Order book viewer: the verified core.
//!
//! The library holds what the viewer computes: the request that each market
//! source needs, the order book built from each reply, the frame that a render
//! draws, and the decisions of the refresh loop. Network, terminal and clock
//! stay with the program around it.

pub mod text;
pub mod data;
pub mod display;
pub mod session;
pub mod args;
