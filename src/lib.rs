//! Portable tickets for sharing one file between peers, and the state
//! machines that drive a send slot and a receive session.

pub mod outside;
pub mod session;
pub mod ticket;
