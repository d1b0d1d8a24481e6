//! A verified FTP client protocol engine.
//!
//! The engine interprets server reply lines, resolves passive-mode data
//! connection addresses, formats command lines, and sequences transfer
//! operations as a state machine over plain values; a thin unverified
//! shell performs the socket and terminal work and feeds events back in.

pub mod browse;
pub mod laws;
pub mod passive;
pub mod reply;
pub mod session;
pub mod text;
pub mod transfer;
