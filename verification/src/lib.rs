//! A client core for the Monstercat API: the sign-in protocol with its
//! two-factor continuations, the requests of each endpoint, and the types
//! that the service speaks in.
//!
//! The library performs no I/O. It says what to send and decides what follows
//! from what came back; a transport carries the requests out.

pub mod foreign;
pub mod text;
pub mod client;
pub mod mc;
