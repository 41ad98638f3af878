//! A gateway session for an automated responder, as decisions on plain
//! values: what a received frame does to the session and which frames go
//! out, when heartbeats are due, how a lost connection is taken up again,
//! which descriptors answer a message and what each of them does step by
//! step, who waits for which update and until when, and which command the
//! scheduler sends on a tick.
//!
//! Nothing here touches a socket, a clock or the network. The caller hands
//! in what it received and the time, and performs what it is told.

pub mod commands;
pub mod correlator;
pub mod gateway;
pub mod message;
pub mod model;
pub mod rules;
pub mod scheduler;
pub mod text;
