//! Core of a small lighting controller: a button-driven widget state
//! machine, an in-memory model of the lamp it drives, a projection of the
//! pair into display payloads, and the line protocols that carry events in
//! and payloads out. All I/O (the HTTP actuator calls, the socket fan-out)
//! lives outside this crate; everything here is pure logic over plain
//! values and is verified.

pub mod controller;
pub mod decimal;
pub mod ipc_protocol;
pub mod lamp;
pub mod lamp_simulator;
pub mod widget_state;
