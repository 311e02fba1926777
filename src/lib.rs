//! A client library for a Pomodoro-tracking REST service.
//!
//! The library builds every request that the service's API takes (method,
//! address, payload, expected status) and judges every answer, so that the
//! program around it only has to move bytes over the network.
pub mod account;
pub mod pomo;
pub mod repeat;
pub mod request;
pub mod session;
pub mod text;
pub mod timestamp;
pub mod todo;
