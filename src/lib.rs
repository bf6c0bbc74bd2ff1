//! Remote input command server: the logic that turns structured or free-text
//! requests into canonical input actions and applies them, one at a time, to a
//! single input device.

pub mod action;
pub mod actuator;
pub mod error;
pub mod keys;
pub mod log;
pub mod server;
pub mod text;
pub mod voice;
