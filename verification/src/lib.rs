//! Bridge logic between an eSmart home controller and an MQTT broker:
//! parsing of control commands, construction of the eSmart protocol
//! messages, the sensor and control entities announced to Home Assistant,
//! and the throttling of state updates.

pub mod bridge;
pub mod commands;
pub mod data;
pub mod discovery;
pub mod json;
pub mod laws;
pub mod message_laws;
pub mod stats;
pub mod text;
pub mod time;
