//! Verified core of an MQTT-driven edge camera node: configuration rules,
//! topic and stream-URL derivation, streaming state, message building and
//! timestamp rendering.
pub mod text;
pub mod calendar;
pub mod processor;
pub mod config;
pub mod camera;
pub mod state;
pub mod metadata;
pub mod mqtt;
pub mod pi4;
