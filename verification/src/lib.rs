//! Decision logic of a gas meter bridge: pulses from the meter's contact are
//! counted, and the reading and the hourly consumption are published over MQTT.
//!
//! The library does no input or output. A program hands it what happened, and
//! carries out what it answers.

pub mod einfach;
pub mod entprellung;
pub mod gesetze;
pub mod konfiguration;
pub mod mqtt;
pub mod uhr;
pub mod zaehler;
