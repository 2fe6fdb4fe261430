//! The three-key keypad family: its configuration records.

pub mod cbor;
pub mod config;
