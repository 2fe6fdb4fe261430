//! The four-key keypad family.

pub mod cbor;
pub mod config;
pub mod meowpad;
pub mod packet_id;
