//! The 64-key keyboard family.

pub mod cbor;
pub mod config;
pub mod keymap;
pub mod meowboard;
pub mod packet_id;
