//! The firmware programming protocol of a device in update mode.

pub mod error;
pub mod iap;
pub mod packet;
