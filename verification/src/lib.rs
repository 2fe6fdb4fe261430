//! Host-side protocol logic for Hall-effect HID keypads and keyboards:
//! packet framing over 64-byte reports, reply reassembly, the command
//! dispatchers of the device families, and the firmware programming
//! session.

pub mod color;
pub mod device;
pub mod device_preset;
pub mod dispatch;
pub mod error;
pub mod hid_iap;
pub mod kbreport;
pub mod keycode;
pub mod meowboard;
pub mod meowpad3k;
pub mod meowpad4k;
pub mod models;
pub mod packet;
pub mod reassembler;
pub mod replies;
pub mod rgb;
pub mod signs;
pub mod utils;
pub mod version;
pub mod wire;
