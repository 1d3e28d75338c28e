//! Host-side transport stack for XOSS bicycle computers: control framing,
//! the YMODEM-style file transfer engine and the device-session rules.

pub mod bytes;
pub mod crc;
pub mod ctl_message;
pub mod decimal;
pub mod device;
pub mod link;
pub mod mga;
pub mod model;
pub mod transfer;
pub mod ymodem;
