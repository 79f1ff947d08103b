//! DPI profiles, polling rate and sensor mode of ATK/VXE mice over HID.
//!
//! The library holds what is decided and computed: how settings are stored, which
//! requests a command takes, what an answer means, and what to say of it. Whoever uses it
//! opens the devices, sends the requests and shows the lines.
//!
//! - [`dpi`]: the 4-byte block of one profile.
//! - [`profile`]: the eight profiles, stored in pairs.
//! - [`settings`]: the active profile, the polling rate and the sensor mode.
//! - [`change`]: a change of any of these settings.
//! - [`eeprom`]: requests to the mouse, and its replies.
//! - [`session`]: a command as a conversation with the mouse.
//! - [`discovery`]: the mouse among the connected devices.
//! - [`connect`]: the interface of the mouse that speaks the protocol.
//! - [`memory`]: what conversations do to the memory of the mouse.
//! - [`hex`], [`text`] and [`error`]: identifiers, numbers and errors as text.

pub mod change;
pub mod connect;
pub mod discovery;
pub mod dpi;
pub mod eeprom;
pub mod error;
pub mod hex;
pub mod memory;
pub mod profile;
pub mod session;
pub mod settings;
pub mod text;
