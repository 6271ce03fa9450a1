//! Board-support layer for a Wi-Fi microcontroller built around a SimpleLink
//! network processor: numeric formatting into fixed buffers, the vendor's
//! closed error and mode enumerations, the shared connection status and the
//! event handlers that update it, and the decisions of the connection
//! controller.
pub mod bma222;
pub mod bytes;
pub mod config;
pub mod controller;
pub mod error;
pub mod events;
pub mod format;
pub mod parse;
pub mod i2c_devices;
pub mod rtc;
pub mod simplelink;
pub mod socket;
pub mod status;
pub mod time;
pub mod tmp006;
pub mod update;
pub mod types;
