//! Verified core of the multi-factor authentication agent: the wire format
//! spoken between the proxy and the remote agent, the request handling of the
//! remote agent, the secret encryption scheme and the decisions that drive the
//! Bluetooth, TCP and desktop front ends.

pub mod text;
pub mod api;
pub mod json;
pub mod crypto;
pub mod tcp;
pub mod connection;
pub mod consts;
pub mod event;
pub mod hid;
pub mod secrets;
pub mod config;
pub mod app;
pub mod utils;
pub mod bluetooth;
pub mod numpad;
