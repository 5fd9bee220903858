//! Names and identifiers of the application.

use vstd::prelude::*;

verus! {

pub const APP_ID: &'static str = "net.louib.mfa-agent";

pub const DEV_APP_ID: &'static str = "net.louib.mfa-agent-dev";

pub const APP_NAME: &'static str = "mfa-agent";

pub const APP_TITLE: &'static str = "MFA Agent";

pub const PROXY_TITLE_SUFFIX: &'static str = "(proxy)";

pub const AGENT_TITLE_SUFFIX: &'static str = "(remote)";

pub const IS_PROXY_VAR_NAME: &'static str = "MFA_AGENT_IS_PROXY";

pub const IS_DEV_VAR_NAME: &'static str = "MFA_AGENT_IS_DEV";

pub const CONNECTION_TYPE_VAR_NAME: &'static str = "MFA_AGENT_CONNECTION_TYPE";

/// Bluetooth Service UUID, as a 128-bit number.
// FIXME change this UUID, it was taken from the examples.
pub const APP_BT_SERVICE_ID: u128 = 0xFEEDC0DE00002;

/// Characteristic UUID for Bluetooth requests, as a 128-bit number.
// FIXME change this UUID, it was taken from the examples.
pub const APP_BT_CHARACTERISTIC_ID: u128 = 0xF00DC0DE00002;

} // verus!
