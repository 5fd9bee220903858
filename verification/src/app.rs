//! The decisions that the desktop application makes at startup, from the
//! settings it reads in its environment.

use vstd::prelude::*;
use vstd::string::StringSliceAdditionalSpecFns;

use crate::connection::{connection_of_name, invalid_connection_message, ConnectionType};
use crate::consts::{AGENT_TITLE_SUFFIX, APP_ID, APP_NAME, DEV_APP_ID, PROXY_TITLE_SUFFIX};
use crate::text::same_text;

verus! {

/// The message that the proxy sends to the agent over Bluetooth at startup.
pub const BLUETOOTH_PROBE_MESSAGE: &'static str = "allo mon ami!!!";

/// Whether a setting is `true`: it is set, to the text `true`.
pub open spec fn setting_is_true(value: Option<&str>) -> bool {
    value matches Some(v) && v@ == "true"@
}

/// The application ID: the development one where the development setting is
/// `true`, the regular one otherwise.
pub fn get_app_id(is_dev: Option<&str>) -> (id: &'static str)
    ensures
        id@ == if setting_is_true(is_dev) {
            DEV_APP_ID@
        } else {
            APP_ID@
        },
{
    match is_dev {
        Some(v) => {
            if same_text(v, "true") {
                DEV_APP_ID
            } else {
                APP_ID
            }
        },
        None => APP_ID,
    }
}

/// Whether the application runs as a proxy: where the proxy setting is `true`.
pub fn is_proxy(value: Option<&str>) -> (proxy: bool)
    ensures
        proxy == setting_is_true(value),
{
    match value {
        Some(v) => same_text(v, "true"),
        None => false,
    }
}

/// The title of the windows: the application name, a space, and the suffix
/// of the mode the application runs in.
pub fn get_window_title(proxy: bool) -> (title: String)
    ensures
        title@ == APP_NAME@ + " "@ + if proxy {
            PROXY_TITLE_SUFFIX@
        } else {
            AGENT_TITLE_SUFFIX@
        },
{
    let mut app_title = String::from_str(APP_NAME);
    app_title.append(" ");
    if proxy {
        app_title.append(PROXY_TITLE_SUFFIX);
    } else {
        app_title.append(AGENT_TITLE_SUFFIX);
    }
    app_title
}

/// The connection type that the setting names, TCP where it is not set, or
/// the message that rejects a setting that names no connection type.
pub fn get_connection_type(value: Option<&str>) -> (res: Result<ConnectionType, String>)
    ensures
        match value {
            None => res == Ok::<ConnectionType, String>(ConnectionType::Tcp),
            Some(v) => match connection_of_name(v@) {
                Some(c) => res == Ok::<ConnectionType, String>(c),
                None => res matches Err(m) && m@ == invalid_connection_message(v@),
            },
        },
{
    match value {
        Some(v) => ConnectionType::from_string(v),
        None => Ok(ConnectionType::Tcp),
    }
}

/// The background work that the application starts with.
pub enum StartupTask {
    /// Send this message to the agent over Bluetooth.
    ProbeOverBluetooth(Vec<u8>),
    /// Serve requests over Bluetooth.
    ServeBluetooth,
    /// Serve requests over TCP.
    ServeTcp,
    /// Start nothing.
    Idle,
}

/// The background work for a mode and a connection type: a proxy probes the
/// agent over Bluetooth, an agent serves over Bluetooth or TCP, and nothing
/// is started otherwise (TCP probing and USB are not implemented yet).
pub fn startup_task(proxy: bool, connection: ConnectionType) -> (task: StartupTask)
    ensures
        match task {
            StartupTask::ProbeOverBluetooth(m) => proxy && connection == ConnectionType::Bluetooth
                && m@ == BLUETOOTH_PROBE_MESSAGE.spec_bytes(),
            StartupTask::ServeBluetooth => !proxy && connection == ConnectionType::Bluetooth,
            StartupTask::ServeTcp => !proxy && connection == ConnectionType::Tcp,
            StartupTask::Idle => connection == ConnectionType::Usb || (proxy && connection
                == ConnectionType::Tcp),
        },
{
    if proxy {
        match connection {
            // TODO this should call ping instead
            ConnectionType::Bluetooth => StartupTask::ProbeOverBluetooth(
                BLUETOOTH_PROBE_MESSAGE.as_bytes_vec(),
            ),
            // TODO this should call ping instead
            ConnectionType::Tcp => StartupTask::Idle,
            // TODO not implemented yet.
            ConnectionType::Usb => StartupTask::Idle,
        }
    } else {
        match connection {
            ConnectionType::Bluetooth => StartupTask::ServeBluetooth,
            ConnectionType::Tcp => StartupTask::ServeTcp,
            // TODO not implemented yet.
            ConnectionType::Usb => StartupTask::Idle,
        }
    }
}

/// The window that the application opens when it is activated.
#[derive(Debug, PartialEq, Eq, Structural, Clone, Copy)]
pub enum MainWindow {
    /// The search window of the proxy.
    Proxy,
    /// The window that unlocks the database of the agent.
    Unlock,
}

/// A proxy opens its search window; an agent opens the window that unlocks
/// its database.
pub fn main_window(proxy: bool) -> (window: MainWindow)
    ensures
        window == if proxy {
            MainWindow::Proxy
        } else {
            MainWindow::Unlock
        },
{
    if proxy {
        MainWindow::Proxy
    } else {
        MainWindow::Unlock
    }
}

} // verus!
