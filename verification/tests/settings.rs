use mfa_agent::app::{
    get_app_id, get_connection_type, get_window_title, is_proxy, main_window, startup_task,
    MainWindow, StartupTask,
};
use mfa_agent::config::{config_file_path, read_or_init, Config, ConfigInit};
use mfa_agent::connection::ConnectionType;
use mfa_agent::secrets::{get_db_file_path, get_totp_secrets};
use mfa_agent::text::contains_text;
use mfa_agent::utils::strip_line_ending;

#[test]
fn connection_names_round_trip() {
    for c in [ConnectionType::Bluetooth, ConnectionType::Tcp, ConnectionType::Usb] {
        assert_eq!(ConnectionType::from_string(&c.to_string()), Ok(c));
    }
    assert_eq!(ConnectionType::Bluetooth.to_string(), "bluetooth");
    assert_eq!(ConnectionType::Tcp.to_string(), "tcp");
    assert_eq!(ConnectionType::Usb.to_string(), "usb");
}

#[test]
fn unknown_connection_name_is_refused() {
    assert_eq!(
        ConnectionType::from_string("serial"),
        Err("Invalid connection type serial.".to_string())
    );
    assert!(ConnectionType::from_string("TCP").is_err());
}

#[test]
fn connection_setting_defaults_to_tcp() {
    assert_eq!(get_connection_type(None), Ok(ConnectionType::Tcp));
    assert_eq!(get_connection_type(Some("usb")), Ok(ConnectionType::Usb));
    assert!(get_connection_type(Some("wifi")).is_err());
}

#[test]
fn app_id_follows_dev_setting() {
    assert_eq!(get_app_id(Some("true")), "net.louib.mfa-agent-dev");
    assert_eq!(get_app_id(Some("yes")), "net.louib.mfa-agent");
    assert_eq!(get_app_id(None), "net.louib.mfa-agent");
}

#[test]
fn proxy_setting() {
    assert!(is_proxy(Some("true")));
    assert!(!is_proxy(Some("false")));
    assert!(!is_proxy(Some("TRUE")));
    assert!(!is_proxy(None));
}

#[test]
fn window_titles() {
    assert_eq!(get_window_title(true), "mfa-agent (proxy)");
    assert_eq!(get_window_title(false), "mfa-agent (remote)");
}

#[test]
fn startup_tasks() {
    match startup_task(true, ConnectionType::Bluetooth) {
        StartupTask::ProbeOverBluetooth(m) => assert_eq!(m, b"allo mon ami!!!".to_vec()),
        _ => panic!("a proxy over Bluetooth must probe the agent"),
    }
    assert!(matches!(startup_task(true, ConnectionType::Tcp), StartupTask::Idle));
    assert!(matches!(startup_task(true, ConnectionType::Usb), StartupTask::Idle));
    assert!(matches!(startup_task(false, ConnectionType::Bluetooth), StartupTask::ServeBluetooth));
    assert!(matches!(startup_task(false, ConnectionType::Tcp), StartupTask::ServeTcp));
    assert!(matches!(startup_task(false, ConnectionType::Usb), StartupTask::Idle));
}

#[test]
fn main_windows() {
    assert_eq!(main_window(true), MainWindow::Proxy);
    assert_eq!(main_window(false), MainWindow::Unlock);
}

#[test]
fn config_path() {
    assert_eq!(config_file_path(), "~/.mfa-agent-config.yaml");
}

#[test]
fn read_config_is_used() {
    let config = Config {
        agent_id: Some("agent".to_string()),
        default_db_path: None,
        last_db_path: Some("/tmp/db.kdbx".to_string()),
    };
    match read_or_init(Ok(config)) {
        ConfigInit::Use(c) => {
            assert_eq!(c.agent_id, Some("agent".to_string()));
            assert_eq!(c.last_db_path, Some("/tmp/db.kdbx".to_string()));
        },
        ConfigInit::Initialize(_) => panic!("a configuration that was read must be used"),
    }
}

#[test]
fn unreadable_config_is_initialized() {
    match read_or_init(Err("no such file".to_string())) {
        ConfigInit::Initialize(c) => {
            assert_eq!(c.agent_id, None);
            assert_eq!(c.default_db_path, None);
            assert_eq!(c.last_db_path, None);
        },
        ConfigInit::Use(_) => panic!("a missing configuration must be initialized"),
    }
}

#[test]
fn db_file_paths() {
    assert_eq!(get_db_file_path(Some("/home/louib")), "/home/louib/mfa-agent.kdbx");
    assert_eq!(get_db_file_path(None), "./mfa-agent.kdbx");
}

#[test]
fn no_totp_secrets_yet() {
    assert_eq!(get_totp_secrets(), Ok(vec![]));
}

#[test]
fn line_endings_are_stripped() {
    assert_eq!(strip_line_ending("secret\n"), "secret");
    assert_eq!(strip_line_ending("secret\r\n"), "secret");
    assert_eq!(strip_line_ending("secret"), "secret");
    assert_eq!(strip_line_ending("secret\n\n"), "secret\n");
    assert_eq!(strip_line_ending("secret\n\r"), "secret\n");
    assert_eq!(strip_line_ending(""), "");
}

#[test]
fn text_containment() {
    assert!(contains_text("github", "git"));
    assert!(contains_text("github", "hub"));
    assert!(contains_text("github", ""));
    assert!(contains_text("", ""));
    assert!(!contains_text("github", "lab"));
    assert!(!contains_text("git", "github"));
    assert!(contains_text("héllo", "él"));
}
