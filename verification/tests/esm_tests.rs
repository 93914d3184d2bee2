use esm::auth::{auth_body, authenticate, login_claims, AuthError, AuthPayload, Claims, TokenCheck};
use esm::config::{AppConfig, ConfigPathVar, Database, Server};
use esm::db::DbDriver;
use esm::pagination::Pagination;
use esm::system::{CpuInfo, DiskInfo, DiskKind, Memory, Network, ProcessInfo, Ser, SysInfoExt, SystemReadings};
use esm::ws::{after_send, MsgType, SocketAction, WsMessage, STATUS_INTERVAL_SECS};

fn server(address: &str, port: u16) -> Server {
    Server { address: address.to_string(), port, jwt_secret: "secret".to_string() }
}

#[test]
fn config_path_defaults_to_config_toml() {
    assert_eq!(AppConfig::config_path(ConfigPathVar::Unset), "Config.toml");
}

#[test]
fn config_path_follows_the_environment() {
    assert_eq!(AppConfig::config_path(ConfigPathVar::Text("/etc/esm/app.toml".to_string())), "/etc/esm/app.toml");
}

#[test]
fn config_path_is_empty_for_a_non_unicode_value() {
    assert_eq!(AppConfig::config_path(ConfigPathVar::NotUnicode), "");
}

#[test]
fn listen_address_joins_address_and_port() {
    assert_eq!(server("127.0.0.1", 3000).listen_address(), "127.0.0.1:3000");
    assert_eq!(server("0.0.0.0", 0).listen_address(), "0.0.0.0:0");
    assert_eq!(server("localhost", 65535).listen_address(), "localhost:65535");
    assert_eq!(server("", 8).listen_address(), ":8");
}

#[test]
fn listen_address_port_reads_back() {
    for port in [0u16, 7, 10, 80, 443, 1000, 8080, 65535] {
        let address = "::1";
        let text = server(address, port).listen_address();
        assert_eq!(&text[..address.len()], address);
        assert_eq!(&text[address.len()..address.len() + 1], ":");
        let digits = &text[address.len() + 1..];
        assert!(digits.chars().all(|c| c.is_ascii_digit()));
        assert_eq!(digits.parse::<u16>().unwrap(), port);
    }
}

#[test]
fn app_config_holds_its_sections() {
    let config = AppConfig {
        server: server("127.0.0.1", 3000),
        database: Database { db_driver: "sqlite".to_string(), url: "sqlite://esm.db".to_string() },
    };
    assert_eq!(config.database.url, "sqlite://esm.db");
    assert_eq!(DbDriver::from_name(&config.database.db_driver), Some(DbDriver::Sqlite));
}

#[test]
fn driver_names_select_their_drivers() {
    assert_eq!(DbDriver::from_name("sqlite"), Some(DbDriver::Sqlite));
    assert_eq!(DbDriver::from_name("mysql"), Some(DbDriver::Mysql));
    assert_eq!(DbDriver::from_name("mssql"), Some(DbDriver::Mssql));
    assert_eq!(DbDriver::from_name("pg"), Some(DbDriver::Pg));
}

#[test]
fn unknown_driver_names_select_none() {
    assert_eq!(DbDriver::from_name("postgres"), None);
    assert_eq!(DbDriver::from_name("SQLite"), None);
    assert_eq!(DbDriver::from_name(""), None);
    assert_eq!(DbDriver::from_name("pg "), None);
}

#[test]
fn login_without_a_matching_user_is_refused() {
    assert_eq!(login_claims(None, 1_700_000_000).unwrap_err(), AuthError::MissingCredentials);
}

#[test]
fn login_refusal_does_not_read_the_clock() {
    assert_eq!(login_claims(None, i64::MAX).unwrap_err(), AuthError::MissingCredentials);
}

#[test]
fn login_issues_claims_for_one_day() {
    let claims = login_claims(Some("alice".to_string()), 1_700_000_000).unwrap();
    assert_eq!(claims.sub, "b@b.com");
    assert_eq!(claims.company, "ACME");
    assert_eq!(claims.username, "alice");
    assert_eq!(claims.exp, 1_700_086_400);
}

#[test]
fn login_expiry_wraps_before_the_epoch() {
    let claims = login_claims(Some("bob".to_string()), -100_000).unwrap();
    assert_eq!(claims.exp, (-13_600i64) as usize);
}

#[test]
fn signed_token_becomes_the_body() {
    let body = auth_body(Some("header.payload.signature".to_string())).unwrap();
    assert_eq!(body.access_token, "header.payload.signature");
}

#[test]
fn failed_signing_is_token_creation() {
    assert_eq!(auth_body(None).unwrap_err(), AuthError::TokenCreation);
}

#[test]
fn guard_refuses_missing_and_rejected_tokens() {
    assert_eq!(authenticate(TokenCheck::MissingBearer).unwrap_err(), AuthError::InvalidToken);
    assert_eq!(authenticate(TokenCheck::Rejected).unwrap_err(), AuthError::InvalidToken);
}

#[test]
fn issued_claims_pass_the_guard_unchanged() {
    let issued = login_claims(Some("carol".to_string()), 1_000).unwrap();
    let seen: Claims = authenticate(TokenCheck::Verified(issued)).unwrap();
    assert_eq!(seen.username, "carol");
    assert_eq!(seen.sub, "b@b.com");
    assert_eq!(seen.company, "ACME");
    assert_eq!(seen.exp, 87_400);
}

#[test]
fn auth_payload_carries_credentials() {
    let payload = AuthPayload { username: "u".to_string(), password: "p".to_string() };
    assert_eq!(payload.username, "u");
    assert_eq!(payload.password, "p");
}

#[test]
fn disk_kind_labels() {
    assert_eq!(DiskKind::Hdd.label(), "HDD");
    assert_eq!(DiskKind::Ssd.label(), "SSD");
    assert_eq!(DiskKind::Unknown(0).label(), "Unknown(0)");
    assert_eq!(DiskKind::Unknown(-7).label(), "Unknown(-7)");
    assert_eq!(DiskKind::Unknown(1234).label(), "Unknown(1234)");
    assert_eq!(DiskKind::Unknown(isize::MAX).label(), format!("Unknown({})", isize::MAX));
    assert_eq!(DiskKind::Unknown(isize::MIN).label(), format!("Unknown({})", isize::MIN));
}

fn cpu(name: &str, usage: i32) -> CpuInfo {
    CpuInfo { name: name.to_string(), cpu_usage: usage, brand: "Acme CPU".to_string() }
}

fn readings(names: [Option<&str>; 5]) -> SystemReadings {
    let [host_name, name, kernel_version, os_version, long_os_version] = names.map(|n| n.map(|s| s.to_string()));
    SystemReadings {
        host_name,
        name,
        kernel_version,
        os_version,
        long_os_version,
        uptime: 4242,
        cpus: vec![cpu("cpu0", 12), cpu("cpu1", 99)],
        global_cpu: cpu("", 55),
        memory: Memory { total_memory: 16, used_memory: 8, total_swap: 4, used_swap: 1 },
        disks: vec![DiskInfo {
            kind: DiskKind::Ssd,
            name: "nvme0n1".to_string(),
            file_system: "ext4".to_string(),
            mount_point: "/".to_string(),
            total_space: 1000,
            available_space: 400,
        }],
        networks: vec![Network {
            interface_name: "eth0".to_string(),
            received: 1,
            total_received: 2,
            transmitted: 3,
            total_transmitted: 4,
        }],
        processes: vec![
            ProcessInfo { pid: 1, name: "init".to_string() },
            ProcessInfo { pid: 42, name: "esm".to_string() },
            ProcessInfo { pid: 7, name: "sshd".to_string() },
        ],
    }
}

#[test]
fn report_names_missing_values_unknown() {
    let report = SysInfoExt::new(readings([None, None, None, None, None]));
    assert_eq!(report.hostname, "Unknown");
    assert_eq!(report.system_name, "Unknown");
    assert_eq!(report.system_kernel_version, "Unknown");
    assert_eq!(report.os_version, "Unknown");
    assert_eq!(report.long_os_version, "Unknown");
}

#[test]
fn report_keeps_what_was_read() {
    let report = SysInfoExt::new(readings([Some("box"), Some("Linux"), Some("6.1.0"), Some("12"), Some("Linux 12 (bookworm)")]));
    assert_eq!(report.hostname, "box");
    assert_eq!(report.system_name, "Linux");
    assert_eq!(report.system_kernel_version, "6.1.0");
    assert_eq!(report.os_version, "12");
    assert_eq!(report.long_os_version, "Linux 12 (bookworm)");
    assert_eq!(report.up_time, 4242);
    assert_eq!(report.cpu_list.len(), 2);
    assert_eq!(report.cpu_list[1].name, "cpu1");
    assert_eq!(report.cpu_list[1].cpu_usage, 99);
    assert_eq!(report.global_cpu_info.cpu_usage, 55);
    assert_eq!(report.memory.used_memory, 8);
    assert_eq!(report.disks[0].kind, DiskKind::Ssd);
    assert_eq!(report.disks[0].available_space, 400);
    assert_eq!(report.networks[0].interface_name, "eth0");
    assert_eq!(report.networks[0].total_transmitted, 4);
}

#[test]
fn report_lists_every_process_once() {
    let report = SysInfoExt::new(readings([None, None, None, None, None]));
    let pids: Vec<usize> = report.processes.iter().map(|p| p.pid).collect();
    assert_eq!(pids, vec![1, 42, 7]);
    assert_eq!(report.processes[1].name, "esm");
}

#[test]
fn ser_borrows_its_value() {
    let value = 17u64;
    let wrapped = Ser::new(&value);
    assert!(std::ptr::eq(wrapped.0, &value));
    assert_eq!(*wrapped.0, 17);
}

#[test]
fn status_messages_are_system_status() {
    let msg = WsMessage::system_status("payload");
    assert_eq!(msg.msg_type, MsgType::SystemStatus);
    assert_eq!(msg.data, "payload");
}

#[test]
fn push_loop_stops_when_the_client_is_gone() {
    assert_eq!(after_send(false), SocketAction::Stop);
}

#[test]
fn push_loop_waits_three_seconds_between_messages() {
    assert_eq!(STATUS_INTERVAL_SECS, 3);
    assert_eq!(after_send(true), SocketAction::WaitThenSend(3));
}

#[test]
fn pagination_defaults_to_no_paging() {
    let page = Pagination::default();
    assert_eq!(page.offset, None);
    assert_eq!(page.limit, None);
}

#[test]
fn disk_labels_tell_kinds_apart() {
    let kinds = [
        DiskKind::Hdd,
        DiskKind::Ssd,
        DiskKind::Unknown(0),
        DiskKind::Unknown(1),
        DiskKind::Unknown(-1),
        DiskKind::Unknown(10),
        DiskKind::Unknown(-10),
    ];
    for a in kinds {
        for b in kinds {
            assert_eq!(a.label() == b.label(), a == b);
        }
    }
}

fn run(outcomes: &[bool]) -> Vec<SocketAction> {
    let mut actions = Vec::new();
    for &delivered in outcomes {
        let action = after_send(delivered);
        actions.push(action);
        if action == SocketAction::Stop {
            break;
        }
    }
    actions
}

#[test]
fn push_run_stops_right_after_the_first_failed_send() {
    let actions = run(&[true, true, false, true, false]);
    assert_eq!(actions, vec![SocketAction::WaitThenSend(3), SocketAction::WaitThenSend(3), SocketAction::Stop]);
}

#[test]
fn push_run_keeps_sending_while_delivered() {
    let actions = run(&[true; 50]);
    assert_eq!(actions.len(), 50);
    assert!(actions.iter().all(|a| *a == SocketAction::WaitThenSend(3)));
}
