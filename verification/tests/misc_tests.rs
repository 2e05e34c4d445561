use wftpg::daemon::{
    reconcile, reload_response, response_error, response_ok, route, route_error, start_all_response,
    DaemonRoute, ServiceTarget, Transition,
};
use wftpg::facts::{
    build_mlst_facts, format_mtime_rfc3659, get_file_mtime, get_file_mtime_raw, get_unix_mode, mlsd_line,
    mlst_reply,
};
use wftpg::service::manager::{gui_user_step, session_user, GuiUserStep};
use wftpg::service::{ServiceAction, ServiceManager};
use wftpg::text::{parse_unsigned, split_words};
use wftpg::tls::{load_tls_config, server_tls_settings, TlsConfig, TlsError, TlsLoadError};

#[test]
fn tls_settings_are_checked_in_order() {
    let off = TlsConfig::new(false, String::new(), String::new(), false);
    assert!(!off.is_configured());
    assert_eq!(off.validate(false, false, None, None), Ok(()));
    let no_cert = TlsConfig::new(true, String::new(), "k".to_string(), false);
    assert_eq!(no_cert.validate(true, true, None, None), Err(TlsError::CertificatePathMissing));
    let no_key = TlsConfig::new(true, "c".to_string(), String::new(), true);
    assert_eq!(no_key.validate(true, true, None, None), Err(TlsError::PrivateKeyPathMissing));
    let cfg = TlsConfig::new(true, "c.pem".to_string(), "k.pem".to_string(), false);
    assert!(cfg.is_configured());
    assert_eq!(cfg.validate(false, true, None, None), Err(TlsError::CertificateFileMissing));
    assert_eq!(cfg.validate(true, false, None, None), Err(TlsError::PrivateKeyFileMissing));
    assert_eq!(cfg.validate(true, true, None, None), Err(TlsError::Load(TlsLoadError::CertificateOpen)));
    assert_eq!(cfg.validate(true, true, Some(&b""[..]), None), Err(TlsError::Load(TlsLoadError::PrivateKeyOpen)));
    assert_eq!(cfg.validate(true, true, Some(&b""[..]), Some(&b""[..])), Err(TlsError::Load(TlsLoadError::NoPrivateKey)));
    assert!(matches!(off.load_server_config(Some(&b""[..]), Some(&b""[..])), Err(TlsLoadError::NotEnabled)));
    assert!(matches!(load_tls_config("c", "k", None, None), Err(TlsLoadError::CertificateOpen)));
}

#[test]
fn tls_errors_report_their_texts() {
    let no_cert = TlsConfig::new(true, String::new(), "k.pem".to_string(), false);
    assert_eq!(
        no_cert.validate(false, true, None, None).unwrap_err().message(),
        "TLS enabled but certificate path is not configured"
    );
    let no_key = TlsConfig::new(true, "c.pem".to_string(), String::new(), false);
    assert_eq!(
        no_key.validate(true, false, None, None).unwrap_err().message(),
        "TLS enabled but private key path is not configured"
    );
    assert_eq!(TlsError::Load(TlsLoadError::NoPrivateKey).message(), "Failed to load TLS configuration");
    assert_eq!(TlsLoadError::NoPrivateKey.message(), "No private key found in file");
    assert_eq!(TlsLoadError::CertificateRead.message(), "Failed to read certificates");
}

#[test]
fn service_manager_commands() {
    let m = ServiceManager::new();
    assert_eq!(m.service_name(), "wftpd");
    assert_eq!(m.service_path(), "/lib/systemd/system/wftpd.service");
    let unit = m.unit_file("/usr/bin/wftpd");
    assert!(unit.starts_with("[Unit]\nDescription=WFTPG SFTP/FTP Server\n"));
    assert!(unit.contains("ExecStart=/usr/bin/wftpd\n"));
    assert!(unit.ends_with("WantedBy=multi-user.target\n"));
    let c = m.command(ServiceAction::Restart);
    assert_eq!(c.program, "systemctl");
    assert_eq!(c.args, vec!["restart".to_string(), "wftpd".to_string()]);
    let m2 = wftpg::service::manager::ServiceManager::new();
    let c2 = m2.command(wftpg::service::manager::ServiceAction::Start);
    assert_eq!(c2.program, "pkexec");
    assert_eq!(c2.args, vec!["systemctl".to_string(), "start".to_string(), "wftpd".to_string()]);
    let c3 = m2.command(wftpg::service::manager::ServiceAction::IsEnabled);
    assert_eq!(c3.program, "systemctl");
    assert_eq!(c3.args, vec!["is-enabled".to_string(), "--quiet".to_string(), "wftpd".to_string()]);
    assert!(m2.unit_file("/x").contains("LimitNOFILE=65536\n"));
}

#[test]
fn desktop_user_is_found() {
    assert!(matches!(gui_user_step(Some("ann"), Some("5"), Some("bob")), GuiUserStep::Found(u) if u == "ann"));
    assert!(matches!(gui_user_step(None, Some("1000"), Some("bob")), GuiUserStep::LookupUid(1000)));
    assert!(matches!(gui_user_step(None, Some("x"), Some("bob")), GuiUserStep::Found(u) if u == "bob"));
    assert!(matches!(gui_user_step(None, None, Some("root")), GuiUserStep::AskSessions));
    assert!(matches!(gui_user_step(None, None, None), GuiUserStep::AskSessions));
    assert_eq!(session_user("\n   2 1000 carol seat0 tty2\n   3 0 root\n"), Some("carol".to_string()));
    assert_eq!(session_user("1 2\n"), None);
}

#[test]
fn daemon_commands_are_routed() {
    assert_eq!(route("status", None), DaemonRoute::Status);
    assert_eq!(route("start", None), DaemonRoute::Start(ServiceTarget::All));
    assert_eq!(route("stop", Some("sftp")), DaemonRoute::Stop(ServiceTarget::Sftp));
    assert_eq!(route("start", Some("web")), DaemonRoute::UnknownService);
    assert_eq!(route("dance", None), DaemonRoute::UnknownCommand);
    assert_eq!(route_error(DaemonRoute::UnknownCommand).unwrap().message, "未知命令");
    assert!(route_error(DaemonRoute::Reload).is_none());
    let r = start_all_response(true, false);
    assert!(!r.success);
    assert_eq!(r.message, "部分服务启动失败");
    assert!(start_all_response(true, true).success);
    let r = reload_response(None, Some("bad json"), true, false);
    assert!(!r.success);
    assert_eq!(r.message, "配置已重新加载; 用户配置重新加载失败: bad json");
    assert!(r.ftp_running && !r.sftp_running);
    assert!(reload_response(None, None, false, false).success);
    assert!(response_ok(true, false).success);
    assert!(!response_error("x").success);
    assert_eq!(reconcile(true, false), Transition::Start);
    assert_eq!(reconcile(false, true), Transition::Stop);
    assert_eq!(reconcile(true, true), Transition::Keep);
}

#[test]
fn file_facts() {
    assert_eq!(get_unix_mode(0o100644), "0644");
    assert_eq!(get_unix_mode(0o104755), "4755");
    assert_eq!(get_file_mtime_raw(Some(1700000000)), "1700000000");
    assert_eq!(get_file_mtime_raw(None), "0");
    assert_eq!(get_file_mtime(Some((0, 0))), "1970-01-01 00:00");
    assert_eq!(get_file_mtime(Some((86_400 + 3_600, 0))), "1970-01-02 01:00");
    assert_eq!(format_mtime_rfc3659(Some((1, 500_000_000))), "19700101000001.500");
    assert_eq!(format_mtime_rfc3659(None), "19700101000000");
    assert_eq!(build_mlst_facts(true, 0, "20260101000000.000", "0755"), "type=dir;size=0;modify=20260101000000.000;unix.mode=0755;");
}

#[test]
fn numbers_and_words() {
    assert_eq!(parse_unsigned("65535", 65535), Some(65535));
    assert_eq!(parse_unsigned("65536", 65535), None);
    assert_eq!(parse_unsigned("+12", 100), Some(12));
    assert_eq!(parse_unsigned("+", 100), None);
    assert_eq!(parse_unsigned("-1", 100), None);
    assert_eq!(parse_unsigned("18446744073709551615", u64::MAX), Some(u64::MAX));
    assert_eq!(parse_unsigned("18446744073709551616", u64::MAX), None);
    let w = split_words("  a \t bc\u{3000}d ");
    let w: Vec<String> = w.into_iter().map(|x| x.into_iter().collect()).collect();
    assert_eq!(w, vec!["a".to_string(), "bc".to_string(), "d".to_string()]);
}

#[test]
fn mlst_and_mlsd_lines() {
    assert_eq!(mlsd_line("type=file;size=3;", "a b.txt"), "type=file;size=3; a\\ b.txt\r\n");
    assert_eq!(
        mlst_reply("/home/u/x", "type=dir;", "x"),
        "250-Listing /home/u/x\r\n type=dir;x\r\n250 End\r\n"
    );
}

#[test]
fn servers_use_tls_only_when_required_and_configured() {
    assert!(server_tls_settings(false, Some("c"), Some("k")).is_none());
    assert!(server_tls_settings(true, None, Some("k")).is_none());
    assert!(server_tls_settings(true, Some("c"), None).is_none());
    let c = server_tls_settings(true, Some("c.pem"), Some("k.pem")).unwrap();
    assert!(c.enabled && c.require_tls);
    assert_eq!((c.cert_path.as_str(), c.key_path.as_str()), ("c.pem", "k.pem"));
}
