use wftpg::sftp::access::{Permission, Permissions};
use wftpg::ftp::command::{
    command_of, fixed_reply, opening, parse_command_line, split_command_line, FtpCommand, Opening,
};
use wftpg::ftp::data::{data_target, DataTarget, epsv_reply, first_free_port, is_ipv6_text, pasv_reply, pasv_server_ip, port_argument_fits};
use wftpg::ftp::info::{cmd_help, feat_reply, help_reply};
use wftpg::ftp::login::{anonymous_start, HomeStep, PassStep, PasswordCheck, UserStep};
use wftpg::ftp::security::AuthStep;
use wftpg::ftp::session::{cmd_mode, cmd_site, cmd_stru, mode_reply, pwd_reply, SessionState};
use wftpg::ftp::transfer::{
    effective_speed_limit, list_line, mkd_reply, rename_conflict, retr_opening_reply, size_reply,
    abor_reply, mdtm_reply, stou_name, stou_reply, upload_quota_reply,
};

#[test]
fn command_lines_are_split_and_named() {
    let (w, a) = split_command_line("  retr  my file.txt \r\n");
    assert_eq!(w, "retr");
    assert_eq!(a.as_deref(), Some("my file.txt"));
    let (w, a) = split_command_line("NOOP");
    assert_eq!(w, "NOOP");
    assert_eq!(a, None);
    assert_eq!(parse_command_line("xpwd").0, FtpCommand::Pwd);
    assert_eq!(parse_command_line("nlst /a").0, FtpCommand::List);
    assert_eq!(parse_command_line("FOO bar"), (FtpCommand::Unknown, Some("bar".to_string())));
    assert_eq!(command_of("XRMD"), FtpCommand::Rmd);
    assert_eq!(fixed_reply(FtpCommand::Quit), Some(("221 Goodbye\r\n".to_string(), true)));
    assert_eq!(fixed_reply(FtpCommand::Syst), Some(("215 UNIX Type: L8\r\n".to_string(), false)));
    assert_eq!(fixed_reply(FtpCommand::Unknown).unwrap().0, "502 Command not implemented\r\n");
    assert_eq!(fixed_reply(FtpCommand::Retr), None);
}

#[test]
fn mode_stru_and_type() {
    assert_eq!(cmd_mode(Some("s")), "200 Mode set to Stream\r\n");
    assert_eq!(cmd_mode(Some("B")), "504 Block mode not supported\r\n");
    assert_eq!(cmd_mode(None), "501 Syntax error: MODE requires parameter\r\n");
    assert_eq!(mode_reply(Some("X")), "501 Unknown mode\r\n");
    assert_eq!(cmd_stru(Some("f")), "200 Structure set to File\r\n");
    assert_eq!(cmd_stru(Some("p")), "504 Page structure not supported\r\n");
    let mut s = SessionState::new();
    assert_eq!(s.cmd_type(Some("a")), "200 Type set to A (ASCII)\r\n");
    assert!(!s.binary_transfer);
    assert_eq!(s.cmd_type(Some("x")), "501 Unknown type\r\n");
    assert!(!s.binary_transfer);
    assert_eq!(s.cmd_type(Some("l 8")), "200 Type set to I (Binary)\r\n");
    assert!(s.binary_transfer);
    assert_eq!(s.cmd_type(Some("E")), "200 Type set to E (EBCDIC)\r\n");
    assert_eq!(s.cmd_type(None), "200 Type set to I (Binary)\r\n");
}

#[test]
fn rest_opts_site_rein() {
    let mut s = SessionState::new();
    assert_eq!(s.cmd_rest(Some("1024")), "350 Restarting at 1024\r\n");
    assert_eq!(s.rest_offset, 1024);
    assert_eq!(s.cmd_rest(Some("-1")), "501 Syntax error in REST parameter\r\n");
    assert_eq!(s.rest_offset, 1024);
    assert_eq!(s.cmd_rest(Some("+7")), "350 Restarting at 7\r\n");
    assert_eq!(s.cmd_rest(None), "350 Restarting at 0\r\n");
    assert_eq!(s.rest_offset, 0);
    assert_eq!(s.cmd_opts(Some("utf8 off")), "200 UTF8 disabled\r\n");
    assert!(!s.utf8_enabled);
    assert_eq!(s.cmd_opts(Some("UTF8")), "200 UTF8 enabled\r\n");
    assert!(s.utf8_enabled);
    assert_eq!(s.cmd_opts(Some("mlst type;")), "200 MLST OPTS Type*;Size*;Modify*;\r\n");
    assert_eq!(s.cmd_opts(Some("   ")), "501 Syntax error: OPTS requires parameters\r\n");
    assert_eq!(s.cmd_opts(Some("zzz")), "501 Unknown OPTS parameter\r\n");
    assert_eq!(cmd_site(Some("chmod 644 f")), "200 SITE CHMOD command accepted\r\n");
    assert_eq!(cmd_site(Some("CHMOD 644")), "501 Syntax error: SITE CHMOD requires mode and path\r\n");
    assert_eq!(cmd_site(Some("umask 022")), "200 SITE UMASK command accepted\r\n");
    assert_eq!(cmd_site(Some("help")), "214-SITE commands: CHMOD, UMASK, HELP\r\n214 End\r\n");
    assert_eq!(cmd_site(Some("what")), "500 Unknown SITE command\r\n");
    s.current_user = Some("bob".to_string());
    s.authenticated = true;
    s.cwd = "/home/bob".to_string();
    s.rest_offset = 5;
    s.tls_enabled = true;
    assert_eq!(s.cmd_rein(), "220 Ready for new user\r\n");
    assert_eq!(s.current_user, None);
    assert!(!s.authenticated);
    assert_eq!(s.cwd, "");
    assert_eq!(s.rest_offset, 0);
    assert!(s.tls_enabled);
}

#[test]
fn help_feat_stat_pwd() {
    assert_eq!(cmd_help(Some("retr")), "214 RETR <filename>: Retrieve file\r\n");
    assert_eq!(help_reply(Some("XYZ")), "214 Unknown command\r\n");
    assert!(cmd_help(None).starts_with("214-The following commands are recognized:\r\n"));
    assert!(cmd_help(None).ends_with("214 Direct comments to admin\r\n"));
    let f = feat_reply(false);
    assert!(f.starts_with("211-Features:\r\n SIZE\r\n"));
    assert!(f.ends_with(" SITE\r\n211 End\r\n"));
    assert!(!f.contains("AUTH"));
    assert!(feat_reply(true).contains(" AUTH TLS\r\n AUTH SSL\r\n PBSZ\r\n PROT\r\n211 End\r\n"));
    let mut s = SessionState::new();
    assert_eq!(s.cmd_stat("1.2.3.4"), "211 FTP server status - Not logged in\r\n");
    s.current_user = Some("bob".to_string());
    s.cwd = "/h".to_string();
    s.passive_mode = true;
    assert_eq!(
        s.cmd_stat("1.2.3.4"),
        "211-FTP server status:\r\n211-Connected to: 1.2.3.4\r\n211-Logged in as: bob\r\n211-Current directory: /h\r\n211-Transfer mode: Binary\r\n211-Data connection: Passive\r\n211 End\r\n"
    );
    assert_eq!(pwd_reply("/docs"), "257 \"/docs\"\r\n");
}

#[test]
fn port_and_eprt_accept_only_the_client_address() {
    let mut s = SessionState::new();
    assert!(port_argument_fits(Some("10,0,0,1,4,1")));
    assert_eq!(s.cmd_port(Some("10,0,0,1,4,1"), "10.0.0.1"), "200 PORT command successful\r\n");
    assert_eq!(s.data_port, Some(1025));
    assert_eq!(s.data_addr.as_deref(), Some("10.0.0.1:1025"));
    assert!(!s.passive_mode);
    assert_eq!(s.cmd_port(Some("10,0,0,2,4,1"), "10.0.0.1"), "500 Illegal PORT command - IP must match client IP\r\n");
    assert_eq!(s.cmd_port(Some("10,0,0,1,4"), "10.0.0.1"), "501 Syntax error in parameters or arguments\r\n");
    assert_eq!(s.cmd_port(Some("10,x,0,0,1,4,1"), "10.0.0.1"), "200 PORT command successful\r\n");
    assert_eq!(s.cmd_port(None, "10.0.0.1"), "501 Syntax error: PORT requires parameters\r\n");
    assert!(!port_argument_fits(Some("1,2,3,4,256,0")));
    assert_eq!(s.cmd_eprt(Some("|1|10.0.0.1|2000|"), "10.0.0.1"), "200 EPRT command successful\r\n");
    assert_eq!(s.data_addr.as_deref(), Some("10.0.0.1:2000"));
    assert_eq!(s.cmd_eprt(Some("|2|::1|2001|"), "::1"), "200 EPRT command successful (IPv6)\r\n");
    assert_eq!(s.data_addr.as_deref(), Some("[::1]:2001"));
    assert_eq!(s.cmd_eprt(Some("|3|::1|2001|"), "::1"), "522 Protocol not supported, use (1,2)\r\n");
    assert_eq!(s.cmd_eprt(Some("|1|::1|99999|"), "::1"), "501 Invalid port number\r\n");
    assert_eq!(s.cmd_eprt(Some("|1|9.9.9.9|20|"), "::1"), "500 Illegal EPRT command - IP must match client IP\r\n");
    assert_eq!(s.cmd_eprt(Some("|1|x"), "::1"), "501 Syntax error in EPRT parameters\r\n");
}

#[test]
fn passive_mode_replies() {
    assert!(is_ipv6_text("fe80::1"));
    assert!(!is_ipv6_text("10.0.0.1"));
    assert_eq!(pasv_server_ip(Some("203.0.113.5"), "0.0.0.0", Some("10.0.0.1"), "1.1.1.1"), "203.0.113.5");
    assert_eq!(pasv_server_ip(None, "0.0.0.0", Some("10.0.0.1"), "1.1.1.1"), "10.0.0.1");
    assert_eq!(pasv_server_ip(None, "0.0.0.0", None, "1.1.1.1"), "1.1.1.1");
    assert_eq!(pasv_server_ip(None, "192.168.1.2", None, "1.1.1.1"), "192.168.1.2");
    assert_eq!(pasv_reply("10.0.0.1", 50001), "227 Entering Passive Mode (10,0,0,1,195,81)\r\n");
    assert_eq!(epsv_reply(50001), "229 Entering Extended Passive Mode (|||50001|)\r\n");
    assert_eq!(first_free_port(&vec![50000, 50001], 50000, 50005), Some(50002));
    assert_eq!(first_free_port(&vec![7, 8], 7, 8), None);
    assert_eq!(first_free_port(&vec![], 9, 8), None);
    let mut s = SessionState::new();
    s.enter_passive();
    s.passive_port_opened(50002);
    assert!(s.passive_mode);
    assert_eq!(s.data_port, Some(50002));
}

#[test]
fn tls_commands() {
    let mut s = SessionState::new();
    assert!(matches!(s.cmd_auth(false, Some("TLS")), AuthStep::Reply(r) if r == "500 TLS not configured on server\r\n"));
    assert!(matches!(s.cmd_auth(true, Some("tls")), AuthStep::StartTls(r) if r == "234 OK, starting TLS negotiation\r\n"));
    assert!(matches!(s.cmd_auth(true, None), AuthStep::Reply(r) if r == "504 Unknown authentication method\r\n"));
    assert_eq!(s.cmd_pbsz(true, Some("0")), "503 Use AUTH first\r\n");
    assert_eq!(s.cmd_pbsz(false, Some("0")), "500 TLS not available\r\n");
    s.tls_started();
    assert!(matches!(s.cmd_auth(true, Some("TLS")), AuthStep::Reply(r) if r == "503 Already using TLS\r\n"));
    assert_eq!(s.cmd_prot(true, Some("P")), "503 Use PBSZ first\r\n");
    assert_eq!(s.cmd_pbsz(true, Some("abc")), "501 Invalid PBSZ parameter\r\n");
    assert!(!s.pbsz_set);
    assert_eq!(s.cmd_pbsz(true, Some("16384")), "200 PBSZ=0 (only 0 supported for TLS)\r\n");
    assert!(s.pbsz_set);
    assert_eq!(s.cmd_prot(true, Some("p")), "200 PROT Private - Data channel secured\r\n");
    assert!(s.tls_data_required);
    assert_eq!(s.cmd_prot(true, Some("S")), "536 PROT level not supported (use P or C)\r\n");
    assert_eq!(s.cmd_prot(true, Some("Q")), "504 Unknown PROT level\r\n");
    assert_eq!(s.cmd_prot(true, None), "501 PROT requires parameter\r\n");
    assert_eq!(s.cmd_ccc(), "200 CCC OK - reverting to clear text\r\n");
    assert!(!s.tls_enabled && !s.tls_data_required && !s.pbsz_set);
    assert_eq!(s.cmd_ccc(), "533 Not in TLS mode\r\n");
}

#[test]
fn user_and_pass() {
    let mut s = SessionState::new();
    assert!(matches!(s.cmd_user(None), UserStep::Reply(r) if r == "501 Syntax error in parameters or arguments\r\n"));
    assert!(matches!(s.cmd_user(Some("bob")), UserStep::Reply(r) if r == "331 User name okay, need password\r\n"));
    assert_eq!(s.current_user.as_deref(), Some("bob"));
    assert!(matches!(s.cmd_pass_start(), PassStep::Authenticate(u) if u == "bob"));
    assert_eq!(s.pass_result(PasswordCheck::Rejected, None, false, false, None), "530 Not logged in, user cannot be authenticated\r\n");
    assert_eq!(s.pass_result(PasswordCheck::Accepted, None, true, true, Some("/h")), "530 Login failed: user data not found\r\n");
    assert_eq!(s.pass_result(PasswordCheck::Accepted, Some(" "), true, true, Some("/h")), "530 Login failed: home directory not configured\r\n");
    assert_eq!(s.pass_result(PasswordCheck::Accepted, Some("/h"), false, true, Some("/h")), "530 Login failed: home directory does not exist\r\n");
    assert_eq!(s.pass_result(PasswordCheck::Accepted, Some("/h"), true, false, Some("/h")), "530 Login failed: home path is not a directory\r\n");
    assert_eq!(s.pass_result(PasswordCheck::Accepted, Some("/h"), true, true, None), "530 Login failed: cannot access home directory\r\n");
    assert!(!s.authenticated);
    assert_eq!(s.pass_result(PasswordCheck::Accepted, Some("/h"), true, true, Some("/real/h")), "230 User logged in\r\n");
    assert!(s.authenticated);
    assert_eq!(s.cwd, "/real/h");
    assert_eq!(s.home_dir, "/real/h");
    assert_eq!(s.pass_result(PasswordCheck::Failed, None, false, false, None), "530 Not logged in\r\n");
    assert!(!s.authenticated);
    let mut a = SessionState::new();
    assert!(matches!(a.cmd_pass_start(), PassStep::Reply(r) if r == "530 Please login with USER and PASS\r\n"));
    assert!(matches!(a.cmd_user(Some("Anonymous")), UserStep::Anonymous));
    assert!(matches!(anonymous_start(false, Some("/pub")), HomeStep::Reply(r) if r == "530 Anonymous access not allowed\r\n"));
    assert!(matches!(anonymous_start(true, Some("  ")), HomeStep::Reply(r) if r == "530 Anonymous login failed: anonymous home directory not configured\r\n"));
    assert!(matches!(anonymous_start(true, Some("/pub")), HomeStep::CheckHome(h) if h == "/pub"));
    assert_eq!(a.anonymous_home_checked(true, false, None), "530 Login failed: anonymous home path is not a directory\r\n");
    assert_eq!(a.anonymous_home_checked(true, true, Some("/srv/pub")), "230 Anonymous login successful\r\n");
    assert_eq!(a.current_user.as_deref(), Some("anonymous"));
    assert!(matches!(a.cmd_pass_start(), PassStep::Reply(r) if r == "230 Already logged in as anonymous\r\n"));
}

#[test]
fn transfer_decisions() {
    let mut s = SessionState::new();
    assert_eq!(s.login_gate().as_deref(), Some("530 Not logged in\r\n"));
    assert_eq!(s.upload_gate(true).as_deref(), Some("530 Not logged in\r\n"));
    s.authenticated = true;
    assert_eq!(s.upload_gate(false).as_deref(), Some("550 Permission denied\r\n"));
    assert_eq!(s.upload_gate(true), None);
    s.rest_offset = 100;
    assert_eq!(s.retr_remaining(1000), 900);
    assert_eq!(s.retr_remaining(50), 50);
    s.retr_done();
    assert_eq!(s.rest_offset, 0);
    assert_eq!(retr_opening_reply(900), "150 Opening BINARY mode data connection (900 bytes)\r\n");
    assert_eq!(effective_speed_limit(0, 200), Some(200));
    assert_eq!(effective_speed_limit(50, 200), Some(50));
    assert_eq!(effective_speed_limit(0, 0), None);
    assert_eq!(upload_quota_reply(1, 1_048_576).as_deref(), Some("552 Quota exceeded, upload denied\r\n"));
    assert_eq!(upload_quota_reply(1, 1_048_575), None);
    assert_eq!(upload_quota_reply(0, u64::MAX), None);
    assert_eq!(size_reply(12345), "213 12345\r\n");
    assert_eq!(list_line(false, 42, "2026-01-01 10:00", "a.txt"), "-rw-r--r-- 1 user user         42 2026-01-01 10:00 a.txt\r\n");
    assert_eq!(rename_conflict("/h/a", "/h/a/").as_deref(), Some("550 Cannot rename current working directory\r\n"));
    assert_eq!(rename_conflict("/h/a", "/h/a/b").as_deref(), Some("550 Cannot rename parent of current working directory\r\n"));
    assert_eq!(rename_conflict("/h/a", "/h/ab"), None);
    assert_eq!(mkd_reply("/h/new"), "257 \"/h/new\" created\r\n");
    assert_eq!(s.change_dir("/h/sub"), "250 \"/h/sub\" is current directory\r\n");
    assert_eq!(s.cwd, "/h/sub");
    s.set_rename_from("/h/x");
    assert_eq!(s.rename_from.as_deref(), Some("/h/x"));
    s.clear_rename();
    assert_eq!(s.rename_from, None);
}

#[test]
fn file_commands_need_their_permission() {
    let perms = Permissions {
        can_read: true,
        can_write: true,
        can_append: true,
        can_delete: false,
        can_list: true,
        can_mkdir: true,
        can_rmdir: false,
        can_rename: true,
        quota_mb: None,
        speed_limit_kbps: None,
    };
    let mut s = SessionState::new();
    assert_eq!(s.permission_gate(Some(perms), Permission::Mkdir).as_deref(), Some("530 Not logged in\r\n"));
    s.authenticated = true;
    assert_eq!(s.permission_gate(Some(perms), Permission::Delete).as_deref(), Some("550 Permission denied\r\n"));
    assert_eq!(s.permission_gate(Some(perms), Permission::Rmdir).as_deref(), Some("550 Permission denied\r\n"));
    assert_eq!(s.permission_gate(Some(perms), Permission::Mkdir), None);
    // a session whose user has no record goes on
    assert_eq!(s.permission_gate(None, Permission::Delete), None);
}

#[test]
fn data_connections_are_chosen_by_mode() {
    assert!(matches!(data_target(true, None, None, "1.2.3.4"), Err("No data port specified")));
    assert!(matches!(data_target(true, Some(50000), None, "1.2.3.4"), Ok(DataTarget::Passive(50000))));
    match data_target(false, Some(2000), Some("10.0.0.1:2000"), "1.2.3.4") {
        Ok(DataTarget::Connect(a)) => assert_eq!(a, "10.0.0.1:2000"),
        _ => panic!(),
    }
    match data_target(false, Some(2000), None, "1.2.3.4") {
        Ok(DataTarget::Connect(a)) => assert_eq!(a, "1.2.3.4:2000"),
        _ => panic!(),
    }
}

#[test]
fn unique_upload_names() {
    assert_eq!(stou_name("20260905_100000_123456", 0), "ftp_20260905_100000_123456");
    assert_eq!(stou_name("20260905_100000", 2), "ftp_20260905_100000_2");
    assert_eq!(stou_reply("ftp_x"), "150 FILE: ftp_x\r\n");
}

#[test]
fn connections_are_opened_in_order() {
    match opening(false, true, "Welcome") {
        Opening::TooMany(t) => assert_eq!(t, "421 Too many connections, try again later\r\n"),
        _ => panic!(),
    }
    match opening(true, false, "Welcome") {
        Opening::Denied(t) => assert_eq!(t, "530 Connection denied by IP filter\r\n"),
        _ => panic!(),
    }
    match opening(true, true, "Welcome to WFTPG") {
        Opening::Welcome(t) => assert_eq!(t, "220 Welcome to WFTPG \r\n"),
        _ => panic!(),
    }
}

#[test]
fn mdtm_reports_the_raw_time() {
    assert_eq!(mdtm_reply("20260905100000"), "213 20260905100000\r\n");
}

#[test]
fn abort_is_confirmed_after_closing() {
    assert_eq!(abor_reply(), "426 Connection closed; transfer aborted\r\n226 Abort successful\r\n");
}
