use wftpg::ftp::flow::{path_within, stou_end, CopyEnd, RetrStart, StorStart, StouNaming, WritePlan};
use wftpg::logs::{read_file_op_log, read_program_log, tail_lines};
use wftpg::sftp::auth::{AuthDecision, HomeMeta, SftpAuthState};
use wftpg::ftp::session::SessionState;
use wftpg::packet::{SSH_FX_FAILURE, SSH_FX_NO_SUCH_FILE, SSH_FX_OK, SSH_FX_PERMISSION_DENIED};
use wftpg::panel::{ftp_settings_from_form, user_dialog_plan, FtpForm, FtpFormError, UserPlan};
use wftpg::quota::QuotaCache;
use wftpg::sftp::accept::{AcceptDecision, AcceptLoop, AcceptRetry};
use wftpg::sftp::access::Permissions;
use wftpg::sftp::copy::{parent_of, CopyAnswer, CopyAsk, CopyFlow, CopyStep, IoFailure};
use wftpg::sftp::extended::{CopyArgs, Destination};
use wftpg::sftp::status::{ErrnoCodes, IoErrorKind};

fn session(home: &str, rest: u64) -> SessionState {
    let mut s = SessionState::new();
    s.authenticated = true;
    s.home_dir = home.to_string();
    s.cwd = home.to_string();
    s.rest_offset = rest;
    s
}

#[test]
fn retr_refusals_come_in_order() {
    let s = session("/srv/u", 0);
    match s.retr_begin(Err("too long"), true, true, 5) {
        RetrStart::Refuse(t) => assert_eq!(t, "550 Path resolution failed: too long\r\n"),
        _ => panic!("refused"),
    }
    match s.retr_begin(Ok("/srv/u/a"), false, true, 5) {
        RetrStart::Refuse(t) => assert_eq!(t, "550 File not found\r\n"),
        _ => panic!("refused"),
    }
    match s.retr_begin(Ok("/srv/other/a"), true, true, 5) {
        RetrStart::Refuse(t) => assert_eq!(t, "550 File not found\r\n"),
        _ => panic!("refused"),
    }
    match s.retr_begin(Ok("/srv/u/a"), true, false, 5) {
        RetrStart::Refuse(t) => assert_eq!(t, "550 Permission denied\r\n"),
        _ => panic!("refused"),
    }
}

#[test]
fn retr_sends_from_the_restart_offset_and_ends_with_226() {
    let mut s = session("/srv/u", 4);
    match s.retr_begin(Ok("/srv/u/a"), true, true, 10) {
        RetrStart::Send(t, off) => {
            assert_eq!(t, "150 Opening BINARY mode data connection (6 bytes)\r\n");
            assert_eq!(off, 4);
        }
        _ => panic!("sent"),
    }
    match s.retr_begin(Ok("/srv/u/a"), true, true, 3) {
        RetrStart::Send(t, off) => {
            assert_eq!(t, "150 Opening BINARY mode data connection (3 bytes)\r\n");
            assert_eq!(off, 4);
        }
        _ => panic!("sent"),
    }
    assert_eq!(s.retr_end(false), "425 Cannot open data connection\r\n");
    assert_eq!(s.rest_offset, 4);
    assert_eq!(s.retr_end(true), "226 Transfer complete\r\n");
    assert_eq!(s.rest_offset, 0);
}

#[test]
fn stor_plans_and_replies() {
    let s = session("/srv/u", 0);
    match s.stor_begin(Ok("/etc/x"), 0, 0) {
        StorStart::Refuse(t) => assert_eq!(t, "550 Permission denied\r\n"),
        _ => panic!("refused"),
    }
    match s.stor_begin(Ok("/srv/u/x"), 1, 1_048_576) {
        StorStart::Refuse(t) => assert_eq!(t, "552 Quota exceeded, upload denied\r\n"),
        _ => panic!("refused"),
    }
    assert!(matches!(s.stor_begin(Ok("/srv/u/x"), 1, 1_048_575), StorStart::Receive(WritePlan::Truncate)));
    let mut r = session("/srv/u", 7);
    assert!(matches!(r.stor_begin(Ok("/srv/u/x"), 0, 0), StorStart::Receive(WritePlan::Resume(7))));
    let mut q = QuotaCache::new();
    q.record_usage("/srv/u", 99);
    assert_eq!(r.stor_end(true, CopyEnd::Aborted, &mut q), "451 Transfer failed\r\n");
    assert_eq!(r.rest_offset, 0);
    assert_eq!(q.cached("/srv/u"), Some(99));
    r.rest_offset = 3;
    assert_eq!(r.stor_end(false, CopyEnd::Complete, &mut q), "425 Cannot open data connection\r\n");
    assert_eq!(r.rest_offset, 3);
    assert_eq!(r.stor_end(true, CopyEnd::Complete, &mut q), "226 Transfer complete\r\n");
    assert_eq!(q.cached("/srv/u"), None);
    assert!(path_within("/srv/u/", "/srv/u"));
    assert!(!path_within("/srv/user", "/srv/u"));
}

#[test]
fn stou_chooses_a_name_that_is_free() {
    let mut n = StouNaming::start("20260101_120000_123");
    assert_eq!(n.candidate(), "ftp_20260101_120000_123");
    assert_eq!(n.answer(true, "20260101_120000"), None);
    assert_eq!(n.candidate(), "ftp_20260101_120000_1");
    assert_eq!(n.answer(true, "20260101_120001"), None);
    assert_eq!(n.answer(false, "ignored"), Some("ftp_20260101_120001_2".to_string()));
}

fn codes() -> ErrnoCodes {
    ErrnoCodes { exdev: 18, enospc: 28, erofs: 30, eacces: 13, enoent: 2, enotdir: 20, eisdir: 21, eexist: 17, emlink: 31 }
}

fn perms(read: bool, write: bool, quota_mb: Option<u64>) -> Permissions {
    Permissions {
        can_read: read,
        can_write: write,
        can_delete: true,
        can_list: true,
        can_mkdir: true,
        can_rmdir: true,
        can_rename: true,
        can_append: true,
        quota_mb,
        speed_limit_kbps: None,
    }
}

fn status_of(step: CopyStep) -> (u32, String) {
    match step {
        CopyStep::Reply(p) => {
            let code = u32::from_be_bytes([p[9], p[10], p[11], p[12]]);
            let len = u32::from_be_bytes([p[13], p[14], p[15], p[16]]) as usize;
            (code, String::from_utf8(p[17..17 + len].to_vec()).unwrap())
        }
        CopyStep::Ask(_) => panic!("expected a reply"),
    }
}

fn args(src: &str, dst: &str, overwrite: bool) -> CopyArgs {
    CopyArgs { src: src.to_string(), dst: dst.to_string(), overwrite }
}

#[test]
fn copy_file_refusals_come_in_order() {
    let (_, step) = CopyFlow::start(1, args("a", "b", false), Some(perms(true, false, None)), codes());
    assert_eq!(status_of(step), (SSH_FX_PERMISSION_DENIED, "Permission denied".to_string()));
    let (_, step) = CopyFlow::start(1, args("a", "b", false), None, codes());
    assert_eq!(status_of(step), (SSH_FX_PERMISSION_DENIED, "Permission denied".to_string()));

    let (mut f, step) = CopyFlow::start(2, args("a", "b", false), Some(perms(true, true, None)), codes());
    assert!(matches!(step, CopyStep::Ask(CopyAsk::Resolve(ref s)) if s == "a"));
    assert!(matches!(f.resume(CopyAnswer::Resolved(Ok("/h/a".to_string()))), CopyStep::Ask(CopyAsk::Resolve(ref d)) if d == "b"));
    let step = f.resume(CopyAnswer::Resolved(Ok("/h/a".to_string())));
    assert_eq!(status_of(step), (SSH_FX_FAILURE, "Source and destination are the same file".to_string()));

    let (mut f, _) = CopyFlow::start(3, args("a", "b", false), Some(perms(true, true, None)), codes());
    f.resume(CopyAnswer::Resolved(Ok("/h/a".to_string())));
    assert!(matches!(f.resume(CopyAnswer::Resolved(Ok("/h/d/b".to_string()))), CopyStep::Ask(CopyAsk::SourceMeta(ref s)) if s == "/h/a"));
    assert!(matches!(f.resume(CopyAnswer::SourceMeta(Ok((true, false, 10)))), CopyStep::Ask(CopyAsk::ParentExists(ref p)) if p == "/h/d"));
    assert!(matches!(f.resume(CopyAnswer::ParentExists(Ok(true))), CopyStep::Ask(CopyAsk::DestMeta(ref d)) if d == "/h/d/b"));
    let step = f.resume(CopyAnswer::DestMeta(Ok(Destination::File(4))));
    assert_eq!(status_of(step), (SSH_FX_FAILURE, "Destination file already exists".to_string()));
}

#[test]
fn copy_file_goes_through_quota_to_ok() {
    let (mut f, _) = CopyFlow::start(4, args("a", "b", true), Some(perms(true, true, Some(1))), codes());
    f.resume(CopyAnswer::Resolved(Ok("/h/a".to_string())));
    f.resume(CopyAnswer::Resolved(Ok("/h/b".to_string())));
    f.resume(CopyAnswer::SourceMeta(Ok((true, false, 10))));
    f.resume(CopyAnswer::ParentExists(Ok(true)));
    assert!(matches!(f.resume(CopyAnswer::DestMeta(Ok(Destination::File(4)))), CopyStep::Ask(CopyAsk::Usage)));
    let step = f.resume(CopyAnswer::Usage(1_048_576));
    assert_eq!(status_of(step), (SSH_FX_FAILURE, "Quota exceeded".to_string()));

    let (mut f, _) = CopyFlow::start(5, args("a", "b", false), Some(perms(true, true, Some(1))), codes());
    f.resume(CopyAnswer::Resolved(Ok("/h/a".to_string())));
    f.resume(CopyAnswer::Resolved(Ok("/h/b".to_string())));
    f.resume(CopyAnswer::SourceMeta(Ok((true, false, 10))));
    f.resume(CopyAnswer::ParentExists(Ok(true)));
    let missing = IoFailure { kind: IoErrorKind::NotFound, raw: Some(2), text: "gone".to_string() };
    assert!(matches!(f.resume(CopyAnswer::DestMeta(Err(missing))), CopyStep::Ask(CopyAsk::Usage)));
    assert!(matches!(f.resume(CopyAnswer::Usage(0)), CopyStep::Ask(CopyAsk::Copy(ref a, ref b)) if a == "/h/a" && b == "/h/b"));
    assert!(!f.copied);
    let step = f.resume(CopyAnswer::Copied(Ok(10)));
    assert_eq!(status_of(step), (SSH_FX_OK, "OK".to_string()));
    assert!(f.copied);
}

#[test]
fn copy_file_reports_file_system_failures() {
    let (mut f, _) = CopyFlow::start(6, args("a", "b", false), Some(perms(true, true, None)), codes());
    f.resume(CopyAnswer::Resolved(Ok("/h/a".to_string())));
    f.resume(CopyAnswer::Resolved(Ok("/h/x/b".to_string())));
    let fail = IoFailure { kind: IoErrorKind::Other, raw: Some(13), text: "denied".to_string() };
    let step = f.resume(CopyAnswer::SourceMeta(Err(fail)));
    assert_eq!(status_of(step), (SSH_FX_PERMISSION_DENIED, "Permission denied: denied".to_string()));

    let (mut f, _) = CopyFlow::start(7, args("a", "b", false), Some(perms(true, true, None)), codes());
    f.resume(CopyAnswer::Resolved(Ok("/h/a".to_string())));
    f.resume(CopyAnswer::Resolved(Ok("/h/x/b".to_string())));
    f.resume(CopyAnswer::SourceMeta(Ok((true, false, 1))));
    let step = f.resume(CopyAnswer::ParentExists(Ok(false)));
    assert_eq!(status_of(step), (SSH_FX_NO_SUCH_FILE, "Destination directory does not exist".to_string()));

    let (mut f, _) = CopyFlow::start(8, args("a", "b", false), Some(perms(true, true, None)), codes());
    let step = f.resume(CopyAnswer::Resolved(Err("outside home".to_string())));
    assert_eq!(status_of(step), (SSH_FX_FAILURE, "Source path resolution failed: outside home".to_string()));
    assert_eq!(parent_of("/"), None);
    assert_eq!(parent_of("/a"), Some("/".to_string()));
    assert_eq!(parent_of("a"), Some(String::new()));
}

#[test]
fn accept_loop_stops_after_ten_failures_in_a_row() {
    let mut l = AcceptLoop::new();
    let mut pauses = Vec::new();
    for _ in 0..9 {
        match l.on_error() {
            AcceptRetry::PauseMs(ms) => pauses.push(ms),
            AcceptRetry::Stop => panic!("stopped early"),
        }
    }
    assert_eq!(pauses, vec![100, 200, 400, 800, 1600, 3200, 5000, 5000, 5000]);
    assert_eq!(l.on_error(), AcceptRetry::Stop);
    let mut l = AcceptLoop::new();
    l.on_error();
    assert_eq!(l.on_accepted(false, true), AcceptDecision::RejectedByFilter);
    assert_eq!(l, AcceptLoop::new());
    assert_eq!(l.on_accepted(true, false), AcceptDecision::RejectedFull);
    assert_eq!(l.on_accepted(true, true), AcceptDecision::Serve);
}

fn form(anon: bool, home: &str) -> FtpForm {
    FtpForm {
        enabled: true,
        allow_anonymous: anon,
        bind_ip: String::new(),
        port: 21,
        passive_start: 50100,
        passive_end: 50000,
        welcome: "hi".to_string(),
        anonymous_home: home.to_string(),
        max_speed_kbps: 0,
        encoding: None,
        masquerade_ip: "  1.2.3.4 ".to_string(),
        max_connections: 10,
        idle_timeout: 300,
    }
}

#[test]
fn ftp_settings_form_rules() {
    assert!(matches!(ftp_settings_from_form(form(true, "  "), true, true), Err(FtpFormError::AnonymousHomeMissing)));
    assert!(matches!(ftp_settings_from_form(form(true, "/pub"), false, false), Err(FtpFormError::AnonymousHomeNotFound)));
    assert!(matches!(ftp_settings_from_form(form(true, "/pub"), true, false), Err(FtpFormError::AnonymousHomeNotDirectory)));
    let c = match ftp_settings_from_form(form(false, ""), false, false) {
        Ok(c) => c,
        Err(_) => panic!("saved"),
    };
    assert_eq!(c.bind_ip, "0.0.0.0");
    assert_eq!(c.passive_ports, (50000, 50100));
    assert_eq!(c.anonymous_home, None);
    assert_eq!(c.encoding, "UTF-8");
    assert_eq!(c.masquerade_ip.as_deref(), Some("1.2.3.4"));
    assert_eq!((c.port, c.max_connections, c.idle_timeout), (21, 10, 300));
}

#[test]
fn stou_begins_within_home_and_names_the_file_at_the_end() {
    let s = session("/srv/u", 0);
    assert_eq!(s.stou_begin("ftp_1"), Ok("150 FILE: ftp_1\r\n".to_string()));
    let mut out = session("/srv/u", 0);
    out.cwd = "/srv".to_string();
    assert_eq!(out.stou_begin("ftp_1"), Err("550 Permission denied\r\n".to_string()));
    assert_eq!(stou_end(true, CopyEnd::Complete, "ftp_1"), "226 Transfer complete, file: ftp_1\r\n");
    assert_eq!(stou_end(true, CopyEnd::WriteFailed, "ftp_1"), "451 Transfer failed\r\n");
    assert_eq!(stou_end(false, CopyEnd::Complete, "ftp_1"), "425 Cannot open data connection\r\n");
}

#[test]
fn logins_check_in_order_and_record_the_user() {
    let mut st = SftpAuthState::new();
    let (d, m) = st.publickey_login("bad name", Some(true), true, "/h", HomeMeta::Directory, Ok("/h"));
    assert_eq!((d, m), (AuthDecision::Reject, None));
    assert!(!st.authenticated);
    let (d, _) = st.publickey_login("alice", Some(false), true, "/h", HomeMeta::Directory, Ok("/h"));
    assert_eq!(d, AuthDecision::Reject);
    let (d, _) = st.publickey_login("alice", Some(true), false, "/h", HomeMeta::Directory, Ok("/h"));
    assert_eq!(d, AuthDecision::Reject);
    assert!(!st.authenticated && st.username.is_none());
    let (d, m) = st.publickey_login("alice", Some(true), true, "/h", HomeMeta::NotDirectory, Ok("/h"));
    assert_eq!(d, AuthDecision::Reject);
    assert_eq!(m.as_deref(), Some("home path '/h' is not a directory"));
    assert!(st.authenticated && st.home_dir.is_none());
    let mut st = SftpAuthState::new();
    let (d, _) = st.publickey_login("alice", Some(true), true, "/h", HomeMeta::Directory, Ok("/real/h"));
    assert_eq!(d, AuthDecision::Accept);
    assert!(st.authenticated);
    assert_eq!(st.username.as_deref(), Some("alice"));
    assert_eq!(st.home_dir.as_deref(), Some("/real/h"));
    let mut st = SftpAuthState::new();
    assert_eq!(st.password_login("bob", false, Some("/h"), HomeMeta::Directory, Ok("/h")).0, AuthDecision::Reject);
    assert!(!st.authenticated);
    assert_eq!(st.password_login("bob", true, None, HomeMeta::Directory, Ok("/h")).0, AuthDecision::Reject);
    assert!(st.authenticated);
    let mut st = SftpAuthState::new();
    assert_eq!(st.password_login("bob", true, Some("/h"), HomeMeta::Directory, Ok("/h")).0, AuthDecision::Accept);
    assert_eq!(st.home_dir.as_deref(), Some("/h"));
}

#[test]
fn user_dialog_plans() {
    let p = perms(true, false, Some(5));
    assert!(matches!(user_dialog_plan("", "pw", "", false, p, None), UserPlan::Ignore));
    assert!(matches!(user_dialog_plan("ann", "", "", false, p, None), UserPlan::Ignore));
    match user_dialog_plan("ann", "", "", true, p, Some("/home/me")) {
        UserPlan::Update(n, pw, h, q) => {
            assert_eq!(n, "ann");
            assert_eq!(pw, None);
            assert_eq!(h, "/home/me/Desktop/文件共享");
            assert_eq!(q, p);
        }
        _ => panic!("update"),
    }
    match user_dialog_plan("ann", "pw", "/srv/ann", false, p, None) {
        UserPlan::Create(n, pw, h, _) => assert_eq!((n.as_str(), pw.as_str(), h.as_str()), ("ann", "pw", "/srv/ann")),
        _ => panic!("create"),
    }
}

#[test]
fn empty_logs_accept_any_count() {
    assert!(tail_lines(Vec::new(), usize::MAX).is_empty());
    assert!(read_program_log(Some(Vec::new()), usize::MAX).is_empty());
    assert!(read_file_op_log(Some(Vec::new()), usize::MAX).is_empty());
}
