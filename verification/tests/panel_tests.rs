use wftpg::panel::{
    anonymous_home_status, dir_accessible, format_log_entries, get_default_home_dir,
    get_operation_display, get_suggested_directories, DirProbe, RecentLogEntry,
};
use wftpg::service::ServiceManager;

#[test]
fn operations_are_shown_by_name() {
    assert_eq!(get_operation_display("UPLOAD"), "上传");
    assert_eq!(get_operation_display("DOWNLOAD"), "下载");
    assert_eq!(get_operation_display("UPDATE"), "更新");
    assert_eq!(get_operation_display("DELETE"), "删除");
    assert_eq!(get_operation_display("RENAME"), "重命名");
    assert_eq!(get_operation_display("MKDIR"), "创建目录");
    assert_eq!(get_operation_display("RMDIR"), "删除目录");
    assert_eq!(get_operation_display("APPEND"), "追加");
    assert_eq!(get_operation_display("COPY"), "复制");
    assert_eq!(get_operation_display("SYMLINK"), "符号链接");
    assert_eq!(get_operation_display("HARDLINK"), "硬链接");
    assert_eq!(get_operation_display("upload"), "upload");
    assert_eq!(get_operation_display(""), "");
}

#[test]
fn default_home_follows_home_variable() {
    assert_eq!(get_default_home_dir(Some("/home/alice"), "bob"), "/home/alice/Desktop/文件共享");
    assert_eq!(get_default_home_dir(None, "bob"), "/home/bob/Desktop/文件共享");
}

#[test]
fn log_view_lists_entries_or_a_notice() {
    assert_eq!(format_log_entries(None), "无法获取日志");
    assert_eq!(format_log_entries(Some(&Vec::new())), "暂无日志记录");
    let entries = vec![
        RecentLogEntry {
            time: "2026-09-05 10:00:00".to_string(),
            level: "INFO".to_string(),
            source: "ftp".to_string(),
            message: "started".to_string(),
            action: Some("START".to_string()),
        },
        RecentLogEntry {
            time: "2026-09-05 10:00:01".to_string(),
            level: "WARN".to_string(),
            source: "sftp".to_string(),
            message: "slow".to_string(),
            action: None,
        },
    ];
    assert_eq!(
        format_log_entries(Some(&entries)),
        "[2026-09-05 10:00:00] INFO - ftp - started - START\n[2026-09-05 10:00:01] WARN - sftp - slow - \n"
    );
}

#[test]
fn anonymous_home_status_explains_the_problem() {
    assert_eq!(anonymous_home_status(false, "", false, false), "<span foreground='gray' size='small'>匿名访问未启用</span>");
    assert_eq!(
        anonymous_home_status(true, "  ", false, false),
        "<span foreground='red' size='small'>⚠ 启用匿名访问必须配置匿名用户目录</span>"
    );
    assert_eq!(
        anonymous_home_status(true, "/srv/anon", false, false),
        "<span foreground='red' size='small'>⚠ 目录不存在: /srv/anon</span>"
    );
    assert_eq!(
        anonymous_home_status(true, "/srv/anon", true, false),
        "<span foreground='red' size='small'>⚠ 路径不是目录: /srv/anon</span>"
    );
    assert_eq!(anonymous_home_status(true, "/srv/anon", true, true), "<span foreground='green' size='small'>✓ 目录有效</span>");
}

#[test]
fn directory_access_follows_permission_bits() {
    assert!(dir_accessible(0o755, 0, 0, 1000, &vec![]));
    assert!(dir_accessible(0o700, 1000, 0, 1000, &vec![]));
    assert!(!dir_accessible(0o300, 1000, 0, 1000, &vec![]));
    assert!(dir_accessible(0o750, 0, 50, 1000, &vec![50]));
    assert!(!dir_accessible(0o750, 0, 50, 1000, &vec![51]));
    assert!(!dir_accessible(0o700, 0, 50, 1000, &vec![50]));
}

#[test]
fn suggested_directories_follow_what_was_found() {
    let probe = DirProbe {
        home: Some("/home/u".to_string()),
        home_ok: true,
        desktop_ok: true,
        documents_ok: false,
        downloads_ok: true,
        share_ok: false,
        var_share_ok: true,
    };
    let got: Vec<(String, String)> = get_suggested_directories(&probe)
        .into_iter()
        .map(|s| {
            assert_eq!(s.access, "读写");
            (s.path, s.label)
        })
        .collect();
    let want: Vec<(String, String)> = [
        ("/home/u", "用户主目录"),
        ("/home/u/Desktop", "桌面"),
        ("/home/u/Downloads", "下载"),
        ("/home/u/Desktop/文件共享", "默认共享目录(待创建)"),
        ("/var/lib/wftpg/share", "系统共享目录"),
    ]
    .iter()
    .map(|(a, b)| (a.to_string(), b.to_string()))
    .collect();
    assert_eq!(got, want);
    let none = DirProbe {
        home: None,
        home_ok: false,
        desktop_ok: false,
        documents_ok: false,
        downloads_ok: false,
        share_ok: false,
        var_share_ok: false,
    };
    let got = get_suggested_directories(&none);
    assert_eq!(got.len(), 1);
    assert_eq!(got[0].path, "/tmp");
    assert_eq!(got[0].label, "临时目录");
}
