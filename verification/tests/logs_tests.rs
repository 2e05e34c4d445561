use wftpg::logs::{
    ensure_path_in_dir, list_log_files, parse_file_op_line, parse_log_level, parse_program_line,
    read_file_op_log, read_program_log, tail_lines, DirListing, LogLevel,
};

#[test]
fn test_parse_log_level() {
    let filter = parse_log_level("debug");
    assert!(filter.directives().contains("debug"));

    let filter = parse_log_level("info");
    assert!(filter.directives().contains("info"));

    let filter = parse_log_level("warn");
    assert!(filter.directives().contains("warn"));

    let filter = parse_log_level("error");
    assert!(filter.directives().contains("error"));

    let filter = parse_log_level("invalid");
    assert!(filter.directives().contains("info"));
}

#[test]
fn log_levels_are_read_case_insensitively() {
    assert_eq!(parse_log_level("WARNING").default, LogLevel::Warn);
    assert_eq!(parse_log_level("Off").default, LogLevel::Off);
    assert_eq!(parse_log_level("trace").default, LogLevel::Trace);
    assert_eq!(parse_log_level("nonsense").default, LogLevel::Info);
    assert_eq!(
        parse_log_level("debug").directives(),
        "debug,russh=info,russh-keys=warn,tokio=warn,runtime=warn"
    );
}

#[test]
fn test_parse_text_line() {
    let entry =
        parse_program_line("2026-09-05T10:00:00+08:00  INFO wftpd_ftp::server: FTP 服务已启动")
            .expect("parse ok");
    assert_eq!(entry.level, "INFO");
    assert_eq!(entry.source, "wftpd_ftp::server");
    assert_eq!(entry.message, "FTP 服务已启动");
}

#[test]
fn test_parse_json_line() {
    let line = r#"{"timestamp":"2026-09-05T10:00:00+08:00","level":"INFO","target":"wftpd","fields":{"message":"hello","client_ip":"1.2.3.4"}}"#;
    let entry = parse_program_line(line).expect("parse ok");
    assert_eq!(entry.source, "wftpd");
    assert_eq!(entry.message, "hello");
    assert_eq!(entry.client_ip.as_deref(), Some("1.2.3.4"));
}

#[test]
fn test_parse_file_op_line() {
    let line = r#"{"timestamp":"2026-09-05T10:00:00+08:00","fields":{"username":"u","client_ip":"1.2.3.4","operation":"UPLOAD","file_path":"/a","file_size":10,"protocol":"FTP","success":true,"message":"文件上传成功"}}"#;
    let entry = parse_file_op_line(line).expect("parse ok");
    assert_eq!(entry.operation, "UPLOAD");
    assert_eq!(entry.file_size, 10);
    assert!(entry.success);
    assert_eq!(entry.timestamp, "2026-09-05T10:00:00+08:00");
    assert_eq!(entry.username, "u");
    assert_eq!(entry.client_ip, "1.2.3.4");
    assert_eq!(entry.file_path, "/a");
    assert_eq!(entry.protocol, "FTP");
    assert_eq!(entry.message, "文件上传成功");
}

#[test]
fn program_lines_edge_cases() {
    assert!(parse_program_line("   ").is_none());
    assert!(parse_program_line("nospace").is_none());
    assert!(parse_program_line("t LEVEL").is_none());
    let e = parse_program_line("t  WARN no target here").unwrap();
    assert_eq!(e.level, "WARN");
    assert_eq!(e.source, "");
    assert_eq!(e.message, "no target here");
    let e = parse_program_line(r#"{"level":3}"#).unwrap();
    assert_eq!(e.level, "3");
    assert_eq!(e.timestamp, "");
    let e = parse_program_line(r#"{"timestamp":null}"#).unwrap();
    assert_eq!(e.level, "INFO");
    assert!(parse_file_op_line("not-json-line").is_none());
    let e = parse_file_op_line("[1,2]").unwrap();
    assert_eq!(e.operation, "");
    assert_eq!(e.file_size, 0);
}

#[test]
fn json_values_are_read_as_serde_json_prints_them() {
    let e = parse_program_line(r#"{"level":true,"target":{"a":[1, 2]},"timestamp":1.5}"#).unwrap();
    assert_eq!(e.level, "true");
    assert_eq!(e.source, r#"{"a":[1,2]}"#);
    assert_eq!(e.timestamp, "1.5");
    let e = parse_program_line(r#"{"fields":{"message":7,"username":"bob"}}"#).unwrap();
    assert_eq!(e.message, "");
    assert_eq!(e.username.as_deref(), Some("bob"));
    assert_eq!(e.client_ip, None);
    let e = parse_program_line("[1]  X y: z").unwrap();
    assert_eq!(e.level, "X");
    let f = parse_file_op_line(r#"  {"timestamp":5,"fields":{"file_size":-3,"success":"yes","username":"u","client_ip":"c","operation":"o","file_path":"p","protocol":"SFTP","message":"m"}}  "#).unwrap();
    assert_eq!(f.timestamp, "");
    assert_eq!(f.file_size, 0);
    assert!(!f.success);
    assert_eq!((f.username.as_str(), f.client_ip.as_str(), f.operation.as_str()), ("u", "c", "o"));
    assert_eq!((f.file_path.as_str(), f.protocol.as_str(), f.message.as_str()), ("p", "SFTP", "m"));
}

#[test]
fn read_program_log_returns_last_entries() {
    let lines: Vec<String> = (0..5)
        .map(|i| format!("2026-09-08T10:0{i}:00+08:00  INFO wftpd: line-{i}"))
        .collect();
    let entries = read_program_log(Some(lines.clone()), 3);
    assert_eq!(entries.len(), 3);
    assert_eq!(entries[0].message, "line-2", "最早的一条应为 line-2");
    assert_eq!(entries[2].message, "line-4");
    assert_eq!(read_program_log(Some(lines), 100).len(), 5);
}

#[test]
fn read_program_log_missing_file_returns_empty() {
    assert!(read_program_log(None, 10).is_empty());
}

#[test]
fn read_program_log_skips_unreadable_lines() {
    let lines = vec![
        "".to_string(),
        "nospace".to_string(),
        "t  WARN a::b: kept".to_string(),
        r#"{"message":"json","level":"ERROR"}"#.to_string(),
    ];
    let entries = read_program_log(Some(lines), 10);
    assert_eq!(entries.len(), 2);
    assert_eq!(entries[0].source, "a::b");
    assert_eq!(entries[1].level, "ERROR");
}

#[test]
fn tail_keeps_the_last_lines() {
    let lines: Vec<String> = (0..20).map(|i| i.to_string()).collect();
    assert_eq!(tail_lines(lines.clone(), 1), vec!["19".to_string()]);
    assert_eq!(tail_lines(lines.clone(), 0), Vec::<String>::new());
    assert_eq!(tail_lines(lines.clone(), 7), (13..20).map(|i| i.to_string()).collect::<Vec<_>>());
    assert_eq!(tail_lines(Vec::new(), 3), Vec::<String>::new());
}

#[test]
fn read_file_op_log_parses_json_lines() {
    let lines = vec![
        r#"{"timestamp":"t1","fields":{"username":"u1","client_ip":"ip","operation":"UPLOAD","file_path":"/a","file_size":1,"protocol":"FTP","success":true,"message":"ok"}}"#.to_string(),
        r#"{"timestamp":"t2","fields":{"username":"u2","client_ip":"ip","operation":"DELETE","file_path":"/b","file_size":0,"protocol":"FTP","success":false,"message":"nope"}}"#.to_string(),
        "not-json-line".to_string(),
    ];
    let entries = read_file_op_log(Some(lines.clone()), 10);
    assert_eq!(entries.len(), 2, "无法解析的行应被跳过");
    assert_eq!(entries[0].operation, "UPLOAD");
    assert_eq!(entries[1].operation, "DELETE");
    assert!(!entries[1].success);
    let last = read_file_op_log(Some(lines), 2);
    assert_eq!(last.len(), 1);
    assert_eq!(last[0].operation, "DELETE");
    assert!(read_file_op_log(None, 5).is_empty());
}

#[test]
fn list_log_files_filters_prefix_and_sorts_desc() {
    let entries: Vec<DirListing> = [
        "wftpg.2026-09-01.log",
        "wftpg.2026-09-05.log",
        "wftpg.2026-09-03.log",
        "file-ops.2026-09-05.log",
        "wftpg.2026-09-02.txt",
    ]
    .iter()
    .map(|n| DirListing { file_name: n.to_string(), is_file: true, path: format!("/logs/{n}") })
    .collect();
    let files = list_log_files(&entries, "wftpg");
    let names: Vec<&str> = files.iter().map(|f| f.name.as_str()).collect();
    assert_eq!(names, vec!["wftpg.2026-09-05", "wftpg.2026-09-03", "wftpg.2026-09-01"]);
    assert!(files[0].path.ends_with("wftpg.2026-09-05.log"));
}

#[test]
fn log_file_listing_edge_cases() {
    let entries = vec![
        DirListing { file_name: "wftpg.LOG".to_string(), is_file: true, path: "p1".to_string() },
        DirListing { file_name: "wftpg".to_string(), is_file: true, path: "p2".to_string() },
        DirListing { file_name: "wftpg.dir.log".to_string(), is_file: false, path: "p3".to_string() },
        DirListing { file_name: "wftpg.a.log".to_string(), is_file: true, path: "p4".to_string() },
        DirListing { file_name: "wftpg.log".to_string(), is_file: true, path: "p5".to_string() },
    ];
    let files = list_log_files(&entries, "wftpg");
    let v: Vec<(&str, &str)> = files.iter().map(|f| (f.name.as_str(), f.path.as_str())).collect();
    assert_eq!(v, vec![("wftpg.a", "p4"), ("wftpg", "p1"), ("wftpg", "p5")]);
}

#[test]
fn list_log_files_missing_dir_returns_empty() {
    // an unreadable directory is listed as having no entries
    assert!(list_log_files(&Vec::new(), "wftpg").is_empty());
}

#[test]
fn ensure_path_in_dir_accepts_inside_rejects_outside() {
    let dir = "/tmp/wftpd-logs-test";
    let inside = "/tmp/wftpd-logs-test/app.log";
    let outside = "/tmp/wftpd-outside-test.log";
    assert!(ensure_path_in_dir(inside, inside, dir).is_ok());
    let err = ensure_path_in_dir(outside, outside, dir).unwrap_err();
    assert_eq!(err, format!("path {outside} is outside log directory"));
}

#[test]
fn log_directory_is_compared_by_components() {
    assert!(ensure_path_in_dir("x", "/var/log/wftpd", "/var/log/wftpd").is_ok());
    assert!(ensure_path_in_dir("x", "/var/log/wftpd2/a.log", "/var/log/wftpd").is_err());
    assert!(ensure_path_in_dir("x", "/var/log/wftpd//a.log", "/var/log/wftpd/").is_ok());
    assert!(ensure_path_in_dir("x", "/var/log", "/var/log/wftpd").is_err());
}
