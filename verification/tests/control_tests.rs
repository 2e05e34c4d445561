use wftpg::control::{
    audit_line, both, create_dir_reply, dir_permissions_reply, directories_reply, file_op_source,
    log_config_change, log_config_reply, op_err, op_ok, service_op_reply, set_enabled, FileOpSource,
    ServiceOp,
};

#[test]
fn operation_replies_carry_their_message() {
    let ok = op_ok("done");
    assert!(ok.success);
    assert_eq!(ok.message, "done");
    let err = op_err("bad");
    assert!(!err.success);
    assert_eq!(err.message, "bad");
}

#[test]
fn starting_both_services_reports_the_first_failure() {
    assert_eq!(both(Ok(()), Ok(())), Ok(()));
    assert_eq!(both(Err("ftp".to_string()), Err("sftp".to_string())), Err("ftp".to_string()));
    assert_eq!(both(Ok(()), Err("sftp".to_string())), Err("sftp".to_string()));
    let r = service_op_reply(ServiceOp::Start, Ok(()));
    assert!(r.success);
    assert_eq!(r.message, "服务已启动");
    let r = service_op_reply(ServiceOp::Start, Err("port in use".to_string()));
    assert!(!r.success);
    assert_eq!(r.message, "启动失败: port in use");
    assert_eq!(service_op_reply(ServiceOp::Restart, Ok(())).message, "服务已重启");
    assert_eq!(service_op_reply(ServiceOp::Restart, Err("x".to_string())).message, "重启失败: x");
}

#[test]
fn directory_preparation_lists_failures() {
    let r = directories_reply(&Vec::new());
    assert!(r.success);
    assert_eq!(r.message, "用户目录已就绪");
    let r = directories_reply(&vec!["/a: denied".to_string(), "/b: full".to_string()]);
    assert!(!r.success);
    assert_eq!(r.message, "部分目录创建失败: /a: denied; /b: full");
    assert_eq!(create_dir_reply(Ok(())).message, "目录已创建");
    assert_eq!(create_dir_reply(Err("e".to_string())).message, "创建目录失败: e");
    assert_eq!(dir_permissions_reply(Ok(()), Ok(())).message, "目录权限已设置 (0755)");
    assert_eq!(dir_permissions_reply(Ok(()), Err("p".to_string())).message, "设置权限失败: p");
    assert_eq!(dir_permissions_reply(Err("c".to_string()), Ok(())).message, "创建目录失败: c");
}

#[test]
fn log_settings_changes_are_noticed() {
    let c = log_config_change("/var/log/a", "info", "/var/log/b", "info");
    assert!(c.dir_changed);
    assert!(!c.level_changed);
    assert_eq!(log_config_reply(false).message, "日志配置已保存");
    assert_eq!(log_config_reply(true).message, "日志配置已保存（日志目录变更将在服务重启后生效）");
}

#[test]
fn audit_lines_and_sources() {
    assert_eq!(audit_line("t", "u", "a", "x", "d"), "t | u | a | x | d\n");
    assert_eq!(file_op_source("current"), FileOpSource::Buffer);
    assert_eq!(file_op_source("/var/log/file-ops.log"), FileOpSource::File);
    assert_eq!(set_enabled(true, true), (true, false));
    assert_eq!(set_enabled(false, true), (true, true));
}
