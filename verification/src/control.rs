//! The answers of the daemon's control service: operation replies, the outcome of
//! starting and restarting services, directory preparation, log settings and GUI audit
//! lines.

use vstd::prelude::*;
use crate::text::{chars_to_string, push_str, str_eq};

verus! {

/// The reply to a control operation.
pub struct OpReply {
    pub success: bool,
    pub message: String,
}

pub fn op_ok(message: &str) -> (r: OpReply)
    ensures
        r.success,
        r.message@ == message@,
{
    OpReply { success: true, message: message.to_owned() }
}

pub fn op_err(message: &str) -> (r: OpReply)
    ensures
        !r.success,
        r.message@ == message@,
{
    OpReply { success: false, message: message.to_owned() }
}

/// The outcome of acting on both services: the first failure, if any.
pub open spec fn spec_both(ftp: Result<(), Seq<char>>, sftp: Result<(), Seq<char>>) -> Result<(), Seq<char>> {
    match ftp {
        Err(e) => Err(e),
        Ok(()) => sftp,
    }
}

pub open spec fn result_text(r: Result<(), String>) -> Result<(), Seq<char>> {
    match r {
        Ok(()) => Ok(()),
        Err(e) => Err(e@),
    }
}

pub fn both(ftp: Result<(), String>, sftp: Result<(), String>) -> (r: Result<(), String>)
    ensures
        result_text(r) == spec_both(result_text(ftp), result_text(sftp)),
{
    match ftp {
        Err(e) => Err(e),
        Ok(()) => sftp,
    }
}

/// Which control operation an outcome belongs to.
#[derive(Clone, Copy, Debug, PartialEq, Eq, Structural)]
pub enum ServiceOp {
    Start,
    Restart,
}

/// The reply to starting or restarting services: a fixed message on success, else the
/// failure after a prefix.
pub open spec fn spec_service_op_reply(op: ServiceOp, outcome: Result<(), Seq<char>>) -> (bool, Seq<char>) {
    match (op, outcome) {
        (ServiceOp::Start, Ok(())) => (true, "服务已启动"@),
        (ServiceOp::Start, Err(e)) => (false, "启动失败: "@ + e),
        (ServiceOp::Restart, Ok(())) => (true, "服务已重启"@),
        (ServiceOp::Restart, Err(e)) => (false, "重启失败: "@ + e),
    }
}

pub fn service_op_reply(op: ServiceOp, outcome: Result<(), String>) -> (r: OpReply)
    ensures
        (r.success, r.message@) == spec_service_op_reply(op, result_text(outcome)),
{
    match outcome {
        Ok(()) => match op {
            ServiceOp::Start => op_ok("服务已启动"),
            ServiceOp::Restart => op_ok("服务已重启"),
        },
        Err(e) => {
            let mut m: Vec<char> = Vec::new();
            match op {
                ServiceOp::Start => push_str(&mut m, "启动失败: "),
                ServiceOp::Restart => push_str(&mut m, "重启失败: "),
            }
            push_str(&mut m, e.as_str());
            let text = chars_to_string(m.as_slice());
            op_err(text.as_str())
        },
    }
}

/// Texts joined with `sep` between them.
pub open spec fn joined(parts: Seq<Seq<char>>, sep: Seq<char>) -> Seq<char>
    decreases parts.len(),
{
    if parts.len() == 0 {
        Seq::empty()
    } else if parts.len() == 1 {
        parts[0]
    } else {
        joined(parts.drop_last(), sep) + sep + parts.last()
    }
}

pub open spec fn texts_of(v: Seq<String>) -> Seq<Seq<char>> {
    v.map_values(|s: String| s@)
}

/// The reply to preparing the users' home directories, given the failures (one text
/// each).
pub open spec fn spec_directories_reply(failed: Seq<Seq<char>>) -> (bool, Seq<char>) {
    if failed.len() == 0 {
        (true, "用户目录已就绪"@)
    } else {
        (false, "部分目录创建失败: "@ + joined(failed, "; "@))
    }
}

pub fn directories_reply(failed: &Vec<String>) -> (r: OpReply)
    ensures
        (r.success, r.message@) == spec_directories_reply(texts_of(failed@)),
{
    if failed.len() == 0 {
        return op_ok("用户目录已就绪");
    }
    let ghost t = texts_of(failed@);
    let mut m: Vec<char> = Vec::new();
    push_str(&mut m, "部分目录创建失败: ");
    let ghost head = m@;
    let mut i: usize = 0;
    assert(t.take(0) =~= Seq::<Seq<char>>::empty());
    while i < failed.len()
        invariant
            i <= failed@.len(),
            t == texts_of(failed@),
            m@ == head + joined(t.take(i as int), "; "@),
        decreases failed.len() - i,
    {
        let ghost before = m@;
        assert(t.take(i + 1).drop_last() =~= t.take(i as int));
        assert(t.take(i + 1).last() == failed@[i as int]@);
        if i > 0 {
            push_str(&mut m, "; ");
        } else {
            assert(t.take(1) =~= seq![t[0]]);
        }
        push_str(&mut m, failed[i].as_str());
        i = i + 1;
    }
    assert(t.take(failed@.len() as int) =~= t);
    let text = chars_to_string(m.as_slice());
    op_err(text.as_str())
}

/// How the log settings changed when they were saved.
pub struct LogConfigChange {
    pub level_changed: bool,
    pub dir_changed: bool,
}

pub fn log_config_change(old_dir: &str, old_level: &str, new_dir: &str, new_level: &str) -> (r: LogConfigChange)
    ensures
        r.dir_changed == (old_dir@ != new_dir@),
        r.level_changed == (old_level@ != new_level@),
{
    LogConfigChange { dir_changed: !str_eq(old_dir, new_dir), level_changed: !str_eq(old_level, new_level) }
}

/// The reply to saving the log settings: a new log directory takes effect after a
/// restart, and the reply says so.
pub open spec fn spec_log_config_message(dir_changed: bool) -> Seq<char> {
    if dir_changed {
        "日志配置已保存"@ + "（日志目录变更将在服务重启后生效）"@
    } else {
        "日志配置已保存"@
    }
}

pub fn log_config_reply(dir_changed: bool) -> (r: OpReply)
    ensures
        r.success,
        r.message@ == spec_log_config_message(dir_changed),
{
    let mut m: Vec<char> = Vec::new();
    push_str(&mut m, "日志配置已保存");
    if dir_changed {
        push_str(&mut m, "（日志目录变更将在服务重启后生效）");
    }
    let text = chars_to_string(m.as_slice());
    op_ok(text.as_str())
}

/// A line of the GUI audit log: its fields separated by ` | `.
pub open spec fn spec_audit_line(
    timestamp: Seq<char>,
    user: Seq<char>,
    action: Seq<char>,
    target: Seq<char>,
    details: Seq<char>,
) -> Seq<char> {
    timestamp + " | "@ + user + " | "@ + action + " | "@ + target + " | "@ + details + "\n"@
}

pub fn audit_line(timestamp: &str, user: &str, action: &str, target: &str, details: &str) -> (r: String)
    ensures
        r@ == spec_audit_line(timestamp@, user@, action@, target@, details@),
{
    let mut m: Vec<char> = Vec::new();
    push_str(&mut m, timestamp);
    push_str(&mut m, " | ");
    push_str(&mut m, user);
    push_str(&mut m, " | ");
    push_str(&mut m, action);
    push_str(&mut m, " | ");
    push_str(&mut m, target);
    push_str(&mut m, " | ");
    push_str(&mut m, details);
    push_str(&mut m, "\n");
    chars_to_string(m.as_slice())
}

/// Where the file-operation entries asked for come from: `current` is the in-memory
/// buffer, anything else names a log file.
#[derive(Clone, Copy, Debug, PartialEq, Eq, Structural)]
pub enum FileOpSource {
    Buffer,
    File,
}

pub fn file_op_source(path: &str) -> (r: FileOpSource)
    ensures
        r == (if path@ == "current"@ {
            FileOpSource::Buffer
        } else {
            FileOpSource::File
        }),
{
    if str_eq(path, "current") {
        FileOpSource::Buffer
    } else {
        FileOpSource::File
    }
}

/// Setting a service's enabled flag: the new configuration, and whether it must be
/// saved (only when the flag changes).
pub fn set_enabled(current: bool, wanted: bool) -> (r: (bool, bool))
    ensures
        r.0 == wanted,
        r.1 == (current != wanted),
{
    (wanted, current != wanted)
}

/// The reply to creating a directory (`outcome` carries the error text).
pub open spec fn spec_create_dir_reply(outcome: Result<(), Seq<char>>) -> (bool, Seq<char>) {
    match outcome {
        Ok(()) => (true, "目录已创建"@),
        Err(e) => (false, "创建目录失败: "@ + e),
    }
}

pub fn create_dir_reply(outcome: Result<(), String>) -> (r: OpReply)
    ensures
        (r.success, r.message@) == spec_create_dir_reply(result_text(outcome)),
{
    match outcome {
        Ok(()) => op_ok("目录已创建"),
        Err(e) => {
            let mut m: Vec<char> = Vec::new();
            push_str(&mut m, "创建目录失败: ");
            push_str(&mut m, e.as_str());
            let text = chars_to_string(m.as_slice());
            op_err(text.as_str())
        },
    }
}

/// The reply to preparing a shared directory: creating it, then setting mode `0755`.
pub open spec fn spec_dir_permissions_reply(created: Result<(), Seq<char>>, chmod: Result<(), Seq<char>>) -> (bool, Seq<char>) {
    match created {
        Err(e) => (false, "创建目录失败: "@ + e),
        Ok(()) => match chmod {
            Err(e) => (false, "设置权限失败: "@ + e),
            Ok(()) => (true, "目录权限已设置 (0755)"@),
        },
    }
}

pub fn dir_permissions_reply(created: Result<(), String>, chmod: Result<(), String>) -> (r: OpReply)
    ensures
        (r.success, r.message@) == spec_dir_permissions_reply(result_text(created), result_text(chmod)),
{
    match created {
        Err(e) => create_dir_reply(Err(e)),
        Ok(()) => match chmod {
            Err(e) => {
                let mut m: Vec<char> = Vec::new();
                push_str(&mut m, "设置权限失败: ");
                push_str(&mut m, e.as_str());
                let text = chars_to_string(m.as_slice());
                op_err(text.as_str())
            },
            Ok(()) => op_ok("目录权限已设置 (0755)"),
        },
    }
}

} // verus!
