//! Texts shown by the control panel: operation names, the suggested home directory
//! of a new user, and the recent-log view.

use vstd::prelude::*;
use crate::sftp::access::Permissions;
use crate::text::{chars_to_string, push_str, spec_trim, str_eq, str_to_chars, trim_chars};

verus! {

/// The name shown for an audit-log operation; unknown operations are shown as they are.
pub open spec fn spec_operation_display(op: Seq<char>) -> Seq<char> {
    if op == "UPLOAD"@ {
        "上传"@
    } else if op == "DOWNLOAD"@ {
        "下载"@
    } else if op == "UPDATE"@ {
        "更新"@
    } else if op == "DELETE"@ {
        "删除"@
    } else if op == "RENAME"@ {
        "重命名"@
    } else if op == "MKDIR"@ {
        "创建目录"@
    } else if op == "RMDIR"@ {
        "删除目录"@
    } else if op == "APPEND"@ {
        "追加"@
    } else if op == "COPY"@ {
        "复制"@
    } else if op == "SYMLINK"@ {
        "符号链接"@
    } else if op == "HARDLINK"@ {
        "硬链接"@
    } else {
        op
    }
}

pub fn get_operation_display(op: &str) -> (r: String)
    ensures
        r@ == spec_operation_display(op@),
{
    let shown: &str = if str_eq(op, "UPLOAD") {
        "上传"
    } else if str_eq(op, "DOWNLOAD") {
        "下载"
    } else if str_eq(op, "UPDATE") {
        "更新"
    } else if str_eq(op, "DELETE") {
        "删除"
    } else if str_eq(op, "RENAME") {
        "重命名"
    } else if str_eq(op, "MKDIR") {
        "创建目录"
    } else if str_eq(op, "RMDIR") {
        "删除目录"
    } else if str_eq(op, "APPEND") {
        "追加"
    } else if str_eq(op, "COPY") {
        "复制"
    } else if str_eq(op, "SYMLINK") {
        "符号链接"
    } else if str_eq(op, "HARDLINK") {
        "硬链接"
    } else {
        op
    };
    shown.to_owned()
}

/// The shared folder suggested as a new user's home: on the desktop of `$HOME` when it
/// is set, else on the desktop under `/home/<username>`.
pub open spec fn spec_default_home_dir(home: Option<Seq<char>>, username: Seq<char>) -> Seq<char> {
    match home {
        Some(h) => h + "/Desktop/文件共享"@,
        None => "/home/"@ + username + "/Desktop/文件共享"@,
    }
}

/// `home` is the value of `$HOME`, if it is set.
pub fn get_default_home_dir(home: Option<&str>, username: &str) -> (r: String)
    ensures
        r@ == spec_default_home_dir(
            match home {
                Some(h) => Some(h@),
                None => None,
            },
            username@,
        ),
{
    let mut out: Vec<char> = Vec::new();
    match home {
        Some(h) => {
            push_str(&mut out, h);
        },
        None => {
            push_str(&mut out, "/home/");
            push_str(&mut out, username);
        },
    }
    push_str(&mut out, "/Desktop/文件共享");
    chars_to_string(out.as_slice())
}

/// A recent program-log entry, its time already written out.
pub struct RecentLogEntry {
    pub time: String,
    pub level: String,
    pub source: String,
    pub message: String,
    pub action: Option<String>,
}

/// The line of the log view for an entry.
pub open spec fn entry_line(e: RecentLogEntry) -> Seq<char> {
    "["@ + e.time@ + "] "@ + e.level@ + " - "@ + e.source@ + " - "@ + e.message@ + " - "@
        + match e.action {
        Some(a) => a@,
        None => Seq::<char>::empty(),
    } + "\n"@
}

pub open spec fn entry_lines(es: Seq<RecentLogEntry>) -> Seq<char>
    decreases es.len(),
{
    if es.len() == 0 {
        Seq::empty()
    } else {
        entry_lines(es.drop_last()) + entry_line(es.last())
    }
}

/// The log view: a line per entry; a notice when there are none, or when the log
/// could not be read (`None`).
pub open spec fn spec_log_view(entries: Option<Seq<RecentLogEntry>>) -> Seq<char> {
    match entries {
        None => "无法获取日志"@,
        Some(es) => if es.len() == 0 {
            "暂无日志记录"@
        } else {
            entry_lines(es)
        },
    }
}

pub fn format_log_entries(entries: Option<&Vec<RecentLogEntry>>) -> (r: String)
    ensures
        r@ == spec_log_view(
            match entries {
                Some(v) => Some(v@),
                None => None,
            },
        ),
{
    let es = match entries {
        Some(v) => v,
        None => {
            return "无法获取日志".to_owned();
        },
    };
    if es.len() == 0 {
        return "暂无日志记录".to_owned();
    }
    let mut out: Vec<char> = Vec::new();
    let mut i: usize = 0;
    assert(es@.take(0) =~= Seq::<RecentLogEntry>::empty());
    while i < es.len()
        invariant
            i <= es@.len(),
            out@ == entry_lines(es@.take(i as int)),
        decreases es.len() - i,
    {
        let e = &es[i];
        let ghost before = out@;
        push_str(&mut out, "[");
        push_str(&mut out, e.time.as_str());
        push_str(&mut out, "] ");
        push_str(&mut out, e.level.as_str());
        push_str(&mut out, " - ");
        push_str(&mut out, e.source.as_str());
        push_str(&mut out, " - ");
        push_str(&mut out, e.message.as_str());
        push_str(&mut out, " - ");
        match &e.action {
            Some(a) => {
                push_str(&mut out, a.as_str());
            },
            None => {},
        }
        push_str(&mut out, "\n");
        assert(es@.take(i + 1).drop_last() =~= es@.take(i as int));
        assert(out@ =~= before + entry_line(*e));
        i = i + 1;
    }
    assert(es@.take(es@.len() as int) =~= es@);
    chars_to_string(out.as_slice())
}

/// The status shown beside the anonymous home directory: whether anonymous access is
/// on, the directory named, existing, and a directory.
pub open spec fn spec_anonymous_home_status(allow_anon: bool, home: Seq<char>, exists: bool, is_dir: bool) -> Seq<char> {
    if !allow_anon {
        "<span foreground='gray' size='small'>匿名访问未启用</span>"@
    } else if spec_trim(home).len() == 0 {
        "<span foreground='red' size='small'>⚠ 启用匿名访问必须配置匿名用户目录</span>"@
    } else if !exists {
        "<span foreground='red' size='small'>⚠ 目录不存在: "@ + home + "</span>"@
    } else if !is_dir {
        "<span foreground='red' size='small'>⚠ 路径不是目录: "@ + home + "</span>"@
    } else {
        "<span foreground='green' size='small'>✓ 目录有效</span>"@
    }
}

/// `exists` and `is_dir` describe the path `home` names.
pub fn anonymous_home_status(allow_anon: bool, home: &str, exists: bool, is_dir: bool) -> (r: String)
    ensures
        r@ == spec_anonymous_home_status(allow_anon, home@, exists, is_dir),
{
    if !allow_anon {
        return "<span foreground='gray' size='small'>匿名访问未启用</span>".to_owned();
    }
    let raw = str_to_chars(home);
    let trimmed = trim_chars(raw.as_slice());
    if trimmed.len() == 0 {
        return "<span foreground='red' size='small'>⚠ 启用匿名访问必须配置匿名用户目录</span>".to_owned();
    }
    let mut out: Vec<char> = Vec::new();
    if !exists {
        push_str(&mut out, "<span foreground='red' size='small'>⚠ 目录不存在: ");
    } else if !is_dir {
        push_str(&mut out, "<span foreground='red' size='small'>⚠ 路径不是目录: ");
    } else {
        return "<span foreground='green' size='small'>✓ 目录有效</span>".to_owned();
    }
    push_str(&mut out, home);
    push_str(&mut out, "</span>");
    chars_to_string(out.as_slice())
}

/// Whether the current user may list and enter an existing directory: by the
/// permission bits of everyone, else of the owner when the user owns it, else of the
/// group when the user is in it, else of everyone again.
pub open spec fn spec_dir_accessible(mode: u32, file_uid: u32, file_gid: u32, uid: u32, groups: Seq<u32>) -> bool {
    let world = mode & 0o004 != 0 && mode & 0o001 != 0;
    if world {
        true
    } else if file_uid == uid {
        mode & 0o400 != 0 && mode & 0o100 != 0
    } else if groups.contains(file_gid) {
        mode & 0o040 != 0 && mode & 0o010 != 0
    } else {
        world
    }
}

pub fn dir_accessible(mode: u32, file_uid: u32, file_gid: u32, uid: u32, groups: &Vec<u32>) -> (r: bool)
    ensures
        r == spec_dir_accessible(mode, file_uid, file_gid, uid, groups@),
{
    let world = mode & 0o004 != 0 && mode & 0o001 != 0;
    if world {
        return true;
    }
    if file_uid == uid {
        return mode & 0o400 != 0 && mode & 0o100 != 0;
    }
    let mut i: usize = 0;
    while i < groups.len()
        invariant
            i <= groups@.len(),
            forall|j: int| 0 <= j < i ==> groups@[j] != file_gid,
            !world,
            world == (mode & 0o004 != 0 && mode & 0o001 != 0),
            file_uid != uid,
        decreases groups.len() - i,
    {
        if groups[i] == file_gid {
            assert(groups@[i as int] == file_gid);
            assert(groups@.contains(file_gid));
            return mode & 0o040 != 0 && mode & 0o010 != 0;
        }
        i = i + 1;
    }
    assert(!groups@.contains(file_gid));
    world
}

/// What was found of the candidate shared directories: `$HOME` (if set), then whether
/// each of home, its `Desktop`, `Documents`, `Downloads` and `Desktop/文件共享`, and
/// `/var/lib/wftpg/share` exists and is accessible (home itself is only checked for
/// access).
pub struct DirProbe {
    pub home: Option<String>,
    pub home_ok: bool,
    pub desktop_ok: bool,
    pub documents_ok: bool,
    pub downloads_ok: bool,
    pub share_ok: bool,
    pub var_share_ok: bool,
}

/// A suggested directory: its path, what it is, and the access it gives.
pub struct Suggestion {
    pub path: String,
    pub label: String,
    pub access: String,
}

pub open spec fn suggestion_view(s: Suggestion) -> (Seq<char>, Seq<char>) {
    (s.path@, s.label@)
}

pub open spec fn rw(path: Seq<char>, label: Seq<char>) -> Seq<(Seq<char>, Seq<char>)> {
    seq![(path, label)]
}

pub open spec fn when(c: bool, s: Seq<(Seq<char>, Seq<char>)>) -> Seq<(Seq<char>, Seq<char>)> {
    if c {
        s
    } else {
        Seq::empty()
    }
}

/// The directories suggested for sharing, in order; `/tmp` when none qualifies. The
/// default shared folder under the desktop is suggested, to be created, when it does
/// not qualify but home does.
pub open spec fn spec_suggestions(p: DirProbe) -> Seq<(Seq<char>, Seq<char>)> {
    let from_home = match p.home {
        None => Seq::empty(),
        Some(h) => {
            let h = h@;
            when(p.home_ok, rw(h, "用户主目录"@)) + when(p.desktop_ok, rw(h + "/Desktop"@, "桌面"@)) + when(
                p.documents_ok,
                rw(h + "/Documents"@, "文档"@),
            ) + when(p.downloads_ok, rw(h + "/Downloads"@, "下载"@)) + if p.share_ok {
                rw(h + "/Desktop/文件共享"@, "默认共享目录"@)
            } else {
                when(p.home_ok, rw(h + "/Desktop/文件共享"@, "默认共享目录(待创建)"@))
            }
        },
    };
    let all = from_home + when(p.var_share_ok, rw("/var/lib/wftpg/share"@, "系统共享目录"@));
    if all.len() == 0 {
        rw("/tmp"@, "临时目录"@)
    } else {
        all
    }
}

fn suggest(out: &mut Vec<Suggestion>, path: String, label: &str)
    ensures
        final(out)@ == old(out)@.push(final(out)@.last()),
        suggestion_view(final(out)@.last()) == (path@, label@),
        final(out)@.last().access@ == "读写"@,
{
    out.push(Suggestion { path, label: label.to_owned(), access: "读写".to_owned() });
}

fn joined_path(base: &str, suffix: &str) -> (r: String)
    ensures
        r@ == base@ + suffix@,
{
    let mut p: Vec<char> = Vec::new();
    push_str(&mut p, base);
    push_str(&mut p, suffix);
    chars_to_string(p.as_slice())
}

pub open spec fn suggestion_views(v: Seq<Suggestion>) -> Seq<(Seq<char>, Seq<char>)> {
    v.map_values(|s: Suggestion| suggestion_view(s))
}

proof fn lemma_views_push(v: Seq<Suggestion>, x: Suggestion)
    ensures
        suggestion_views(v.push(x)) =~= suggestion_views(v).push(suggestion_view(x)),
{
}

/// Paths are joined as `Path::join` does for these relative names.
pub fn get_suggested_directories(p: &DirProbe) -> (r: Vec<Suggestion>)
    ensures
        suggestion_views(r@) == spec_suggestions(*p),
        forall|i: int| 0 <= i < r@.len() ==> (#[trigger] r@[i]).access@ == "读写"@,
{
    let mut out: Vec<Suggestion> = Vec::new();
    let ghost mut acc: Seq<(Seq<char>, Seq<char>)> = Seq::empty();
    assert(suggestion_views(out@) =~= acc);
    match &p.home {
        Some(h) => {
            let hs = h.as_str();
            if p.home_ok {
                let ghost o = out@;
                suggest(&mut out, h.clone(), "用户主目录");
                proof {
                    lemma_views_push(o, out@.last());
                }
            }
            proof {
                acc = when(p.home_ok, rw(h@, "用户主目录"@));
            }
            assert(suggestion_views(out@) =~= acc);
            if p.desktop_ok {
                let ghost o = out@;
                suggest(&mut out, joined_path(hs, "/Desktop"), "桌面");
                proof {
                    lemma_views_push(o, out@.last());
                }
            }
            proof {
                acc = acc + when(p.desktop_ok, rw(h@ + "/Desktop"@, "桌面"@));
            }
            assert(suggestion_views(out@) =~= acc);
            if p.documents_ok {
                let ghost o = out@;
                suggest(&mut out, joined_path(hs, "/Documents"), "文档");
                proof {
                    lemma_views_push(o, out@.last());
                }
            }
            proof {
                acc = acc + when(p.documents_ok, rw(h@ + "/Documents"@, "文档"@));
            }
            assert(suggestion_views(out@) =~= acc);
            if p.downloads_ok {
                let ghost o = out@;
                suggest(&mut out, joined_path(hs, "/Downloads"), "下载");
                proof {
                    lemma_views_push(o, out@.last());
                }
            }
            proof {
                acc = acc + when(p.downloads_ok, rw(h@ + "/Downloads"@, "下载"@));
            }
            assert(suggestion_views(out@) =~= acc);
            if p.share_ok {
                let ghost o = out@;
                suggest(&mut out, joined_path(hs, "/Desktop/文件共享"), "默认共享目录");
                proof {
                    lemma_views_push(o, out@.last());
                }
            } else if p.home_ok {
                let ghost o = out@;
                suggest(&mut out, joined_path(hs, "/Desktop/文件共享"), "默认共享目录(待创建)");
                proof {
                    lemma_views_push(o, out@.last());
                }
            }
            proof {
                acc = acc + if p.share_ok {
                    rw(h@ + "/Desktop/文件共享"@, "默认共享目录"@)
                } else {
                    when(p.home_ok, rw(h@ + "/Desktop/文件共享"@, "默认共享目录(待创建)"@))
                };
            }
            assert(suggestion_views(out@) =~= acc);
        },
        None => {},
    }
    if p.var_share_ok {
        let ghost o = out@;
        suggest(&mut out, "/var/lib/wftpg/share".to_owned(), "系统共享目录");
        proof {
            lemma_views_push(o, out@.last());
        }
    }
    proof {
        acc = acc + when(p.var_share_ok, rw("/var/lib/wftpg/share"@, "系统共享目录"@));
    }
    assert(suggestion_views(out@) =~= acc);
    if out.len() == 0 {
        let ghost o = out@;
        suggest(&mut out, "/tmp".to_owned(), "临时目录");
        proof {
            lemma_views_push(o, out@.last());
        }
        assert(suggestion_views(out@) =~= rw("/tmp"@, "临时目录"@));
    }
    out
}

/// The FTP settings as the settings form holds them.
pub struct FtpForm {
    pub enabled: bool,
    pub allow_anonymous: bool,
    pub bind_ip: String,
    pub port: u16,
    pub passive_start: u16,
    pub passive_end: u16,
    pub welcome: String,
    pub anonymous_home: String,
    pub max_speed_kbps: u64,
    /// The encoding chosen, if any.
    pub encoding: Option<String>,
    pub masquerade_ip: String,
    pub max_connections: usize,
    pub idle_timeout: u64,
}

/// The FTP settings to save.
pub struct FtpSettings {
    pub enabled: bool,
    pub allow_anonymous: bool,
    pub bind_ip: String,
    pub port: u16,
    pub passive_ports: (u16, u16),
    pub welcome: String,
    pub anonymous_home: Option<String>,
    pub max_speed_kbps: u64,
    pub encoding: String,
    pub masquerade_ip: Option<String>,
    pub max_connections: usize,
    pub idle_timeout: u64,
}

/// Why the FTP settings cannot be saved: with anonymous access on, its directory must
/// be given, exist, and be a directory.
#[derive(Clone, Copy, Debug, PartialEq, Eq, Structural)]
pub enum FtpFormError {
    AnonymousHomeMissing,
    AnonymousHomeNotFound,
    AnonymousHomeNotDirectory,
}

pub open spec fn spec_min_u16(a: u16, b: u16) -> u16 {
    if a <= b { a } else { b }
}

pub open spec fn spec_max_u16(a: u16, b: u16) -> u16 {
    if a <= b { b } else { a }
}

/// The refusal of a settings form, if any; `home_exists` and `home_is_dir` describe the
/// anonymous directory on disk.
pub open spec fn spec_ftp_form_refusal(f: FtpForm, home_exists: bool, home_is_dir: bool) -> Option<FtpFormError> {
    if !f.allow_anonymous {
        None
    } else if spec_trim(f.anonymous_home@).len() == 0 {
        Some(FtpFormError::AnonymousHomeMissing)
    } else if !home_exists {
        Some(FtpFormError::AnonymousHomeNotFound)
    } else if !home_is_dir {
        Some(FtpFormError::AnonymousHomeNotDirectory)
    } else {
        None
    }
}

/// Turns the settings form into the settings to save, or refuses it (see
/// `spec_ftp_form_refusal`). An empty bind address means every address (`0.0.0.0`);
/// the passive range is put in order; an empty anonymous directory and a blank
/// external address are left unset (the external address is kept trimmed); without a
/// chosen encoding it is `UTF-8`.
pub fn ftp_settings_from_form(f: FtpForm, home_exists: bool, home_is_dir: bool) -> (r: Result<FtpSettings, FtpFormError>)
    ensures
        match spec_ftp_form_refusal(f, home_exists, home_is_dir) {
            Some(e) => r == Err::<FtpSettings, FtpFormError>(e),
            None => r matches Ok(c) && {
                &&& c.enabled == f.enabled && c.allow_anonymous == f.allow_anonymous
                &&& c.bind_ip@ == (if f.bind_ip@.len() == 0 { "0.0.0.0"@ } else { f.bind_ip@ })
                &&& c.port == f.port
                &&& c.passive_ports == (spec_min_u16(f.passive_start, f.passive_end), spec_max_u16(f.passive_start, f.passive_end))
                &&& c.welcome@ == f.welcome@
                &&& (if f.anonymous_home@.len() == 0 { c.anonymous_home is None } else { c.anonymous_home matches Some(h) && h@ == f.anonymous_home@ })
                &&& c.max_speed_kbps == f.max_speed_kbps
                &&& c.encoding@ == (match f.encoding { Some(e) => e@, None => "UTF-8"@ })
                &&& (if spec_trim(f.masquerade_ip@).len() == 0 { c.masquerade_ip is None } else { c.masquerade_ip matches Some(m) && m@ == spec_trim(f.masquerade_ip@) })
                &&& c.max_connections == f.max_connections && c.idle_timeout == f.idle_timeout
            },
        },
{
    if f.allow_anonymous {
        let h = trim_chars(str_to_chars(f.anonymous_home.as_str()).as_slice());
        if h.len() == 0 {
            return Err(FtpFormError::AnonymousHomeMissing);
        }
        if !home_exists {
            return Err(FtpFormError::AnonymousHomeNotFound);
        }
        if !home_is_dir {
            return Err(FtpFormError::AnonymousHomeNotDirectory);
        }
    }
    let bind_ip = if f.bind_ip.as_str().unicode_len() == 0 { "0.0.0.0".to_owned() } else { f.bind_ip };
    let lo = if f.passive_start <= f.passive_end { f.passive_start } else { f.passive_end };
    let hi = if f.passive_start <= f.passive_end { f.passive_end } else { f.passive_start };
    let anonymous_home = if f.anonymous_home.as_str().unicode_len() == 0 { None } else { Some(f.anonymous_home) };
    let encoding = match f.encoding {
        Some(e) => e,
        None => "UTF-8".to_owned(),
    };
    let m = trim_chars(str_to_chars(f.masquerade_ip.as_str()).as_slice());
    let masquerade_ip = if m.len() == 0 { None } else { Some(chars_to_string(m.as_slice())) };
    Ok(FtpSettings {
        enabled: f.enabled,
        allow_anonymous: f.allow_anonymous,
        bind_ip,
        port: f.port,
        passive_ports: (lo, hi),
        welcome: f.welcome,
        anonymous_home,
        max_speed_kbps: f.max_speed_kbps,
        encoding,
        masquerade_ip,
        max_connections: f.max_connections,
        idle_timeout: f.idle_timeout,
    })
}

/// What the user dialog's answer leads to.
pub enum UserPlan {
    /// Nothing is saved.
    Ignore,
    /// An existing user: the password is changed only when one was given; the home
    /// directory and the permissions are set.
    Update(String, Option<String>, String, Permissions),
    /// A new user with its password and home directory: once added, its permissions are
    /// set and its home directory is created.
    Create(String, String, String, Permissions),
}

/// The home directory a dialog saves: the one entered, else the default one.
pub open spec fn spec_dialog_home(home: Seq<char>, env_home: Option<Seq<char>>, name: Seq<char>) -> Seq<char> {
    if home.len() == 0 {
        spec_default_home_dir(env_home, name)
    } else {
        home
    }
}

/// The permissions a dialog saves: as checked, without a speed limit.
pub open spec fn spec_dialog_perms(p: Permissions) -> Permissions {
    Permissions { speed_limit_kbps: None, ..p }
}

/// Decides what the user dialog saves when confirmed: nothing without a name, nor for
/// a new user without a password; an edit keeps the password when the entry is empty;
/// an empty home directory means the default one (`env_home`: the value of `$HOME`).
pub fn user_dialog_plan(name: &str, password: &str, home: &str, is_edit: bool, perms: Permissions, env_home: Option<&str>) -> (r: UserPlan)
    ensures
        name@.len() == 0 ==> r is Ignore,
        name@.len() > 0 && !is_edit && password@.len() == 0 ==> r is Ignore,
        name@.len() > 0 && is_edit ==> (r matches UserPlan::Update(n, pw, h, p) && n@ == name@
            && (if password@.len() == 0 { pw is None } else { pw matches Some(x) && x@ == password@ })
            && h@ == spec_dialog_home(home@, match env_home { Some(e) => Some(e@), None => None }, name@)
            && p == spec_dialog_perms(perms)),
        name@.len() > 0 && !is_edit && password@.len() > 0 ==> (r matches UserPlan::Create(n, pw, h, p) && n@ == name@
            && pw@ == password@
            && h@ == spec_dialog_home(home@, match env_home { Some(e) => Some(e@), None => None }, name@)
            && p == spec_dialog_perms(perms)),
{
    if name.unicode_len() == 0 {
        return UserPlan::Ignore;
    }
    let home_dir = if home.unicode_len() == 0 { get_default_home_dir(env_home, name) } else { home.to_owned() };
    let p = Permissions { speed_limit_kbps: None, ..perms };
    if is_edit {
        let pw = if password.unicode_len() == 0 { None } else { Some(password.to_owned()) };
        UserPlan::Update(name.to_owned(), pw, home_dir, p)
    } else if password.unicode_len() == 0 {
        UserPlan::Ignore
    } else {
        UserPlan::Create(name.to_owned(), password.to_owned(), home_dir, p)
    }
}

} // verus!
