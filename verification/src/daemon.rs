//! The daemon's control decisions: routing commands from the control socket, the
//! replies they get, and bringing the services in line with their enabled flags.

use vstd::prelude::*;
use crate::text::{chars_to_string, push_str, str_eq};

verus! {

/// Which services a command is about.
#[derive(Clone, Copy, Debug, PartialEq, Eq, Structural)]
pub enum ServiceTarget {
    Ftp,
    Sftp,
    All,
}

/// What a control command asks for.
#[derive(Clone, Copy, Debug, PartialEq, Eq, Structural)]
pub enum DaemonRoute {
    Status,
    Start(ServiceTarget),
    Stop(ServiceTarget),
    Reload,
    UnknownCommand,
    UnknownService,
}

pub open spec fn spec_target(service: Option<Seq<char>>) -> Option<ServiceTarget> {
    let s = match service {
        Some(t) => t,
        None => "all"@,
    };
    if s == "ftp"@ {
        Some(ServiceTarget::Ftp)
    } else if s == "sftp"@ {
        Some(ServiceTarget::Sftp)
    } else if s == "all"@ {
        Some(ServiceTarget::All)
    } else {
        None
    }
}

pub open spec fn opt_text(o: Option<&str>) -> Option<Seq<char>> {
    match o {
        Some(s) => Some(s@),
        None => None,
    }
}

/// Routes a command: `status`, `start`, `stop` and `reload`; start and stop take the
/// service `ftp`, `sftp` or `all` (the default).
pub open spec fn spec_route(action: Seq<char>, service: Option<Seq<char>>) -> DaemonRoute {
    if action == "status"@ {
        DaemonRoute::Status
    } else if action == "start"@ || action == "stop"@ {
        match spec_target(service) {
            Some(t) => if action == "start"@ {
                DaemonRoute::Start(t)
            } else {
                DaemonRoute::Stop(t)
            },
            None => DaemonRoute::UnknownService,
        }
    } else if action == "reload"@ {
        DaemonRoute::Reload
    } else {
        DaemonRoute::UnknownCommand
    }
}

fn target_of(service: Option<&str>) -> (r: Option<ServiceTarget>)
    ensures
        r == spec_target(opt_text(service)),
{
    let s = match service {
        Some(t) => t,
        None => "all",
    };
    if str_eq(s, "ftp") {
        Some(ServiceTarget::Ftp)
    } else if str_eq(s, "sftp") {
        Some(ServiceTarget::Sftp)
    } else if str_eq(s, "all") {
        Some(ServiceTarget::All)
    } else {
        None
    }
}

pub fn route(action: &str, service: Option<&str>) -> (r: DaemonRoute)
    ensures
        r == spec_route(action@, opt_text(service)),
{
    if str_eq(action, "status") {
        DaemonRoute::Status
    } else if str_eq(action, "start") || str_eq(action, "stop") {
        match target_of(service) {
            Some(t) => if str_eq(action, "start") {
                DaemonRoute::Start(t)
            } else {
                DaemonRoute::Stop(t)
            },
            None => DaemonRoute::UnknownService,
        }
    } else if str_eq(action, "reload") {
        DaemonRoute::Reload
    } else {
        DaemonRoute::UnknownCommand
    }
}

/// A reply on the control socket.
pub struct Response {
    pub success: bool,
    pub message: String,
    pub ftp_running: bool,
    pub sftp_running: bool,
}

pub open spec fn response_view(r: Response) -> (bool, Seq<char>, bool, bool) {
    (r.success, r.message@, r.ftp_running, r.sftp_running)
}

/// A success reporting the services' states.
pub fn response_ok(ftp_running: bool, sftp_running: bool) -> (r: Response)
    ensures
        response_view(r) == (true, Seq::<char>::empty(), ftp_running, sftp_running),
{
    let r = Response { success: true, message: String::new(), ftp_running, sftp_running };
    assert(r.message@ =~= Seq::<char>::empty());
    r
}

/// A failure with a message.
pub fn response_error(message: &str) -> (r: Response)
    ensures
        response_view(r) == (false, message@, false, false),
{
    Response { success: false, message: message.to_owned(), ftp_running: false, sftp_running: false }
}

/// The reply to a routing failure.
pub fn route_error(route: DaemonRoute) -> (r: Option<Response>)
    ensures
        route == DaemonRoute::UnknownCommand ==> (r matches Some(x) && response_view(x) == (false, "未知命令"@, false, false)),
        route == DaemonRoute::UnknownService ==> (r matches Some(x) && response_view(x) == (false, "未知服务"@, false, false)),
        route != DaemonRoute::UnknownCommand && route != DaemonRoute::UnknownService ==> r is None,
{
    match route {
        DaemonRoute::UnknownCommand => Some(response_error("未知命令")),
        DaemonRoute::UnknownService => Some(response_error("未知服务")),
        _ => None,
    }
}

/// The reply to starting all services, given whether each runs afterwards.
pub fn start_all_response(ftp_ok: bool, sftp_ok: bool) -> (r: Response)
    ensures
        ftp_ok && sftp_ok ==> response_view(r) == (true, Seq::<char>::empty(), true, true),
        !(ftp_ok && sftp_ok) ==> response_view(r) == (false, "部分服务启动失败"@, false, false),
{
    if ftp_ok && sftp_ok {
        response_ok(true, true)
    } else {
        response_error("部分服务启动失败")
    }
}

/// The reply to `reload`: both outcomes joined by `; `, a failure when either failed.
/// `config_error` and `users_error` carry the error texts of failed reloads.
pub open spec fn spec_reload_message(config_error: Option<Seq<char>>, users_error: Option<Seq<char>>) -> Seq<char> {
    (match config_error {
        None => "配置已重新加载"@,
        Some(e) => "配置重新加载失败: "@ + e,
    }) + "; "@ + (match users_error {
        None => "用户配置已重新加载"@,
        Some(e) => "用户配置重新加载失败: "@ + e,
    })
}

pub fn reload_response(config_error: Option<&str>, users_error: Option<&str>, ftp_running: bool, sftp_running: bool) -> (r: Response)
    ensures
        response_view(r) == (
            config_error is None && users_error is None,
            spec_reload_message(opt_text(config_error), opt_text(users_error)),
            ftp_running,
            sftp_running,
        ),
{
    let mut m: Vec<char> = Vec::new();
    match config_error {
        None => push_str(&mut m, "配置已重新加载"),
        Some(e) => {
            push_str(&mut m, "配置重新加载失败: ");
            push_str(&mut m, e);
        },
    }
    push_str(&mut m, "; ");
    match users_error {
        None => push_str(&mut m, "用户配置已重新加载"),
        Some(e) => {
            push_str(&mut m, "用户配置重新加载失败: ");
            push_str(&mut m, e);
        },
    }
    Response {
        success: config_error.is_none() && users_error.is_none(),
        message: chars_to_string(m.as_slice()),
        ftp_running,
        sftp_running,
    }
}

/// What to do with a service to match its enabled flag.
#[derive(Clone, Copy, Debug, PartialEq, Eq, Structural)]
pub enum Transition {
    Start,
    Stop,
    Keep,
}

/// A service enabled but not running is started; one disabled but running is
/// stopped; otherwise nothing happens.
pub fn reconcile(enabled: bool, running: bool) -> (r: Transition)
    ensures
        r == if enabled && !running {
            Transition::Start
        } else if !enabled && running {
            Transition::Stop
        } else {
            Transition::Keep
        },
{
    if enabled && !running {
        Transition::Start
    } else if !enabled && running {
        Transition::Stop
    } else {
        Transition::Keep
    }
}

/// The running state after a transition, when starting succeeds.
pub open spec fn after(t: Transition, running: bool) -> bool {
    match t {
        Transition::Start => true,
        Transition::Stop => false,
        Transition::Keep => running,
    }
}

/// Applying the transition (with a successful start) leaves the service running
/// exactly when it is enabled.
pub proof fn lemma_reconcile_matches_flag(enabled: bool, running: bool)
    ensures
        after(
            if enabled && !running {
                Transition::Start
            } else if !enabled && running {
                Transition::Stop
            } else {
                Transition::Keep
            },
            running,
        ) == enabled,
{
}

} // verus!
