//! The systemd unit of the server: its unit file and the `systemctl` commands
//! that manage it.

pub mod manager;

use vstd::prelude::*;
use crate::text::{chars_to_string, push_str};

verus! {

/// The text of the unit file before the `ExecStart` command.
pub open spec fn unit_head() -> Seq<char> {
    "[Unit]\nDescription=WFTPG SFTP/FTP Server\nAfter=network.target\n\n[Service]\nType=simple\nExecStart="@
}

/// The text of the unit file after the `ExecStart` command.
pub open spec fn unit_tail() -> Seq<char> {
    "\nRestart=on-failure\nUser=wftpg\nGroup=wftpg\nAmbientCapabilities=CAP_NET_BIND_SERVICE\n\n[Install]\nWantedBy=multi-user.target\n"@
}

/// The systemd unit of the server. Its fields are fixed.
pub struct ServiceManager {
    service_name: String,
    service_path: String,
}

/// The `systemctl` actions the manager runs.
#[derive(Clone, Copy, Debug, PartialEq, Eq, Structural)]
pub enum ServiceAction {
    Start,
    Stop,
    Restart,
    Enable,
    Disable,
    DaemonReload,
    IsActive,
    IsEnabled,
}

/// A program and its arguments.
pub struct CommandLine {
    pub program: String,
    pub args: Vec<String>,
}

pub open spec fn command_view(c: CommandLine) -> (Seq<char>, Seq<Seq<char>>) {
    (c.program@, c.args@.map_values(|a: String| a@))
}

impl ServiceManager {
    pub closed spec fn name(&self) -> Seq<char> {
        self.service_name@
    }

    pub closed spec fn path(&self) -> Seq<char> {
        self.service_path@
    }

    /// The manager of the `wftpd` unit, installed at
    /// `/lib/systemd/system/wftpd.service`.
    pub fn new() -> (r: Self)
        ensures
            r.name() == "wftpd"@,
            r.path() == "/lib/systemd/system/wftpd.service"@,
    {
        ServiceManager {
            service_name: "wftpd".to_owned(),
            service_path: "/lib/systemd/system/wftpd.service".to_owned(),
        }
    }

    pub fn service_name(&self) -> (r: &str)
        ensures
            r@ == self.name(),
    {
        self.service_name.as_str()
    }

    /// Where the unit file lives.
    pub fn service_path(&self) -> (r: &str)
        ensures
            r@ == self.path(),
    {
        self.service_path.as_str()
    }

    /// The unit file that runs `binary_path`.
    pub fn unit_file(&self, binary_path: &str) -> (r: String)
        ensures
            r@ == unit_head() + binary_path@ + unit_tail(),
    {
        let mut out: Vec<char> = Vec::new();
        push_str(&mut out, "[Unit]\nDescription=WFTPG SFTP/FTP Server\nAfter=network.target\n\n[Service]\nType=simple\nExecStart=");
        push_str(&mut out, binary_path);
        push_str(&mut out, "\nRestart=on-failure\nUser=wftpg\nGroup=wftpg\nAmbientCapabilities=CAP_NET_BIND_SERVICE\n\n[Install]\nWantedBy=multi-user.target\n");
        chars_to_string(out.as_slice())
    }

    /// The `systemctl` command for an action.
    pub open spec fn spec_command(&self, action: ServiceAction) -> (Seq<char>, Seq<Seq<char>>) {
        match action {
            ServiceAction::Start => ("systemctl"@, seq!["start"@, self.name()]),
            ServiceAction::Stop => ("systemctl"@, seq!["stop"@, self.name()]),
            ServiceAction::Restart => ("systemctl"@, seq!["restart"@, self.name()]),
            ServiceAction::Enable => ("systemctl"@, seq!["enable"@, self.name()]),
            ServiceAction::Disable => ("systemctl"@, seq!["disable"@, self.name()]),
            ServiceAction::DaemonReload => ("systemctl"@, seq!["daemon-reload"@]),
            ServiceAction::IsActive => ("systemctl"@, seq!["is-active"@, "--quiet"@, self.name()]),
            ServiceAction::IsEnabled => ("systemctl"@, seq!["is-enabled"@, "--quiet"@, self.name()]),
        }
    }

    pub fn command(&self, action: ServiceAction) -> (r: CommandLine)
        ensures
            command_view(r) == self.spec_command(action),
    {
        let name = self.service_name.clone();
        let args = match action {
            ServiceAction::Start => vec!["start".to_owned(), name],
            ServiceAction::Stop => vec!["stop".to_owned(), name],
            ServiceAction::Restart => vec!["restart".to_owned(), name],
            ServiceAction::Enable => vec!["enable".to_owned(), name],
            ServiceAction::Disable => vec!["disable".to_owned(), name],
            ServiceAction::DaemonReload => vec!["daemon-reload".to_owned()],
            ServiceAction::IsActive => vec!["is-active".to_owned(), "--quiet".to_owned(), name],
            ServiceAction::IsEnabled => vec!["is-enabled".to_owned(), "--quiet".to_owned(), name],
        };
        let r = CommandLine { program: "systemctl".to_owned(), args };
        assert(command_view(r) =~= self.spec_command(action));
        r
    }
}

impl Default for ServiceManager {
    fn default() -> (r: Self)
        ensures
            r.name() == "wftpd"@,
            r.path() == "/lib/systemd/system/wftpd.service"@,
    {
        ServiceManager::new()
    }
}

} // verus!
