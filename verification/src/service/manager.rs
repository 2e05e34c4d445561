//! The systemd unit of the server as the desktop front end manages it: changes go
//! through `pkexec`, and the user running the front end is given access.

use vstd::prelude::*;
use crate::text::{chars_to_string, push_str};
use crate::text::{spec_split, spec_words, split_on, split_words, texts, parse_unsigned, spec_parse_unsigned, str_eq};

verus! {

/// The text of the unit file before the `ExecStart` command.
pub open spec fn unit_head() -> Seq<char> {
    "[Unit]\nDescription=WFTPG SFTP/FTP Server\nDocumentation=https://github.com/wftpg/wftpg\nAfter=network.target network-online.target\nWants=network-online.target\n\n[Service]\nType=simple\nExecStart="@
}

/// The text of the unit file after the `ExecStart` command.
pub open spec fn unit_tail() -> Seq<char> {
    "\nRestart=on-failure\nRestartSec=5\n\nUser=wftpg\nGroup=wftpg\n\nWorkingDirectory=/var/lib/wftpg\n\nRuntimeDirectory=wftpd\nRuntimeDirectoryMode=0770\n\nEnvironment=HOME=/var/lib/wftpg\nEnvironment=XDG_CONFIG_HOME=/var/lib/wftpg/config\nEnvironment=XDG_CACHE_HOME=/var/lib/wftpg/cache\n\nAmbientCapabilities=CAP_NET_BIND_SERVICE\nCapabilityBoundingSet=CAP_NET_BIND_SERVICE\n\nNoNewPrivileges=true\n\nProtectSystem=strict\nProtectHome=yes\nPrivateTmp=yes\nPrivateDevices=yes\n\nReadWritePaths=/var/log/wftpg /var/lib/wftpg /etc/wftpg /run/wftpd\n\nLimitNOFILE=65536\n\n[Install]\nWantedBy=multi-user.target\n"@
}

/// The systemd unit of the server. Its fields are fixed.
pub struct ServiceManager {
    service_name: String,
    service_path: String,
}

/// The `systemctl` actions the manager runs.
#[derive(Clone, Copy, Debug, PartialEq, Eq, Structural)]
pub enum ServiceAction {
    Start,
    Stop,
    Restart,
    Enable,
    Disable,
    DaemonReload,
    IsActive,
    IsEnabled,
}

/// A program and its arguments.
pub struct CommandLine {
    pub program: String,
    pub args: Vec<String>,
}

pub open spec fn command_view(c: CommandLine) -> (Seq<char>, Seq<Seq<char>>) {
    (c.program@, c.args@.map_values(|a: String| a@))
}

impl ServiceManager {
    pub closed spec fn name(&self) -> Seq<char> {
        self.service_name@
    }

    pub closed spec fn path(&self) -> Seq<char> {
        self.service_path@
    }

    /// The manager of the `wftpd` unit, installed at
    /// `/lib/systemd/system/wftpd.service`.
    pub fn new() -> (r: Self)
        ensures
            r.name() == "wftpd"@,
            r.path() == "/lib/systemd/system/wftpd.service"@,
    {
        ServiceManager {
            service_name: "wftpd".to_owned(),
            service_path: "/lib/systemd/system/wftpd.service".to_owned(),
        }
    }

    pub fn service_name(&self) -> (r: &str)
        ensures
            r@ == self.name(),
    {
        self.service_name.as_str()
    }

    /// Where the unit file lives.
    pub fn service_path(&self) -> (r: &str)
        ensures
            r@ == self.path(),
    {
        self.service_path.as_str()
    }

    /// The unit file that runs `binary_path`.
    pub fn unit_file(&self, binary_path: &str) -> (r: String)
        ensures
            r@ == unit_head() + binary_path@ + unit_tail(),
    {
        let mut out: Vec<char> = Vec::new();
        push_str(&mut out, "[Unit]\nDescription=WFTPG SFTP/FTP Server\nDocumentation=https://github.com/wftpg/wftpg\nAfter=network.target network-online.target\nWants=network-online.target\n\n[Service]\nType=simple\nExecStart=");
        push_str(&mut out, binary_path);
        push_str(&mut out, "\nRestart=on-failure\nRestartSec=5\n\nUser=wftpg\nGroup=wftpg\n\nWorkingDirectory=/var/lib/wftpg\n\nRuntimeDirectory=wftpd\nRuntimeDirectoryMode=0770\n\nEnvironment=HOME=/var/lib/wftpg\nEnvironment=XDG_CONFIG_HOME=/var/lib/wftpg/config\nEnvironment=XDG_CACHE_HOME=/var/lib/wftpg/cache\n\nAmbientCapabilities=CAP_NET_BIND_SERVICE\nCapabilityBoundingSet=CAP_NET_BIND_SERVICE\n\nNoNewPrivileges=true\n\nProtectSystem=strict\nProtectHome=yes\nPrivateTmp=yes\nPrivateDevices=yes\n\nReadWritePaths=/var/log/wftpg /var/lib/wftpg /etc/wftpg /run/wftpd\n\nLimitNOFILE=65536\n\n[Install]\nWantedBy=multi-user.target\n");
        chars_to_string(out.as_slice())
    }

    /// The command for an action: queries run `systemctl` directly, changes go
    /// through `pkexec`.
    pub open spec fn spec_command(&self, action: ServiceAction) -> (Seq<char>, Seq<Seq<char>>) {
        match action {
            ServiceAction::Start => ("pkexec"@, seq!["systemctl"@, "start"@, self.name()]),
            ServiceAction::Stop => ("pkexec"@, seq!["systemctl"@, "stop"@, self.name()]),
            ServiceAction::Restart => ("pkexec"@, seq!["systemctl"@, "restart"@, self.name()]),
            ServiceAction::Enable => ("pkexec"@, seq!["systemctl"@, "enable"@, self.name()]),
            ServiceAction::Disable => ("pkexec"@, seq!["systemctl"@, "disable"@, self.name()]),
            ServiceAction::DaemonReload => ("pkexec"@, seq!["systemctl"@, "daemon-reload"@]),
            ServiceAction::IsActive => ("systemctl"@, seq!["is-active"@, "--quiet"@, self.name()]),
            ServiceAction::IsEnabled => ("systemctl"@, seq!["is-enabled"@, "--quiet"@, self.name()]),
        }
    }

    pub fn command(&self, action: ServiceAction) -> (r: CommandLine)
        ensures
            command_view(r) == self.spec_command(action),
    {
        let name = self.service_name.clone();
        let (program, args) = match action {
            ServiceAction::Start => ("pkexec", vec!["systemctl".to_owned(), "start".to_owned(), name]),
            ServiceAction::Stop => ("pkexec", vec!["systemctl".to_owned(), "stop".to_owned(), name]),
            ServiceAction::Restart => ("pkexec", vec!["systemctl".to_owned(), "restart".to_owned(), name]),
            ServiceAction::Enable => ("pkexec", vec!["systemctl".to_owned(), "enable".to_owned(), name]),
            ServiceAction::Disable => ("pkexec", vec!["systemctl".to_owned(), "disable".to_owned(), name]),
            ServiceAction::DaemonReload => ("pkexec", vec!["systemctl".to_owned(), "daemon-reload".to_owned()]),
            ServiceAction::IsActive => ("systemctl", vec!["is-active".to_owned(), "--quiet".to_owned(), name]),
            ServiceAction::IsEnabled => ("systemctl", vec!["is-enabled".to_owned(), "--quiet".to_owned(), name]),
        };
        let r = CommandLine { program: program.to_owned(), args };
        assert(command_view(r) =~= self.spec_command(action));
        r
    }
}

/// Who to give access to the service: the user `sudo` ran for; else the user whose
/// id `pkexec` passed (looked up by id, and that lookup is final); else a logged-in
/// user other than `root`; else the user of the first graphical session.
pub enum GuiUserStep {
    Found(String),
    LookupUid(u32),
    AskSessions,
}

pub enum GuiUserView {
    Found(Seq<char>),
    LookupUid(u32),
    AskSessions,
}

pub open spec fn gui_user_view(s: GuiUserStep) -> GuiUserView {
    match s {
        GuiUserStep::Found(u) => GuiUserView::Found(u@),
        GuiUserStep::LookupUid(n) => GuiUserView::LookupUid(n),
        GuiUserStep::AskSessions => GuiUserView::AskSessions,
    }
}

pub open spec fn opt_text(o: Option<&str>) -> Option<Seq<char>> {
    match o {
        Some(s) => Some(s@),
        None => None,
    }
}

pub open spec fn spec_gui_user(sudo_user: Option<Seq<char>>, pkexec_uid: Option<Seq<char>>, user: Option<Seq<char>>) -> GuiUserView {
    match sudo_user {
        Some(u) => GuiUserView::Found(u),
        None => match (match pkexec_uid {
            Some(t) => spec_parse_unsigned(t, u32::MAX as nat),
            None => None,
        }) {
            Some(uid) => GuiUserView::LookupUid(uid as u32),
            None => match user {
                Some(u) => if u != "root"@ {
                    GuiUserView::Found(u)
                } else {
                    GuiUserView::AskSessions
                },
                None => GuiUserView::AskSessions,
            },
        },
    }
}

/// Decides from the environment variables `SUDO_USER`, `PKEXEC_UID` and `USER`.
pub fn gui_user_step(sudo_user: Option<&str>, pkexec_uid: Option<&str>, user: Option<&str>) -> (r: GuiUserStep)
    ensures
        gui_user_view(r) == spec_gui_user(opt_text(sudo_user), opt_text(pkexec_uid), opt_text(user)),
{
    if let Some(u) = sudo_user {
        return GuiUserStep::Found(u.to_owned());
    }
    if let Some(t) = pkexec_uid {
        if let Some(uid) = parse_unsigned(t, u32::MAX as u64) {
            return GuiUserStep::LookupUid(uid as u32);
        }
    }
    match user {
        Some(u) => if !str_eq(u, "root") {
            GuiUserStep::Found(u.to_owned())
        } else {
            GuiUserStep::AskSessions
        },
        None => GuiUserStep::AskSessions,
    }
}

/// The third word of the first line (of `loginctl list-sessions`) that has at
/// least three words.
pub open spec fn session_user_from(lines: Seq<Seq<char>>) -> Option<Seq<char>>
    decreases lines.len(),
{
    if lines.len() == 0 {
        None
    } else if spec_words(lines[0]).len() >= 3 {
        Some(spec_words(lines[0])[2])
    } else {
        session_user_from(lines.drop_first())
    }
}

pub fn session_user(listing: &str) -> (r: Option<String>)
    ensures
        opt_text_string(r) == session_user_from(spec_split(listing@, '\n')),
{
    let lines = split_on(listing, '\n');
    let ghost lv = texts(lines@);
    let mut i: usize = 0;
    assert(lv.skip(0) =~= lv);
    while i < lines.len()
        invariant
            i <= lines@.len(),
            lv == texts(lines@),
            lv == spec_split(listing@, '\n'),
            session_user_from(lv.skip(i as int)) == session_user_from(lv),
        decreases lines.len() - i,
    {
        let line = chars_to_string(lines[i].as_slice());
        let words = split_words(line.as_str());
        assert(lv.skip(i as int)[0] == lines@[i as int]@);
        if words.len() >= 3 {
            assert(texts(words@)[2] == words@[2]@);
            return Some(chars_to_string(words[2].as_slice()));
        }
        assert(lv.skip(i as int).drop_first() =~= lv.skip(i + 1));
        i = i + 1;
    }
    None
}

pub open spec fn opt_text_string(o: Option<String>) -> Option<Seq<char>> {
    match o {
        Some(s) => Some(s@),
        None => None,
    }
}

impl Default for ServiceManager {
    fn default() -> (r: Self)
        ensures
            r.name() == "wftpd"@,
            r.path() == "/lib/systemd/system/wftpd.service"@,
    {
        ServiceManager::new()
    }
}

} // verus!
