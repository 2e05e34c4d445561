//! Authentication of SFTP users: the checks around the user store and the home
//! directory, and what a successful login records.
//!
//! Checking passwords and keys, and probing the home directory, are done by the
//! caller; the functions here take their outcomes.

use vstd::prelude::*;
use vstd::string::*;
use crate::text::{chars_to_string, push_str, spec_trim, str_to_chars, trim_chars};
use crate::utils::{is_safe_username, spec_is_safe_username};

verus! {

/// The answer to an authentication request.
#[derive(Clone, Copy, Debug, PartialEq, Eq, Structural)]
pub enum AuthDecision {
    Accept,
    Reject,
}

/// What is known of a login on this connection.
pub struct SftpAuthState {
    pub authenticated: bool,
    pub username: Option<String>,
    pub home_dir: Option<String>,
}

pub struct AuthView {
    pub authenticated: bool,
    pub username: Option<Seq<char>>,
    pub home_dir: Option<Seq<char>>,
}

pub open spec fn opt_view(o: Option<String>) -> Option<Seq<char>> {
    match o {
        Some(s) => Some(s@),
        None => None,
    }
}

impl View for SftpAuthState {
    type V = AuthView;

    open spec fn view(&self) -> AuthView {
        AuthView {
            authenticated: self.authenticated,
            username: opt_view(self.username),
            home_dir: opt_view(self.home_dir),
        }
    }
}

/// What the file system says of a configured home directory.
pub enum HomeMeta {
    Directory,
    NotDirectory,
    /// It could not be looked at; the error's text.
    Unreachable(String),
}

/// Why a home directory is not usable, or its canonical form. `canonical` is the
/// outcome of canonicalizing it (the error's text on failure).
pub open spec fn spec_home_check(
    user: Seq<char>,
    home_dir: Seq<char>,
    meta: HomeMeta,
    canonical: Result<Seq<char>, Seq<char>>,
) -> Result<Seq<char>, Seq<char>> {
    if spec_trim(home_dir).len() == 0 {
        Err("home directory not configured for user '"@ + user + "'"@)
    } else {
        match meta {
            HomeMeta::NotDirectory => Err("home path '"@ + home_dir + "' is not a directory"@),
            HomeMeta::Unreachable(e) => Err(
                "home directory '"@ + home_dir + "' does not exist or cannot be accessed: "@ + e@,
            ),
            HomeMeta::Directory => match canonical {
                Ok(c) => Ok(c),
                Err(e) => Err("cannot canonicalize home directory '"@ + home_dir + "': "@ + e),
            },
        }
    }
}

pub open spec fn canon_view(c: Result<&str, &str>) -> Result<Seq<char>, Seq<char>> {
    match c {
        Ok(s) => Ok(s@),
        Err(e) => Err(e@),
    }
}

impl SftpAuthState {
    pub fn new() -> (r: Self)
        ensures
            r@ == (AuthView { authenticated: false, username: None, home_dir: None }),
    {
        SftpAuthState { authenticated: false, username: None, home_dir: None }
    }

    /// A user name must be safe before anything else is looked at.
    pub fn precheck(user: &str) -> (r: Option<AuthDecision>)
        ensures
            spec_is_safe_username(user.spec_bytes()) ==> r is None,
            !spec_is_safe_username(user.spec_bytes()) ==> r == Some(AuthDecision::Reject),
    {
        if is_safe_username(user) {
            None
        } else {
            Some(AuthDecision::Reject)
        }
    }

    /// After the user store is read for a public-key login: the user needs a record
    /// and must be enabled (`enabled`: the record's flag, `None` without a record);
    /// otherwise the login is rejected before any key is looked at.
    pub fn user_gate(enabled: Option<bool>) -> (r: Option<AuthDecision>)
        ensures
            enabled == Some(true) ==> r is None,
            enabled != Some(true) ==> r == Some(AuthDecision::Reject),
    {
        match enabled {
            Some(true) => None,
            _ => Some(AuthDecision::Reject),
        }
    }

    /// The credentials were accepted: the user counts as authenticated from now on,
    /// before the home directory is checked.
    pub fn credentials_accepted(&mut self, user: &str)
        ensures
            final(self)@ == (AuthView { authenticated: true, username: Some(user@), ..old(self)@ }),
    {
        self.authenticated = true;
        self.username = Some(user.to_owned());
    }

    /// Finishes a login with the home directory's check: on success its canonical
    /// form is recorded and the login accepted; otherwise it is rejected with the
    /// reason.
    pub fn home_checked(
        &mut self,
        user: &str,
        home_dir: &str,
        meta: HomeMeta,
        canonical: Result<&str, &str>,
    ) -> (r: (AuthDecision, Option<String>))
        ensures
            match spec_home_check(user@, home_dir@, meta, canon_view(canonical)) {
                Ok(c) => r.0 == AuthDecision::Accept && r.1 is None && final(self)@ == (AuthView {
                    home_dir: Some(c),
                    ..old(self)@
                }),
                Err(m) => r.0 == AuthDecision::Reject && final(self)@ == old(self)@ && (r.1 matches Some(t) && t@ == m),
            },
    {
        let cs = str_to_chars(home_dir);
        let t = trim_chars(cs.as_slice());
        let mut msg: Vec<char> = Vec::new();
        if t.len() == 0 {
            push_str(&mut msg, "home directory not configured for user '");
            push_str(&mut msg, user);
            push_str(&mut msg, "'");
            return (AuthDecision::Reject, Some(chars_to_string(msg.as_slice())));
        }
        match meta {
            HomeMeta::NotDirectory => {
                push_str(&mut msg, "home path '");
                push_str(&mut msg, home_dir);
                push_str(&mut msg, "' is not a directory");
                (AuthDecision::Reject, Some(chars_to_string(msg.as_slice())))
            },
            HomeMeta::Unreachable(e) => {
                push_str(&mut msg, "home directory '");
                push_str(&mut msg, home_dir);
                push_str(&mut msg, "' does not exist or cannot be accessed: ");
                push_str(&mut msg, e.as_str());
                (AuthDecision::Reject, Some(chars_to_string(msg.as_slice())))
            },
            HomeMeta::Directory => match canonical {
                Ok(c) => {
                    self.home_dir = Some(c.to_owned());
                    (AuthDecision::Accept, None)
                },
                Err(e) => {
                    push_str(&mut msg, "cannot canonicalize home directory '");
                    push_str(&mut msg, home_dir);
                    push_str(&mut msg, "': ");
                    push_str(&mut msg, e);
                    (AuthDecision::Reject, Some(chars_to_string(msg.as_slice())))
                },
            },
        }
    }
}

/// What a login that got past the credentials leaves: the user counts as
/// authenticated under its name, and the home directory is recorded when its check
/// passes.
pub open spec fn spec_after_credentials(
    s: AuthView,
    user: Seq<char>,
    home_dir: Seq<char>,
    meta: HomeMeta,
    canonical: Result<Seq<char>, Seq<char>>,
) -> (AuthView, AuthDecision, Option<Seq<char>>) {
    let t = AuthView { authenticated: true, username: Some(user), ..s };
    match spec_home_check(user, home_dir, meta, canonical) {
        Ok(c) => (AuthView { home_dir: Some(c), ..t }, AuthDecision::Accept, None),
        Err(m) => (t, AuthDecision::Reject, Some(m)),
    }
}

impl SftpAuthState {
    /// A public-key login, in the order the checks are made: the name must be safe,
    /// the user must have a record and be enabled (`enabled`), and the offered key
    /// must equal the stored one (`key_matches`); each failure rejects and changes
    /// nothing. Then the user is authenticated, and the login accepted when the home
    /// directory's check passes (the caller probes it once the key matched).
    pub fn publickey_login(
        &mut self,
        user: &str,
        enabled: Option<bool>,
        key_matches: bool,
        home_dir: &str,
        meta: HomeMeta,
        canonical: Result<&str, &str>,
    ) -> (r: (AuthDecision, Option<String>))
        ensures
            !(spec_is_safe_username(user.spec_bytes()) && enabled == Some(true) && key_matches) ==> (r.0
                == AuthDecision::Reject && r.1 is None && final(self)@ == old(self)@),
            spec_is_safe_username(user.spec_bytes()) && enabled == Some(true) && key_matches ==> ({
                let (v, d, m) = spec_after_credentials(old(self)@, user@, home_dir@, meta, canon_view(canonical));
                &&& final(self)@ == v
                &&& r.0 == d
                &&& match m { Some(t) => (r.1 matches Some(x) && x@ == t), None => r.1 is None }
            }),
            r.0 == AuthDecision::Accept <==> (spec_is_safe_username(user.spec_bytes()) && enabled == Some(true)
                && key_matches && spec_home_check(user@, home_dir@, meta, canon_view(canonical)) is Ok),
    {
        if Self::precheck(user).is_some() {
            return (AuthDecision::Reject, None);
        }
        if Self::user_gate(enabled).is_some() || !key_matches {
            return (AuthDecision::Reject, None);
        }
        self.credentials_accepted(user);
        self.home_checked(user, home_dir, meta, canonical)
    }

    /// A password login: the name must be safe and the user store must accept the
    /// password (`password_ok`); each failure rejects and changes nothing. Then the
    /// user is authenticated; the login is rejected when the user's record gives no
    /// home directory (`home_dir`), and otherwise accepted when its check passes.
    pub fn password_login(
        &mut self,
        user: &str,
        password_ok: bool,
        home_dir: Option<&str>,
        meta: HomeMeta,
        canonical: Result<&str, &str>,
    ) -> (r: (AuthDecision, Option<String>))
        ensures
            !(spec_is_safe_username(user.spec_bytes()) && password_ok) ==> (r.0 == AuthDecision::Reject
                && r.1 is None && final(self)@ == old(self)@),
            spec_is_safe_username(user.spec_bytes()) && password_ok && home_dir is None ==> (r.0
                == AuthDecision::Reject && r.1 is None && final(self)@ == (AuthView {
                authenticated: true,
                username: Some(user@),
                ..old(self)@
            })),
            spec_is_safe_username(user.spec_bytes()) && password_ok ==> (home_dir matches Some(h) ==> ({
                let (v, d, m) = spec_after_credentials(old(self)@, user@, h@, meta, canon_view(canonical));
                &&& final(self)@ == v
                &&& r.0 == d
                &&& match m { Some(t) => (r.1 matches Some(x) && x@ == t), None => r.1 is None }
            })),
            r.0 == AuthDecision::Accept <==> (spec_is_safe_username(user.spec_bytes()) && password_ok
                && (home_dir matches Some(h) && spec_home_check(user@, h@, meta, canon_view(canonical)) is Ok)),
    {
        if Self::precheck(user).is_some() || !password_ok {
            return (AuthDecision::Reject, None);
        }
        self.credentials_accepted(user);
        match home_dir {
            Some(h) => self.home_checked(user, h, meta, canonical),
            None => (AuthDecision::Reject, None),
        }
    }
}

/// Whether a subsystem request starts the SFTP server on the channel, or why not.
#[derive(Clone, Copy, Debug, PartialEq, Eq, Structural)]
pub enum SubsystemStep {
    Start,
    UnknownSubsystem,
    NotAuthenticated,
    NoHome,
}

impl SftpAuthState {
    /// Only the `sftp` subsystem is served, and only after a login that set the home
    /// directory.
    pub fn subsystem_step(&self, name: &str) -> (r: SubsystemStep)
        ensures
            r == (if name@ != "sftp"@ {
                SubsystemStep::UnknownSubsystem
            } else if !self.authenticated {
                SubsystemStep::NotAuthenticated
            } else if self.home_dir is None {
                SubsystemStep::NoHome
            } else {
                SubsystemStep::Start
            }),
    {
        if !crate::text::str_eq(name, "sftp") {
            SubsystemStep::UnknownSubsystem
        } else if !self.authenticated {
            SubsystemStep::NotAuthenticated
        } else if self.home_dir.is_none() {
            SubsystemStep::NoHome
        } else {
            SubsystemStep::Start
        }
    }
}

/// The file holding a user's public key, in the keys directory.
pub fn public_key_file_name(user: &str) -> (r: String)
    ensures
        r@ == user@ + ".pub"@,
{
    let mut out: Vec<char> = Vec::new();
    push_str(&mut out, user);
    push_str(&mut out, ".pub");
    chars_to_string(out.as_slice())
}

} // verus!
