//! Logging in: `USER` and `PASS`.
//!
//! Checking a password and probing the home directory on disk are done by the caller;
//! the functions here take their outcomes and decide the reply and the new state.

use vstd::prelude::*;
use crate::text::{chars_to_string, spec_trim, str_eq, str_to_chars, to_lowercase, trim_chars, unicode_lower};
use crate::ftp::session::{SessionState, SessionView, opt_str_view};

verus! {

/// What `USER` leads to.
pub enum UserStep {
    /// Send this reply.
    Reply(String),
    /// The anonymous account was asked for: go on with [`anonymous_start`].
    Anonymous,
}

pub open spec fn user_step_view(s: UserStep) -> Option<Seq<char>> {
    match s {
        UserStep::Reply(t) => Some(t@),
        UserStep::Anonymous => None,
    }
}

/// What a login step leads to when a home directory has to be looked at on disk.
pub enum HomeStep {
    Reply(String),
    /// Probe this directory (exists, is a directory, canonical form) and hand the
    /// answers back.
    CheckHome(String),
}

pub open spec fn home_step_view(s: HomeStep) -> (bool, Seq<char>) {
    match s {
        HomeStep::Reply(t) => (false, t@),
        HomeStep::CheckHome(h) => (true, h@),
    }
}

/// The outcome of checking a password against the user store.
pub enum PasswordCheck {
    Accepted,
    Rejected,
    Failed,
}

/// What `PASS` leads to.
pub enum PassStep {
    Reply(String),
    /// Check the password of this user and hand the outcome to
    /// [`SessionState::pass_result`].
    Authenticate(String),
}

pub open spec fn pass_step_view(s: PassStep) -> (bool, Seq<char>) {
    match s {
        PassStep::Reply(t) => (false, t@),
        PassStep::Authenticate(u) => (true, u@),
    }
}

pub open spec fn is_anonymous_lowered(lowered: Seq<char>) -> bool {
    lowered == "anonymous"@
}

impl SessionState {
    /// `USER`, given the argument and its lowercased form.
    pub fn user_with(&mut self, arg: Option<&str>, lowered: &str) -> (r: UserStep)
        ensures
            match arg {
                None => user_step_view(r) == Some("501 Syntax error in parameters or arguments\r\n"@)
                    && final(self)@ == old(self)@,
                Some(name) => if is_anonymous_lowered(lowered@) {
                    r is Anonymous && final(self)@ == old(self)@
                } else {
                    user_step_view(r) == Some("331 User name okay, need password\r\n"@)
                        && final(self)@ == (SessionView {
                        current_user: Some(name@),
                        authenticated: false,
                        ..old(self)@
                    })
                },
            },
    {
        match arg {
            None => UserStep::Reply("501 Syntax error in parameters or arguments\r\n".to_owned()),
            Some(name) => {
                if str_eq(lowered, "anonymous") {
                    UserStep::Anonymous
                } else {
                    self.current_user = Some(name.to_owned());
                    self.authenticated = false;
                    UserStep::Reply("331 User name okay, need password\r\n".to_owned())
                }
            },
        }
    }

    pub fn cmd_user(&mut self, arg: Option<&str>) -> (r: UserStep)
        ensures
            match arg {
                None => user_step_view(r) == Some("501 Syntax error in parameters or arguments\r\n"@)
                    && final(self)@ == old(self)@,
                Some(name) => if is_anonymous_lowered(unicode_lower(name@)) {
                    r is Anonymous && final(self)@ == old(self)@
                } else {
                    user_step_view(r) == Some("331 User name okay, need password\r\n"@)
                        && final(self)@ == (SessionView {
                        current_user: Some(name@),
                        authenticated: false,
                        ..old(self)@
                    })
                },
            },
    {
        match arg {
            None => self.user_with(None, ""),
            Some(name) => {
                let lowered = to_lowercase(name);
                self.user_with(Some(name), lowered.as_str())
            },
        }
    }
}

/// The first step of an anonymous login: refused when anonymous access is off or no
/// anonymous home is configured (empty after trimming); otherwise the home is probed.
pub open spec fn spec_anonymous_start(allow: bool, home: Option<Seq<char>>) -> (bool, Seq<char>) {
    if !allow {
        (false, "530 Anonymous access not allowed\r\n"@)
    } else {
        match home {
            Some(h) => if spec_trim(h).len() > 0 {
                (true, h)
            } else {
                (false, "530 Anonymous login failed: anonymous home directory not configured\r\n"@)
            },
            None => (false, "530 Anonymous login failed: anonymous home directory not configured\r\n"@),
        }
    }
}

pub fn anonymous_start(allow_anonymous: bool, anonymous_home: Option<&str>) -> (r: HomeStep)
    ensures
        home_step_view(r) == spec_anonymous_start(allow_anonymous, opt_str_view(anonymous_home)),
{
    if !allow_anonymous {
        return HomeStep::Reply("530 Anonymous access not allowed\r\n".to_owned());
    }
    match anonymous_home {
        Some(h) => {
            let cs = str_to_chars(h);
            let t = trim_chars(cs.as_slice());
            if t.len() > 0 {
                HomeStep::CheckHome(h.to_owned())
            } else {
                HomeStep::Reply(
                    "530 Anonymous login failed: anonymous home directory not configured\r\n".to_owned(),
                )
            }
        },
        None => HomeStep::Reply(
            "530 Anonymous login failed: anonymous home directory not configured\r\n".to_owned(),
        ),
    }
}

/// The home directory's probe, in the order it is checked: it must exist, be a
/// directory, and have a canonical form, which becomes both home and working directory.
pub open spec fn spec_home_refusal(
    exists: bool,
    is_dir: bool,
    canonical: Option<Seq<char>>,
    missing: Seq<char>,
    not_dir: Seq<char>,
    no_access: Seq<char>,
) -> Option<Seq<char>> {
    if !exists {
        Some(missing)
    } else if !is_dir {
        Some(not_dir)
    } else if canonical is None {
        Some(no_access)
    } else {
        None
    }
}

pub open spec fn spec_anonymous_refusal(exists: bool, is_dir: bool, canonical: Option<Seq<char>>) -> Option<Seq<char>> {
    spec_home_refusal(
        exists,
        is_dir,
        canonical,
        "530 Login failed: anonymous home directory does not exist\r\n"@,
        "530 Login failed: anonymous home path is not a directory\r\n"@,
        "530 Login failed: cannot access anonymous home directory\r\n"@,
    )
}

impl SessionState {
    /// Finishes an anonymous login with the home directory's probe.
    pub fn anonymous_home_checked(&mut self, exists: bool, is_dir: bool, canonical: Option<&str>) -> (r: String)
        ensures
            match spec_anonymous_refusal(exists, is_dir, opt_str_view(canonical)) {
                Some(t) => r@ == t && final(self)@ == old(self)@,
                None => r@ == "230 Anonymous login successful\r\n"@ && final(self)@ == (SessionView {
                    current_user: Some("anonymous"@),
                    cwd: canonical->0@,
                    home_dir: canonical->0@,
                    authenticated: true,
                    ..old(self)@
                }),
            },
    {
        if !exists {
            return "530 Login failed: anonymous home directory does not exist\r\n".to_owned();
        }
        if !is_dir {
            return "530 Login failed: anonymous home path is not a directory\r\n".to_owned();
        }
        match canonical {
            None => "530 Login failed: cannot access anonymous home directory\r\n".to_owned(),
            Some(c) => {
                self.current_user = Some("anonymous".to_owned());
                self.cwd = c.to_owned();
                self.home_dir = c.to_owned();
                self.authenticated = true;
                "230 Anonymous login successful\r\n".to_owned()
            },
        }
    }

    /// `PASS`, given the current user's name lowercased (`None` when no user was given).
    pub fn pass_start_with(&self, lowered_user: Option<&str>) -> (r: PassStep)
        ensures
            match self.current_user {
                None => pass_step_view(r) == (false, "530 Please login with USER and PASS\r\n"@),
                Some(u) => match lowered_user {
                    Some(l) => if is_anonymous_lowered(l@) {
                        pass_step_view(r) == (false, "230 Already logged in as anonymous\r\n"@)
                    } else {
                        pass_step_view(r) == (true, u@)
                    },
                    None => pass_step_view(r) == (true, u@),
                },
            },
    {
        match &self.current_user {
            None => PassStep::Reply("530 Please login with USER and PASS\r\n".to_owned()),
            Some(u) => {
                let anon = match lowered_user {
                    Some(l) => str_eq(l, "anonymous"),
                    None => false,
                };
                if anon {
                    PassStep::Reply("230 Already logged in as anonymous\r\n".to_owned())
                } else {
                    PassStep::Authenticate(u.clone())
                }
            },
        }
    }

    pub fn cmd_pass_start(&self) -> (r: PassStep)
        ensures
            match self.current_user {
                None => pass_step_view(r) == (false, "530 Please login with USER and PASS\r\n"@),
                Some(u) => if is_anonymous_lowered(unicode_lower(u@)) {
                    pass_step_view(r) == (false, "230 Already logged in as anonymous\r\n"@)
                } else {
                    pass_step_view(r) == (true, u@)
                },
            },
    {
        match &self.current_user {
            None => self.pass_start_with(None),
            Some(u) => {
                let l = to_lowercase(u.as_str());
                self.pass_start_with(Some(l.as_str()))
            },
        }
    }
}

pub open spec fn spec_user_refusal(
    home: Option<Seq<char>>,
    exists: bool,
    is_dir: bool,
    canonical: Option<Seq<char>>,
) -> Option<Seq<char>> {
    match home {
        None => Some("530 Login failed: user data not found\r\n"@),
        Some(h) => if spec_trim(h).len() == 0 {
            Some("530 Login failed: home directory not configured\r\n"@)
        } else {
            spec_home_refusal(
                exists,
                is_dir,
                canonical,
                "530 Login failed: home directory does not exist\r\n"@,
                "530 Login failed: home path is not a directory\r\n"@,
                "530 Login failed: cannot access home directory\r\n"@,
            )
        },
    }
}

impl SessionState {
    /// Finishes `PASS` with the password check, the user's configured home directory
    /// (`None` when the user store has no record) and the directory's probe. Every
    /// refusal leaves the session logged out.
    pub fn pass_result(
        &mut self,
        check: PasswordCheck,
        home: Option<&str>,
        exists: bool,
        is_dir: bool,
        canonical: Option<&str>,
    ) -> (r: String)
        ensures
            match check {
                PasswordCheck::Rejected => r@ == "530 Not logged in, user cannot be authenticated\r\n"@
                    && final(self)@ == (SessionView { authenticated: false, ..old(self)@ }),
                PasswordCheck::Failed => r@ == "530 Not logged in\r\n"@ && final(self)@ == (
                SessionView { authenticated: false, ..old(self)@ }),
                PasswordCheck::Accepted => match spec_user_refusal(
                    opt_str_view(home),
                    exists,
                    is_dir,
                    opt_str_view(canonical),
                ) {
                    Some(t) => r@ == t && final(self)@ == (SessionView {
                        authenticated: false,
                        ..old(self)@
                    }),
                    None => r@ == "230 User logged in\r\n"@ && final(self)@ == (SessionView {
                        cwd: canonical->0@,
                        home_dir: canonical->0@,
                        authenticated: true,
                        ..old(self)@
                    }),
                },
            },
    {
        match check {
            PasswordCheck::Rejected => {
                self.authenticated = false;
                return "530 Not logged in, user cannot be authenticated\r\n".to_owned();
            },
            PasswordCheck::Failed => {
                self.authenticated = false;
                return "530 Not logged in\r\n".to_owned();
            },
            PasswordCheck::Accepted => {},
        }
        let h = match home {
            None => {
                self.authenticated = false;
                return "530 Login failed: user data not found\r\n".to_owned();
            },
            Some(h) => h,
        };
        let cs = str_to_chars(h);
        let t = trim_chars(cs.as_slice());
        if t.len() == 0 {
            self.authenticated = false;
            return "530 Login failed: home directory not configured\r\n".to_owned();
        }
        if !exists {
            self.authenticated = false;
            return "530 Login failed: home directory does not exist\r\n".to_owned();
        }
        if !is_dir {
            self.authenticated = false;
            return "530 Login failed: home path is not a directory\r\n".to_owned();
        }
        match canonical {
            None => {
                self.authenticated = false;
                "530 Login failed: cannot access home directory\r\n".to_owned()
            },
            Some(c) => {
                self.cwd = c.to_owned();
                self.home_dir = c.to_owned();
                self.authenticated = true;
                "230 User logged in\r\n".to_owned()
            },
        }
    }
}

} // verus!
