//! TLS on the control connection: `AUTH`, `PBSZ`, `PROT` and `CCC`.

use vstd::prelude::*;
use crate::text::{spec_parse_unsigned, parse_unsigned, str_eq, to_uppercase, unicode_upper};
use crate::ftp::session::{SessionState, SessionView, opt_str_view, upper_of};

verus! {

/// What `AUTH` leads to.
pub enum AuthStep {
    /// Send this reply; nothing else happens.
    Reply(String),
    /// Send this reply, then negotiate TLS on the connection.
    StartTls(String),
}

pub open spec fn is_tls_method(u: Seq<char>) -> bool {
    u == "TLS"@ || u == "TLS-C"@ || u == "SSL"@ || u == "TLS-P"@
}

/// `AUTH`, given the uppercased method (empty when absent): refused without a server
/// TLS configuration or when TLS is already on; the TLS methods start negotiation.
pub open spec fn spec_auth(tls_available: bool, tls_enabled: bool, method: Seq<char>) -> (bool, Seq<char>) {
    if !tls_available {
        (false, "500 TLS not configured on server\r\n"@)
    } else if tls_enabled {
        (false, "503 Already using TLS\r\n"@)
    } else if is_tls_method(method) {
        (true, "234 OK, starting TLS negotiation\r\n"@)
    } else {
        (false, "504 Unknown authentication method\r\n"@)
    }
}

pub open spec fn auth_step_view(s: AuthStep) -> (bool, Seq<char>) {
    match s {
        AuthStep::Reply(t) => (false, t@),
        AuthStep::StartTls(t) => (true, t@),
    }
}

/// The reply to `PBSZ` or `PROT` before TLS is on.
pub open spec fn spec_tls_off_reply(tls_available: bool) -> Seq<char> {
    if tls_available {
        "503 Use AUTH first\r\n"@
    } else {
        "500 TLS not available\r\n"@
    }
}

/// `PBSZ`: whether the buffer size counts as set, and the reply. Any number is accepted
/// and taken as zero.
pub open spec fn spec_pbsz(tls_available: bool, tls_enabled: bool, arg: Option<Seq<char>>) -> (bool, Seq<char>) {
    if !tls_enabled {
        (false, spec_tls_off_reply(tls_available))
    } else {
        match arg {
            None => (false, "501 PBSZ requires parameter\r\n"@),
            Some(a) => match spec_parse_unsigned(a, u64::MAX as nat) {
                Some(v) => if v == 0 {
                    (true, "200 PBSZ=0\r\n"@)
                } else {
                    (true, "200 PBSZ=0 (only 0 supported for TLS)\r\n"@)
                },
                None => (false, "501 Invalid PBSZ parameter\r\n"@),
            },
        }
    }
}

/// `PROT`, given the uppercased level: the new data-protection flag (`None`:
/// unchanged) and the reply.
pub open spec fn spec_prot(
    tls_available: bool,
    tls_enabled: bool,
    pbsz_set: bool,
    upper: Option<Seq<char>>,
) -> (Option<bool>, Seq<char>) {
    if !tls_enabled {
        (None, spec_tls_off_reply(tls_available))
    } else if !pbsz_set {
        (None, "503 Use PBSZ first\r\n"@)
    } else {
        match upper {
            None => (None, "501 PROT requires parameter\r\n"@),
            Some(u) => if u == "P"@ {
                (Some(true), "200 PROT Private - Data channel secured\r\n"@)
            } else if u == "C"@ {
                (Some(false), "200 PROT Clear - Data channel unsecured\r\n"@)
            } else if u == "S"@ || u == "E"@ {
                (None, "536 PROT level not supported (use P or C)\r\n"@)
            } else {
                (None, "504 Unknown PROT level\r\n"@)
            },
        }
    }
}

pub open spec fn apply_prot(s: SessionView, o: Option<bool>) -> SessionView {
    match o {
        Some(v) => SessionView { tls_data_required: v, ..s },
        None => s,
    }
}

fn tls_off_reply(tls_available: bool) -> (r: String)
    ensures
        r@ == spec_tls_off_reply(tls_available),
{
    if tls_available {
        "503 Use AUTH first\r\n".to_owned()
    } else {
        "500 TLS not available\r\n".to_owned()
    }
}

impl SessionState {
    /// `AUTH`, given the uppercased method (empty when the argument is absent).
    pub fn auth_with(&self, tls_available: bool, method: &str) -> (r: AuthStep)
        ensures
            auth_step_view(r) == spec_auth(tls_available, self.tls_enabled, method@),
    {
        if !tls_available {
            return AuthStep::Reply("500 TLS not configured on server\r\n".to_owned());
        }
        if self.tls_enabled {
            return AuthStep::Reply("503 Already using TLS\r\n".to_owned());
        }
        if str_eq(method, "TLS") || str_eq(method, "TLS-C") || str_eq(method, "SSL") || str_eq(
            method,
            "TLS-P",
        ) {
            AuthStep::StartTls("234 OK, starting TLS negotiation\r\n".to_owned())
        } else {
            AuthStep::Reply("504 Unknown authentication method\r\n".to_owned())
        }
    }

    pub fn cmd_auth(&self, tls_available: bool, arg: Option<&str>) -> (r: AuthStep)
        ensures
            auth_step_view(r) == spec_auth(
                tls_available,
                self.tls_enabled,
                match arg {
                    Some(a) => unicode_upper(a@),
                    None => Seq::empty(),
                },
            ),
    {
        match arg {
            Some(a) => {
                let u = to_uppercase(a);
                self.auth_with(tls_available, u.as_str())
            },
            None => {
                let r = self.auth_with(tls_available, "");
                proof {
                    reveal_strlit("");
                    assert(""@ =~= Seq::<char>::empty());
                }
                r
            },
        }
    }

    /// Records that TLS negotiation succeeded.
    pub fn tls_started(&mut self)
        ensures
            final(self)@ == (SessionView { tls_enabled: true, ..old(self)@ }),
    {
        self.tls_enabled = true;
    }

    pub fn cmd_pbsz(&mut self, tls_available: bool, arg: Option<&str>) -> (r: String)
        ensures
            r@ == spec_pbsz(tls_available, old(self).tls_enabled, opt_str_view(arg)).1,
            final(self)@ == (SessionView {
                pbsz_set: old(self).pbsz_set || spec_pbsz(
                    tls_available,
                    old(self).tls_enabled,
                    opt_str_view(arg),
                ).0,
                ..old(self)@
            }),
    {
        if !self.tls_enabled {
            return tls_off_reply(tls_available);
        }
        match arg {
            None => "501 PBSZ requires parameter\r\n".to_owned(),
            Some(a) => match parse_unsigned(a, u64::MAX) {
                Some(v) => {
                    self.pbsz_set = true;
                    if v == 0 {
                        "200 PBSZ=0\r\n".to_owned()
                    } else {
                        "200 PBSZ=0 (only 0 supported for TLS)\r\n".to_owned()
                    }
                },
                None => "501 Invalid PBSZ parameter\r\n".to_owned(),
            },
        }
    }

    /// `PROT`, given the uppercased level.
    pub fn prot_with(&mut self, tls_available: bool, upper: Option<&str>) -> (r: String)
        ensures
            ({
                let d = spec_prot(
                    tls_available,
                    old(self).tls_enabled,
                    old(self).pbsz_set,
                    opt_str_view(upper),
                );
                r@ == d.1 && final(self)@ == apply_prot(old(self)@, d.0)
            }),
    {
        if !self.tls_enabled {
            return tls_off_reply(tls_available);
        }
        if !self.pbsz_set {
            return "503 Use PBSZ first\r\n".to_owned();
        }
        match upper {
            None => "501 PROT requires parameter\r\n".to_owned(),
            Some(u) => if str_eq(u, "P") {
                self.tls_data_required = true;
                "200 PROT Private - Data channel secured\r\n".to_owned()
            } else if str_eq(u, "C") {
                self.tls_data_required = false;
                "200 PROT Clear - Data channel unsecured\r\n".to_owned()
            } else if str_eq(u, "S") || str_eq(u, "E") {
                "536 PROT level not supported (use P or C)\r\n".to_owned()
            } else {
                "504 Unknown PROT level\r\n".to_owned()
            },
        }
    }

    pub fn cmd_prot(&mut self, tls_available: bool, arg: Option<&str>) -> (r: String)
        ensures
            ({
                let d = spec_prot(
                    tls_available,
                    old(self).tls_enabled,
                    old(self).pbsz_set,
                    upper_of(opt_str_view(arg)),
                );
                r@ == d.1 && final(self)@ == apply_prot(old(self)@, d.0)
            }),
    {
        match arg {
            Some(a) => {
                let u = to_uppercase(a);
                self.prot_with(tls_available, Some(u.as_str()))
            },
            None => self.prot_with(tls_available, None),
        }
    }

    /// `CCC`: back to clear text, forgetting the protection settings.
    pub fn cmd_ccc(&mut self) -> (r: String)
        ensures
            !old(self).tls_enabled ==> r@ == "533 Not in TLS mode\r\n"@ && final(self)@ == old(
                self,
            )@,
            old(self).tls_enabled ==> r@ == "200 CCC OK - reverting to clear text\r\n"@
                && final(self)@ == (SessionView {
                tls_enabled: false,
                tls_data_required: false,
                pbsz_set: false,
                ..old(self)@
            }),
    {
        if !self.tls_enabled {
            return "533 Not in TLS mode\r\n".to_owned();
        }
        self.tls_enabled = false;
        self.tls_data_required = false;
        self.pbsz_set = false;
        "200 CCC OK - reverting to clear text\r\n".to_owned()
    }
}

} // verus!
