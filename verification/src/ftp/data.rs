//! Setting up the data connection: `PORT`, `EPRT`, `PASV` and `EPSV`.

use vstd::prelude::*;
use crate::text::{
    chars_to_string, parse_unsigned, push_decimal, push_str, spec_decimal, spec_parse_unsigned,
    spec_split, split_on, str_eq, str_to_chars, texts,
};
use crate::ftp::session::{SessionState, SessionView, opt_str_view};

verus! {

/// The numbers among the fields, in order: the fields that parse as `u16`, the others
/// skipped.
pub open spec fn u16_values(fields: Seq<Seq<char>>) -> Seq<nat>
    decreases fields.len(),
{
    if fields.len() == 0 {
        Seq::empty()
    } else {
        let r = u16_values(fields.drop_last());
        match spec_parse_unsigned(fields.last(), 65535) {
            Some(v) => r.push(v),
            None => r,
        }
    }
}

/// The numbers of a `PORT` argument.
pub open spec fn port_numbers(arg: Seq<char>) -> Seq<nat> {
    u16_values(spec_split(arg, ','))
}

/// `h1.h2.h3.h4`, each number in decimal.
pub open spec fn dotted(n: Seq<nat>) -> Seq<char> {
    spec_decimal(n[0]) + "."@ + spec_decimal(n[1]) + "."@ + spec_decimal(n[2]) + "."@
        + spec_decimal(n[3])
}

/// The port of a `PORT` argument with six numbers, `p1 * 256 + p2`, computed in `u16`:
/// the argument must not make that overflow.
pub open spec fn port_fits(arg: Option<Seq<char>>) -> bool {
    match arg {
        Some(a) => {
            let n = port_numbers(a);
            n.len() == 6 ==> n[4] * 256 + n[5] <= 65535
        },
        None => true,
    }
}

pub open spec fn spec_port(s: SessionView, arg: Option<Seq<char>>, remote_ip: Seq<char>) -> (SessionView, Seq<char>) {
    match arg {
        None => (s, "501 Syntax error: PORT requires parameters\r\n"@),
        Some(a) => {
            let n = port_numbers(a);
            if n.len() != 6 {
                (s, "501 Syntax error in parameters or arguments\r\n"@)
            } else if dotted(n) != remote_ip {
                (s, "500 Illegal PORT command - IP must match client IP\r\n"@)
            } else {
                let port = n[4] * 256 + n[5];
                (
                    SessionView {
                        data_port: Some(port as u16),
                        data_addr: Some(dotted(n) + ":"@ + spec_decimal(port as nat)),
                        passive_mode: false,
                        ..s
                    },
                    "200 PORT command successful\r\n"@,
                )
            }
        },
    }
}

fn u16_numbers(fields: &Vec<Vec<char>>) -> (r: Vec<u16>)
    ensures
        r@.map_values(|x: u16| x as nat) == u16_values(texts(fields@)),
{
    let mut nums: Vec<u16> = Vec::new();
    let mut i: usize = 0;
    assert(texts(fields@).take(0) =~= Seq::<Seq<char>>::empty());
    while i < fields.len()
        invariant
            i <= fields@.len(),
            nums@.map_values(|x: u16| x as nat) == u16_values(texts(fields@).take(i as int)),
        decreases fields.len() - i,
    {
        let f = chars_to_string(fields[i].as_slice());
        let ghost pre = texts(fields@).take(i as int);
        assert(texts(fields@).take(i + 1).drop_last() =~= pre);
        assert(texts(fields@).take(i + 1).last() == fields@[i as int]@);
        match parse_unsigned(f.as_str(), 65535) {
            Some(v) => {
                let ghost before = nums@.map_values(|x: u16| x as nat);
                nums.push(v as u16);
                assert(nums@.map_values(|x: u16| x as nat) =~= before.push(v as nat));
            },
            None => {},
        }
        i = i + 1;
    }
    assert(texts(fields@).take(fields@.len() as int) =~= texts(fields@));
    nums
}

fn push_dotted(out: &mut Vec<char>, n: &Vec<u16>)
    requires
        n@.len() >= 4,
    ensures
        final(out)@ == old(out)@ + dotted(n@.map_values(|x: u16| x as nat)),
{
    let ghost nv = n@.map_values(|x: u16| x as nat);
    push_decimal(out, n[0] as u64);
    push_str(out, ".");
    push_decimal(out, n[1] as u64);
    push_str(out, ".");
    push_decimal(out, n[2] as u64);
    push_str(out, ".");
    push_decimal(out, n[3] as u64);
    assert(out@ =~= old(out)@ + dotted(nv));
}

impl SessionState {
    /// `PORT h1,h2,h3,h4,p1,p2`: active mode towards the client's own address only.
    pub fn cmd_port(&mut self, arg: Option<&str>, remote_ip: &str) -> (r: String)
        requires
            port_fits(opt_str_view(arg)),
        ensures
            (final(self)@, r@) == spec_port(old(self)@, opt_str_view(arg), remote_ip@),
    {
        let a = match arg {
            None => {
                return "501 Syntax error: PORT requires parameters\r\n".to_owned();
            },
            Some(a) => a,
        };
        let fields = split_on(a, ',');
        let n = u16_numbers(&fields);
        let ghost nv = n@.map_values(|x: u16| x as nat);
        if n.len() != 6 {
            return "501 Syntax error in parameters or arguments\r\n".to_owned();
        }
        let mut ip: Vec<char> = Vec::new();
        push_dotted(&mut ip, &n);
        assert(ip@ =~= dotted(nv));
        let ip_text = chars_to_string(ip.as_slice());
        if !str_eq(ip_text.as_str(), remote_ip) {
            return "500 Illegal PORT command - IP must match client IP\r\n".to_owned();
        }
        assert(nv[4] == n@[4] && nv[5] == n@[5]);
        let port: u16 = n[4] * 256 + n[5];
        let mut addr = ip;
        push_str(&mut addr, ":");
        push_decimal(&mut addr, port as u64);
        self.data_port = Some(port);
        self.data_addr = Some(chars_to_string(addr.as_slice()));
        self.passive_mode = false;
        "200 PORT command successful\r\n".to_owned()
    }
}

/// Whether a `PORT` argument keeps `p1 * 256 + p2` within `u16`.
pub fn port_argument_fits(arg: Option<&str>) -> (r: bool)
    ensures
        r == port_fits(opt_str_view(arg)),
{
    match arg {
        None => true,
        Some(a) => {
            let fields = split_on(a, ',');
            let n = u16_numbers(&fields);
            let ghost nv = n@.map_values(|x: u16| x as nat);
            if n.len() != 6 {
                return true;
            }
            assert(nv[4] == n@[4] && nv[5] == n@[5]);
            (n[4] as u32) * 256 + (n[5] as u32) <= 65535
        },
    }
}

pub open spec fn spec_eprt(s: SessionView, arg: Option<Seq<char>>, remote_ip: Seq<char>) -> (SessionView, Seq<char>) {
    match arg {
        None => (s, "501 Syntax error: EPRT requires parameters\r\n"@),
        Some(a) => {
            let parts = spec_split(a, '|');
            if parts.len() < 4 {
                (s, "501 Syntax error in EPRT parameters\r\n"@)
            } else if parts[2] != remote_ip {
                (s, "500 Illegal EPRT command - IP must match client IP\r\n"@)
            } else if parts[1] == "1"@ || parts[1] == "2"@ {
                match spec_parse_unsigned(parts[3], 65535) {
                    None => (s, "501 Invalid port number\r\n"@),
                    Some(p) => {
                        let v6 = parts[1] == "2"@;
                        let addr = if v6 {
                            "["@ + parts[2] + "]:"@ + spec_decimal(p)
                        } else {
                            parts[2] + ":"@ + spec_decimal(p)
                        };
                        (
                            SessionView {
                                data_port: Some(p as u16),
                                data_addr: Some(addr),
                                passive_mode: false,
                                ..s
                            },
                            if v6 {
                                "200 EPRT command successful (IPv6)\r\n"@
                            } else {
                                "200 EPRT command successful\r\n"@
                            },
                        )
                    },
                }
            } else {
                (s, "522 Protocol not supported, use (1,2)\r\n"@)
            }
        },
    }
}

impl SessionState {
    /// `EPRT |proto|addr|port|`: active mode towards the client's own address only.
    pub fn cmd_eprt(&mut self, arg: Option<&str>, remote_ip: &str) -> (r: String)
        ensures
            (final(self)@, r@) == spec_eprt(old(self)@, opt_str_view(arg), remote_ip@),
    {
        let a = match arg {
            None => {
                return "501 Syntax error: EPRT requires parameters\r\n".to_owned();
            },
            Some(a) => a,
        };
        let parts = split_on(a, '|');
        let ghost pv = texts(parts@);
        if parts.len() < 4 {
            return "501 Syntax error in EPRT parameters\r\n".to_owned();
        }
        assert(pv[1] == parts@[1]@ && pv[2] == parts@[2]@ && pv[3] == parts@[3]@);
        let proto = chars_to_string(parts[1].as_slice());
        let addr = chars_to_string(parts[2].as_slice());
        let port_text = chars_to_string(parts[3].as_slice());
        if !str_eq(addr.as_str(), remote_ip) {
            return "500 Illegal EPRT command - IP must match client IP\r\n".to_owned();
        }
        let v4 = str_eq(proto.as_str(), "1");
        let v6 = str_eq(proto.as_str(), "2");
        if !v4 && !v6 {
            return "522 Protocol not supported, use (1,2)\r\n".to_owned();
        }
        match parse_unsigned(port_text.as_str(), 65535) {
            None => "501 Invalid port number\r\n".to_owned(),
            Some(p) => {
                let mut out: Vec<char> = Vec::new();
                if v6 {
                    push_str(&mut out, "[");
                    push_str(&mut out, addr.as_str());
                    push_str(&mut out, "]:");
                } else {
                    push_str(&mut out, addr.as_str());
                    push_str(&mut out, ":");
                }
                push_decimal(&mut out, p);
                self.data_port = Some(p as u16);
                self.data_addr = Some(chars_to_string(out.as_slice()));
                self.passive_mode = false;
                if v6 {
                    "200 EPRT command successful (IPv6)\r\n".to_owned()
                } else {
                    "200 EPRT command successful\r\n".to_owned()
                }
            },
        }
    }

    /// `PASV` and `EPSV` switch to passive mode before anything else is checked.
    pub fn enter_passive(&mut self)
        ensures
            final(self)@ == (SessionView { passive_mode: true, ..old(self)@ }),
    {
        self.passive_mode = true;
    }

    /// A passive listener was opened on `port`.
    pub fn passive_port_opened(&mut self, port: u16)
        ensures
            final(self)@ == (SessionView { data_port: Some(port), ..old(self)@ }),
    {
        self.data_port = Some(port);
    }
}

/// Whether the client's address is IPv6 (it holds a `:`), which `PASV` cannot express.
pub fn is_ipv6_text(ip: &str) -> (r: bool)
    ensures
        r == ip@.contains(':'),
{
    let cs = str_to_chars(ip);
    let mut i: usize = 0;
    while i < cs.len()
        invariant
            i <= cs@.len(),
            cs@ == ip@,
            forall|j: int| 0 <= j < i ==> cs@[j] != ':',
        decreases cs.len() - i,
    {
        if cs[i] == ':' {
            assert(ip@[i as int] == ':');
            return true;
        }
        i = i + 1;
    }
    false
}

/// The address announced for `PASV`: the masquerade address when set, else the local
/// address of the connection (or the client's) when listening on all interfaces, else
/// the bind address.
pub open spec fn spec_pasv_ip(
    masquerade: Option<Seq<char>>,
    bind_ip: Seq<char>,
    local_ip: Option<Seq<char>>,
    remote_ip: Seq<char>,
) -> Seq<char> {
    match masquerade {
        Some(m) => m,
        None => if bind_ip == "0.0.0.0"@ {
            match local_ip {
                Some(l) => l,
                None => remote_ip,
            }
        } else {
            bind_ip
        },
    }
}

pub fn pasv_server_ip(masquerade: Option<&str>, bind_ip: &str, local_ip: Option<&str>, remote_ip: &str) -> (r: String)
    ensures
        r@ == spec_pasv_ip(opt_str_view(masquerade), bind_ip@, opt_str_view(local_ip), remote_ip@),
{
    match masquerade {
        Some(m) => m.to_owned(),
        None => if str_eq(bind_ip, "0.0.0.0") {
            match local_ip {
                Some(l) => l.to_owned(),
                None => remote_ip.to_owned(),
            }
        } else {
            bind_ip.to_owned()
        },
    }
}

/// Every `.` turned into `,`.
pub open spec fn dots_to_commas(s: Seq<char>) -> Seq<char> {
    s.map_values(|c: char| if c == '.' { ',' } else { c })
}

pub open spec fn spec_pasv_reply(ip: Seq<char>, port: u16) -> Seq<char> {
    "227 Entering Passive Mode ("@ + dots_to_commas(ip) + ","@ + spec_decimal((port / 256) as nat)
        + ","@ + spec_decimal((port % 256) as nat) + ")\r\n"@
}

/// The `227` reply announcing `ip` and `port`.
pub fn pasv_reply(ip: &str, port: u16) -> (r: String)
    ensures
        r@ == spec_pasv_reply(ip@, port),
{
    let cs = str_to_chars(ip);
    let mut out: Vec<char> = Vec::new();
    push_str(&mut out, "227 Entering Passive Mode (");
    let ghost start = out@;
    let mut i: usize = 0;
    while i < cs.len()
        invariant
            i <= cs@.len(),
            cs@ == ip@,
            out@ == start + dots_to_commas(cs@.take(i as int)),
        decreases cs.len() - i,
    {
        let c = cs[i];
        out.push(if c == '.' { ',' } else { c });
        i = i + 1;
        assert(out@ =~= start + dots_to_commas(cs@.take(i as int)));
    }
    assert(cs@.take(cs@.len() as int) =~= cs@);
    push_str(&mut out, ",");
    push_decimal(&mut out, (port / 256) as u64);
    push_str(&mut out, ",");
    push_decimal(&mut out, (port % 256) as u64);
    push_str(&mut out, ")\r\n");
    chars_to_string(out.as_slice())
}

/// The `229` reply announcing `port`.
pub fn epsv_reply(port: u16) -> (r: String)
    ensures
        r@ == "229 Entering Extended Passive Mode (|||"@ + spec_decimal(port as nat) + "|)\r\n"@,
{
    let mut out: Vec<char> = Vec::new();
    push_str(&mut out, "229 Entering Extended Passive Mode (|||");
    push_decimal(&mut out, port as u64);
    push_str(&mut out, "|)\r\n");
    chars_to_string(out.as_slice())
}

/// The lowest port in `min..=max` that no passive listener holds.
pub fn first_free_port(in_use: &Vec<u16>, min: u16, max: u16) -> (r: Option<u16>)
    ensures
        match r {
            Some(p) => min <= p <= max && !in_use@.contains(p) && forall|q: u16|
                min <= q < p ==> in_use@.contains(q),
            None => forall|q: u16| min <= q <= max ==> in_use@.contains(q),
        },
{
    if min > max {
        return None;
    }
    let mut p: u32 = min as u32;
    while p <= max as u32
        invariant
            min <= p <= max as u32 + 1,
            max <= 65535,
            forall|q: u16| min <= q < p ==> in_use@.contains(q),
        decreases max as u32 + 1 - p,
    {
        let cand = p as u16;
        let mut found = false;
        let mut i: usize = 0;
        while i < in_use.len()
            invariant
                i <= in_use@.len(),
                found == exists|j: int| 0 <= j < i && in_use@[j] == cand,
            decreases in_use.len() - i,
        {
            if in_use[i] == cand {
                found = true;
            }
            i = i + 1;
        }
        if !found {
            assert forall|j: int| 0 <= j < in_use@.len() implies in_use@[j] != cand by {}
            return Some(cand);
        }
        assert(in_use@.contains(cand));
        p = p + 1;
    }
    None
}

/// Where a transfer's data connection comes from.
pub enum DataTarget {
    /// Accept on the passive listener of this port.
    Passive(u16),
    /// Connect to this address.
    Connect(String),
}

pub open spec fn data_target_view(t: DataTarget) -> (Option<u16>, Seq<char>) {
    match t {
        DataTarget::Passive(p) => (Some(p), Seq::empty()),
        DataTarget::Connect(a) => (None, a@),
    }
}

/// A transfer needs a data port. In passive mode the client connects to that port;
/// otherwise the server connects to the address `PORT`/`EPRT` gave, or else to the
/// client's address at that port.
pub open spec fn spec_data_target(
    passive: bool,
    data_port: Option<u16>,
    data_addr: Option<Seq<char>>,
    remote_ip: Seq<char>,
) -> Result<(Option<u16>, Seq<char>), Seq<char>> {
    match data_port {
        None => Err("No data port specified"@),
        Some(p) => if passive {
            Ok((Some(p), Seq::empty()))
        } else {
            match data_addr {
                Some(a) => Ok((None, a)),
                None => Ok((None, remote_ip + ":"@ + spec_decimal(p as nat))),
            }
        },
    }
}

pub fn data_target(passive: bool, data_port: Option<u16>, data_addr: Option<&str>, remote_ip: &str) -> (r: Result<DataTarget, &'static str>)
    ensures
        match r {
            Ok(t) => spec_data_target(passive, data_port, opt_str_view(data_addr), remote_ip@) == Ok::<
                (Option<u16>, Seq<char>),
                Seq<char>,
            >(data_target_view(t)),
            Err(e) => spec_data_target(passive, data_port, opt_str_view(data_addr), remote_ip@) == Err::<
                (Option<u16>, Seq<char>),
                Seq<char>,
            >(e@),
        },
{
    let p = match data_port {
        None => {
            return Err("No data port specified");
        },
        Some(p) => p,
    };
    if passive {
        return Ok(DataTarget::Passive(p));
    }
    match data_addr {
        Some(a) => Ok(DataTarget::Connect(a.to_owned())),
        None => {
            let mut out: Vec<char> = Vec::new();
            push_str(&mut out, remote_ip);
            push_str(&mut out, ":");
            push_decimal(&mut out, p as u64);
            Ok(DataTarget::Connect(chars_to_string(out.as_slice())))
        },
    }
}

} // verus!
