//! The informational replies: `HELP` and `FEAT`.

use vstd::prelude::*;
use crate::text::{chars_to_string, push_str, str_eq, to_uppercase, unicode_upper};
use crate::ftp::session::{opt_str_view, upper_of};

verus! {

/// The one-line help for an uppercased command name.
pub open spec fn spec_help_line(u: Seq<char>) -> Seq<char> {
    if u == "USER"@ { "214 USER <username>: Specify user name\r\n"@ }
    else if u == "PASS"@ { "214 PASS <password>: Specify password\r\n"@ }
    else if u == "CWD"@ { "214 CWD <directory>: Change working directory\r\n"@ }
    else if u == "CDUP"@ { "214 CDUP: Change to parent directory\r\n"@ }
    else if u == "PWD"@ { "214 PWD: Print working directory\r\n"@ }
    else if u == "LIST"@ { "214 LIST [<path>]: List directory contents\r\n"@ }
    else if u == "NLST"@ { "214 NLST [<path>]: List directory names\r\n"@ }
    else if u == "RETR"@ { "214 RETR <filename>: Retrieve file\r\n"@ }
    else if u == "STOR"@ { "214 STOR <filename>: Store file\r\n"@ }
    else if u == "DELE"@ { "214 DELE <filename>: Delete file\r\n"@ }
    else if u == "MKD"@ { "214 MKD <directory>: Create directory\r\n"@ }
    else if u == "RMD"@ { "214 RMD <directory>: Remove directory\r\n"@ }
    else if u == "RNFR"@ { "214 RNFR <filename>: Specify rename source\r\n"@ }
    else if u == "RNTO"@ { "214 RNTO <filename>: Specify rename destination\r\n"@ }
    else if u == "PASV"@ { "214 PASV: Enter passive mode\r\n"@ }
    else if u == "EPSV"@ { "214 EPSV: Enter extended passive mode\r\n"@ }
    else if u == "PORT"@ { "214 PORT <h1,h2,h3,h4,p1,p2>: Enter active mode\r\n"@ }
    else if u == "EPRT"@ { "214 EPRT |<netproto>|<netaddr>|<tcpport>|: Extended active mode\r\n"@ }
    else if u == "TYPE"@ { "214 TYPE <type>: Set transfer type (A/I)\r\n"@ }
    else if u == "MODE"@ { "214 MODE <mode>: Set transfer mode (S/B/C)\r\n"@ }
    else if u == "STRU"@ { "214 STRU <structure>: Set file structure (F/R/P)\r\n"@ }
    else if u == "REST"@ { "214 REST <offset>: Set restart marker\r\n"@ }
    else if u == "SIZE"@ { "214 SIZE <filename>: Get file size\r\n"@ }
    else if u == "MDTM"@ { "214 MDTM <filename>: Get modification time\r\n"@ }
    else if u == "ABOR"@ { "214 ABOR: Abort current transfer\r\n"@ }
    else if u == "QUIT"@ { "214 QUIT: Disconnect from server\r\n"@ }
    else { "214 Unknown command\r\n"@ }
}

/// The command summary sent for `HELP` without an argument.
pub open spec fn help_summary() -> Seq<char> {
    "214-The following commands are recognized:\r\n"@
        + "214-USER PASS CWD CDUP PWD LIST NLST RETR STOR\r\n"@
        + "214-DELE MKD RMD RNFR RNTO PASV EPSV PORT EPRT\r\n"@
        + "214-TYPE MODE STRU REST SIZE MDTM ABOR QUIT\r\n"@
        + "214-MLSD MLST SYST FEAT STAT HELP NOOP\r\n"@
        + "214 Direct comments to admin\r\n"@
}

pub open spec fn spec_help_reply(upper: Option<Seq<char>>) -> Seq<char> {
    match upper {
        Some(u) => spec_help_line(u),
        None => help_summary(),
    }
}

fn help_line(u: &str) -> (r: String)
    ensures
        r@ == spec_help_line(u@),
{
    let t = if str_eq(u, "USER") { "214 USER <username>: Specify user name\r\n" }
    else if str_eq(u, "PASS") { "214 PASS <password>: Specify password\r\n" }
    else if str_eq(u, "CWD") { "214 CWD <directory>: Change working directory\r\n" }
    else if str_eq(u, "CDUP") { "214 CDUP: Change to parent directory\r\n" }
    else if str_eq(u, "PWD") { "214 PWD: Print working directory\r\n" }
    else if str_eq(u, "LIST") { "214 LIST [<path>]: List directory contents\r\n" }
    else if str_eq(u, "NLST") { "214 NLST [<path>]: List directory names\r\n" }
    else if str_eq(u, "RETR") { "214 RETR <filename>: Retrieve file\r\n" }
    else if str_eq(u, "STOR") { "214 STOR <filename>: Store file\r\n" }
    else if str_eq(u, "DELE") { "214 DELE <filename>: Delete file\r\n" }
    else if str_eq(u, "MKD") { "214 MKD <directory>: Create directory\r\n" }
    else if str_eq(u, "RMD") { "214 RMD <directory>: Remove directory\r\n" }
    else if str_eq(u, "RNFR") { "214 RNFR <filename>: Specify rename source\r\n" }
    else if str_eq(u, "RNTO") { "214 RNTO <filename>: Specify rename destination\r\n" }
    else if str_eq(u, "PASV") { "214 PASV: Enter passive mode\r\n" }
    else if str_eq(u, "EPSV") { "214 EPSV: Enter extended passive mode\r\n" }
    else if str_eq(u, "PORT") { "214 PORT <h1,h2,h3,h4,p1,p2>: Enter active mode\r\n" }
    else if str_eq(u, "EPRT") { "214 EPRT |<netproto>|<netaddr>|<tcpport>|: Extended active mode\r\n" }
    else if str_eq(u, "TYPE") { "214 TYPE <type>: Set transfer type (A/I)\r\n" }
    else if str_eq(u, "MODE") { "214 MODE <mode>: Set transfer mode (S/B/C)\r\n" }
    else if str_eq(u, "STRU") { "214 STRU <structure>: Set file structure (F/R/P)\r\n" }
    else if str_eq(u, "REST") { "214 REST <offset>: Set restart marker\r\n" }
    else if str_eq(u, "SIZE") { "214 SIZE <filename>: Get file size\r\n" }
    else if str_eq(u, "MDTM") { "214 MDTM <filename>: Get modification time\r\n" }
    else if str_eq(u, "ABOR") { "214 ABOR: Abort current transfer\r\n" }
    else if str_eq(u, "QUIT") { "214 QUIT: Disconnect from server\r\n" }
    else { "214 Unknown command\r\n" };
    t.to_owned()
}

/// The reply to `HELP`, given the uppercased argument.
pub fn help_reply(upper: Option<&str>) -> (r: String)
    ensures
        r@ == spec_help_reply(opt_str_view(upper)),
{
    match upper {
        Some(u) => help_line(u),
        None => {
            let mut out: Vec<char> = Vec::new();
            push_str(&mut out, "214-The following commands are recognized:\r\n");
            push_str(&mut out, "214-USER PASS CWD CDUP PWD LIST NLST RETR STOR\r\n");
            push_str(&mut out, "214-DELE MKD RMD RNFR RNTO PASV EPSV PORT EPRT\r\n");
            push_str(&mut out, "214-TYPE MODE STRU REST SIZE MDTM ABOR QUIT\r\n");
            push_str(&mut out, "214-MLSD MLST SYST FEAT STAT HELP NOOP\r\n");
            push_str(&mut out, "214 Direct comments to admin\r\n");
            chars_to_string(out.as_slice())
        },
    }
}

pub fn cmd_help(arg: Option<&str>) -> (r: String)
    ensures
        r@ == spec_help_reply(upper_of(opt_str_view(arg))),
{
    match arg {
        Some(a) => {
            let u = to_uppercase(a);
            help_reply(Some(u.as_str()))
        },
        None => help_reply(None),
    }
}

/// The feature lines of `FEAT`, each followed by CRLF; the TLS features are listed
/// only when TLS can be negotiated.
pub open spec fn spec_feat_reply(tls_available: bool) -> Seq<char> {
    let base = "211-Features:\r\n"@ + " SIZE\r\n"@ + " MDTM\r\n"@ + " REST STREAM\r\n"@
        + " PASV\r\n"@ + " EPSV\r\n"@ + " EPRT\r\n"@ + " PORT\r\n"@ + " MLST\r\n"@
        + " MLSD\r\n"@ + " MODE\r\n"@ + " STRU\r\n"@ + " UTF8\r\n"@ + " TVFS\r\n"@
        + " STOU\r\n"@ + " SITE\r\n"@;
    let tls = if tls_available {
        " AUTH TLS\r\n"@ + " AUTH SSL\r\n"@ + " PBSZ\r\n"@ + " PROT\r\n"@
    } else {
        Seq::empty()
    };
    base + tls + "211 End\r\n"@
}

pub fn feat_reply(tls_available: bool) -> (r: String)
    ensures
        r@ == spec_feat_reply(tls_available),
{
    let mut out: Vec<char> = Vec::new();
    push_str(&mut out, "211-Features:\r\n");
    push_str(&mut out, " SIZE\r\n");
    push_str(&mut out, " MDTM\r\n");
    push_str(&mut out, " REST STREAM\r\n");
    push_str(&mut out, " PASV\r\n");
    push_str(&mut out, " EPSV\r\n");
    push_str(&mut out, " EPRT\r\n");
    push_str(&mut out, " PORT\r\n");
    push_str(&mut out, " MLST\r\n");
    push_str(&mut out, " MLSD\r\n");
    push_str(&mut out, " MODE\r\n");
    push_str(&mut out, " STRU\r\n");
    push_str(&mut out, " UTF8\r\n");
    push_str(&mut out, " TVFS\r\n");
    push_str(&mut out, " STOU\r\n");
    push_str(&mut out, " SITE\r\n");
    let ghost base = out@;
    if tls_available {
        push_str(&mut out, " AUTH TLS\r\n");
        push_str(&mut out, " AUTH SSL\r\n");
        push_str(&mut out, " PBSZ\r\n");
        push_str(&mut out, " PROT\r\n");
    }
    let ghost mid = out@;
    push_str(&mut out, "211 End\r\n");
    proof {
        if !tls_available {
            assert(mid =~= base + Seq::<char>::empty());
        }
    }
    chars_to_string(out.as_slice())
}

} // verus!
