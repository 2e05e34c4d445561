//! Texts describing a file: modification times in the formats the protocols use, the
//! Unix mode in octal, MLST fact lists, and the MLST and MLSD lines built from them.
//!
//! The times are given as seconds and nanoseconds since the Unix epoch, `None` when
//! the file system could not tell.

use vstd::prelude::*;
use std::fmt::Write;
use crate::text::{chars_to_string, push_decimal, push_str, spec_decimal};
use crate::utils::{escape_mlst_filename, spec_escape_mlst};

verus! {

/// What `chrono` prints for the instant `secs`/`nanos` after the epoch (UTC) with the
/// format `fmt`, `None` when the instant is out of its range or `fmt` holds an item
/// that `chrono` cannot format.
pub uninterp spec fn chrono_text(secs: i64, nanos: u32, fmt: Seq<char>) -> Option<Seq<char>>;

/// Calls `chrono::DateTime::from_timestamp(secs, nanos)` and writes the instant in the
/// format `fmt` into a string; a formatting error (an invalid item in `fmt`) gives
/// `None`, as does an instant out of range. The outcome is named
/// `chrono_text(secs, nanos, fmt)`.
#[verifier::external_body]
pub(crate) fn chrono_format(secs: i64, nanos: u32, fmt: &str) -> (r: Option<String>)
    ensures
        match r {
            Some(t) => chrono_text(secs, nanos, fmt@) == Some(t@),
            None => chrono_text(secs, nanos, fmt@) is None,
        },
{
    match chrono::DateTime::from_timestamp(secs, nanos) {
        Some(dt) => {
            let mut out = String::new();
            match write!(out, "{}", dt.format(fmt)) {
                Ok(()) => Some(out),
                Err(_) => None,
            }
        },
        None => None,
    }
}

/// A modification time in `fmt`, or `fallback` when it is unknown or out of range.
pub open spec fn spec_time_text(mtime: Option<(u64, u32)>, fmt: Seq<char>, fallback: Seq<char>) -> Seq<char> {
    match mtime {
        Some((s, n)) => match chrono_text(s as i64, n, fmt) {
            Some(t) => t,
            None => fallback,
        },
        None => fallback,
    }
}

fn time_text(mtime: Option<(u64, u32)>, fmt: &str, fallback: &str) -> (r: String)
    ensures
        r@ == spec_time_text(mtime, fmt@, fallback@),
{
    match mtime {
        Some((s, n)) => match chrono_format(s as i64, n, fmt) {
            Some(t) => t,
            None => fallback.to_owned(),
        },
        None => fallback.to_owned(),
    }
}

/// The listing time `YYYY-MM-DD HH:MM`.
pub fn get_file_mtime(mtime: Option<(u64, u32)>) -> (r: String)
    ensures
        r@ == spec_time_text(mtime, "%Y-%m-%d %H:%M"@, "1970-01-01 00:00"@),
{
    time_text(mtime, "%Y-%m-%d %H:%M", "1970-01-01 00:00")
}

/// The RFC 3659 time `YYYYMMDDHHMMSS.sss`.
pub fn format_mtime_rfc3659(mtime: Option<(u64, u32)>) -> (r: String)
    ensures
        r@ == spec_time_text(mtime, "%Y%m%d%H%M%S%.3f"@, "19700101000000"@),
{
    time_text(mtime, "%Y%m%d%H%M%S%.3f", "19700101000000")
}

/// The seconds since the epoch in decimal, `0` when unknown.
pub fn get_file_mtime_raw(mtime_secs: Option<u64>) -> (r: String)
    ensures
        r@ == match mtime_secs {
            Some(s) => spec_decimal(s as nat),
            None => "0"@,
        },
{
    match mtime_secs {
        Some(s) => {
            let mut out: Vec<char> = Vec::new();
            push_decimal(&mut out, s);
            chars_to_string(out.as_slice())
        },
        None => "0".to_owned(),
    }
}

pub open spec fn octal_digit_char(d: nat) -> char {
    (('0' as nat) + d) as char
}

/// `{:04o}` of the permission bits (`mode & 0o7777`): four octal digits.
pub open spec fn spec_unix_mode(mode: u32) -> Seq<char> {
    let m = mode & 0o7777;
    seq![
        octal_digit_char(((m / 512) % 8) as nat),
        octal_digit_char(((m / 64) % 8) as nat),
        octal_digit_char(((m / 8) % 8) as nat),
        octal_digit_char((m % 8) as nat),
    ]
}

fn octal_char(d: u32) -> (c: char)
    requires
        d < 8,
    ensures
        c == octal_digit_char(d as nat),
{
    match d {
        0 => '0',
        1 => '1',
        2 => '2',
        3 => '3',
        4 => '4',
        5 => '5',
        6 => '6',
        _ => '7',
    }
}

pub fn get_unix_mode(mode: u32) -> (r: String)
    ensures
        r@ == spec_unix_mode(mode),
{
    let m = mode & 0o7777;
    let v = vec![octal_char((m / 512) % 8), octal_char((m / 64) % 8), octal_char((m / 8) % 8), octal_char(m % 8)];
    assert(v@ =~= spec_unix_mode(mode));
    chars_to_string(v.as_slice())
}

/// The MLST facts of a file: its type, size, modification time and mode.
pub open spec fn spec_mlst_facts(is_dir: bool, size: u64, modify: Seq<char>, mode: Seq<char>) -> Seq<char> {
    (if is_dir {
        "type=dir;"@
    } else {
        "type=file;"@
    }) + "size="@ + spec_decimal(size as nat) + ";"@ + "modify="@ + modify + ";"@ + "unix.mode="@ + mode
        + ";"@
}

pub fn build_mlst_facts(is_dir: bool, size: u64, modify: &str, mode: &str) -> (r: String)
    ensures
        r@ == spec_mlst_facts(is_dir, size, modify@, mode@),
{
    let mut out: Vec<char> = Vec::new();
    push_str(&mut out, if is_dir { "type=dir;" } else { "type=file;" });
    push_str(&mut out, "size=");
    push_decimal(&mut out, size);
    push_str(&mut out, ";");
    push_str(&mut out, "modify=");
    push_str(&mut out, modify);
    push_str(&mut out, ";");
    push_str(&mut out, "unix.mode=");
    push_str(&mut out, mode);
    push_str(&mut out, ";");
    chars_to_string(out.as_slice())
}

/// A line of an `MLSD` listing: the facts, a space, and the escaped name.
pub fn mlsd_line(facts: &str, name: &str) -> (r: String)
    ensures
        r@ == facts@ + " "@ + spec_escape_mlst(name@) + "\r\n"@,
{
    let escaped = escape_mlst_filename(name);
    let mut out: Vec<char> = Vec::new();
    push_str(&mut out, facts);
    push_str(&mut out, " ");
    push_str(&mut out, escaped.as_str());
    push_str(&mut out, "\r\n");
    chars_to_string(out.as_slice())
}

/// The reply to `MLST`: the path asked about, then its facts and escaped name on a
/// line of their own.
pub fn mlst_reply(path: &str, facts: &str, name: &str) -> (r: String)
    ensures
        r@ == "250-Listing "@ + path@ + "\r\n "@ + facts@ + spec_escape_mlst(name@) + "\r\n250 End\r\n"@,
{
    let escaped = escape_mlst_filename(name);
    let mut out: Vec<char> = Vec::new();
    push_str(&mut out, "250-Listing ");
    push_str(&mut out, path);
    push_str(&mut out, "\r\n ");
    push_str(&mut out, facts);
    push_str(&mut out, escaped.as_str());
    push_str(&mut out, "\r\n250 End\r\n");
    chars_to_string(out.as_slice())
}

} // verus!
