//! The SFTP status code and message answered for a failed file-system operation.

use vstd::prelude::*;
use crate::packet::{SSH_FX_FAILURE, SSH_FX_NO_SUCH_FILE, SSH_FX_PERMISSION_DENIED};

verus! {

/// The kinds of I/O error that get a message of their own.
#[derive(Clone, Copy, Debug, PartialEq, Eq, Structural)]
pub enum IoErrorKind {
    NotFound,
    PermissionDenied,
    AlreadyExists,
    IsADirectory,
    NotADirectory,
    Other,
}

/// The `errno` values that get a message of their own, as the platform numbers them
/// (the caller reads them from `libc`).
#[derive(Clone, Copy, Debug)]
pub struct ErrnoCodes {
    pub exdev: i32,
    pub enospc: i32,
    pub erofs: i32,
    pub eacces: i32,
    pub enoent: i32,
    pub enotdir: i32,
    pub eisdir: i32,
    pub eexist: i32,
    pub emlink: i32,
}

/// The status for an error kind alone.
pub open spec fn spec_status_for_kind(kind: IoErrorKind) -> (u32, Seq<char>) {
    match kind {
        IoErrorKind::NotFound => (SSH_FX_NO_SUCH_FILE, "No such file or directory"@),
        IoErrorKind::PermissionDenied => (SSH_FX_PERMISSION_DENIED, "Permission denied"@),
        IoErrorKind::AlreadyExists => (SSH_FX_FAILURE, "File already exists"@),
        IoErrorKind::IsADirectory => (SSH_FX_FAILURE, "Is a directory"@),
        IoErrorKind::NotADirectory => (SSH_FX_FAILURE, "Not a directory"@),
        IoErrorKind::Other => (SSH_FX_FAILURE, "Operation failed"@),
    }
}

/// The status for an I/O error by its kind alone.
pub fn basic_io_error_status(kind: IoErrorKind) -> (r: (u32, &'static str))
    ensures
        (r.0, r.1@) == spec_status_for_kind(kind),
{
    match kind {
        IoErrorKind::NotFound => (SSH_FX_NO_SUCH_FILE, "No such file or directory"),
        IoErrorKind::PermissionDenied => (SSH_FX_PERMISSION_DENIED, "Permission denied"),
        IoErrorKind::AlreadyExists => (SSH_FX_FAILURE, "File already exists"),
        IoErrorKind::IsADirectory => (SSH_FX_FAILURE, "Is a directory"),
        IoErrorKind::NotADirectory => (SSH_FX_FAILURE, "Not a directory"),
        IoErrorKind::Other => (SSH_FX_FAILURE, "Operation failed"),
    }
}

/// The status for an error of another kind, by its operating-system code.
pub open spec fn spec_status_for_code(code: i32, c: ErrnoCodes) -> (u32, Seq<char>) {
    if code == c.exdev {
        (SSH_FX_FAILURE, "Cross-device link not supported"@)
    } else if code == c.enospc {
        (SSH_FX_FAILURE, "No space left on device"@)
    } else if code == c.erofs {
        (SSH_FX_PERMISSION_DENIED, "Read-only file system"@)
    } else if code == c.eacces {
        (SSH_FX_PERMISSION_DENIED, "Permission denied"@)
    } else if code == c.enoent {
        (SSH_FX_NO_SUCH_FILE, "No such file or directory"@)
    } else if code == c.enotdir {
        (SSH_FX_FAILURE, "Not a directory"@)
    } else if code == c.eisdir {
        (SSH_FX_FAILURE, "Is a directory"@)
    } else if code == c.eexist {
        (SSH_FX_FAILURE, "File already exists"@)
    } else if code == c.emlink {
        (SSH_FX_FAILURE, "Too many links"@)
    } else {
        (SSH_FX_FAILURE, "Operation failed"@)
    }
}

/// The status for an error: by its kind when the kind has a message, else by its
/// operating-system code (0 when it has none).
pub open spec fn spec_status_for_error(kind: IoErrorKind, raw: Option<i32>, c: ErrnoCodes) -> (u32, Seq<char>) {
    match kind {
        IoErrorKind::Other => spec_status_for_code(
            match raw {
                Some(v) => v,
                None => 0,
            },
            c,
        ),
        _ => spec_status_for_kind(kind),
    }
}

/// The status for an I/O error, by its kind and, for other kinds, its
/// operating-system code.
pub fn io_error_to_sftp_status(kind: IoErrorKind, raw: Option<i32>, c: &ErrnoCodes) -> (r: (u32, &'static str))
    ensures
        (r.0, r.1@) == spec_status_for_error(kind, raw, *c),
{
    match kind {
        IoErrorKind::Other => {
            let code = match raw {
                Some(v) => v,
                None => 0,
            };
            if code == c.exdev {
                (SSH_FX_FAILURE, "Cross-device link not supported")
            } else if code == c.enospc {
                (SSH_FX_FAILURE, "No space left on device")
            } else if code == c.erofs {
                (SSH_FX_PERMISSION_DENIED, "Read-only file system")
            } else if code == c.eacces {
                (SSH_FX_PERMISSION_DENIED, "Permission denied")
            } else if code == c.enoent {
                (SSH_FX_NO_SUCH_FILE, "No such file or directory")
            } else if code == c.enotdir {
                (SSH_FX_FAILURE, "Not a directory")
            } else if code == c.eisdir {
                (SSH_FX_FAILURE, "Is a directory")
            } else if code == c.eexist {
                (SSH_FX_FAILURE, "File already exists")
            } else if code == c.emlink {
                (SSH_FX_FAILURE, "Too many links")
            } else {
                (SSH_FX_FAILURE, "Operation failed")
            }
        },
        _ => basic_io_error_status(kind),
    }
}

} // verus!
