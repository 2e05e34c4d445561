//! Verified core of an FTP/SFTP file server: wire codecs, request decisions,
//! path confinement, connection and speed limiting, and session state machines.

pub mod bytes;

pub mod packet;
pub mod text;
pub mod paths;
pub mod resolver;
pub mod utils;
pub mod clock;
pub mod rate_limit;
pub mod speed_limiter;
pub mod tls;
pub mod ftp;
pub mod sftp;
pub mod facts;
pub mod quota;
pub mod openat;
pub mod panel;
pub mod json;
pub mod logs;
pub mod service;
pub mod daemon;
pub mod control;
