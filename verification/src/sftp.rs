//! The SFTP subsystem: framing of the channel's byte stream and the decisions taken
//! on each request.

pub mod framing;
pub mod requests;
pub mod access;
pub mod attrs;
pub mod status;
pub mod extended;
pub mod auth;
pub mod links;
pub mod handles;
pub mod copy;
pub mod accept;
pub mod serve;
