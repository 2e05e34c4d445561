//! The FTP control connection: reading commands and deciding their replies.

pub mod command;
pub mod session;
pub mod info;
pub mod security;
pub mod data;
pub mod login;
pub mod transfer;
pub mod flow;
