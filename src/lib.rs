//! Resolution of playable stream links for live rooms on four platforms.

pub mod bilibili;
pub mod config;
pub mod douyin;
pub mod douyu;
pub mod error;
pub mod eval;
pub mod history;
pub mod http_client;
pub mod huya;
pub mod parsed;
pub mod platform;
pub mod query;
pub mod text;
pub mod trusted;
