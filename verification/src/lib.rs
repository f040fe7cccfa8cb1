//! Verified core of a small web front end for yt-dlp: the service configuration,
//! the yt-dlp command lines, the reading of yt-dlp's answers, and the decisions
//! taken while a download request is served (access, storage accounting, replies).

pub mod error;
pub mod text;
pub mod config;
pub mod ytdlp;
pub mod request;
pub mod hashing;
