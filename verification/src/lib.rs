//! Feed ingestion: catalog loading, per-feed selection of articles with a
//! validated image, normalisation to plain text and the rules of the
//! deduplicating sink; beside it the plain types of the web front.

pub mod article;
pub mod auth;
pub mod bounded;
pub mod catalog;
pub mod cli;
pub mod denylist;
pub mod drive;
pub mod error;
pub mod feed;
pub mod forms;
pub mod home;
pub mod image;
pub mod run;
pub mod sink;
pub mod state;
pub mod task;
pub mod text;
pub mod timeago;
pub mod toast;
pub mod urls;
