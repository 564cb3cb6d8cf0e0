//! The logic of a Zipline uploader: its configuration, settings and upload options, the
//! requests it sends and how it reads the replies, its command line, window state,
//! notifications, error log and desktop entries.

pub mod text;
pub mod paths;
pub mod headers;
pub mod settings;
pub mod config;
pub mod json;
pub mod upload;
pub mod shorten;
pub mod options;
pub mod window;
pub mod cli;
pub mod notify;
pub mod logger;
pub mod install;
