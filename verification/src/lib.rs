//! The decision core of a bot that looks for open issues and forum topics
//! which no team member has answered, and reports them.
//!
//! Nothing here does I/O. A search is a value that names the next request
//! and takes the answer to it; the caller sends the request, decodes what
//! comes back, and hands in the answer, or the failure:
//!
//! - [`paging`] lists a remote collection page by page,
//! - [`providers::github`] searches the issues of the watched repositories,
//! - [`providers::discourse`] searches the topics of the watched categories,
//! - [`providers::slack`] describes the message that carries the report,
//! - [`report`] writes the report, and [`config`] says where it goes,
//! - [`time`] measures the span between two instants, and [`text`] holds
//!   what the others need to read and write text.

pub mod config;
pub mod paging;
pub mod providers;
pub mod report;
pub mod text;
pub mod time;
