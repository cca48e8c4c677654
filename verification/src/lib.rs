//! Image-search scraping, verified.
//!
//! The crate holds the decisions of a command-line image downloader: how a
//! search request is addressed, what a result page looks like, how a file is
//! named, and how the paginated download loop moves from one step to the
//! next. Network and file-system work is left to the caller, which feeds the
//! outcomes back in as plain values.

pub mod client;
pub mod download;
pub mod fetch;
pub mod schema;
pub mod text;

pub use client::{Client, SearchError};
pub use download::{Action, DownloadLoop, Event, Phase};
pub use fetch::{check_status, file_extension, file_name, fresh_file_name, is_success, FetchError};
pub use schema::{Context, Image, Item, Queries, Request, Response, SearchInformation, Url};
