//! Saves every image attached to an imageboard thread under a directory
//! named after the thread.
//!
//! The library holds the decisions of that job: which thread URLs are
//! accepted, where each image goes on disk, which links a thread page yields,
//! and how the outcomes of the downloads become a report and an exit code.
//! Fetching and writing are left to the caller.

pub mod extract;
pub mod layout;
pub mod run;
pub mod web_url;

pub use web_url::{img_path_2_url, validate_url, UrlError, WebUrl};
pub use layout::{thread_id_and_name, url_to_file_path, ConfigError, Enviroment};
pub use extract::{image_urls_from_links, images_in_thread_list, ExtractError};
pub use run::{download_tasks, exit_code, summarize, DownloadOutcome, DownloadTask, Failure, FailurePolicy, RunReport, Stage};
