//! Building and laying out the start-up banner of a content-discovery scanner.
pub mod banner;
pub mod config;
pub mod entry;
pub mod laws;
pub mod presence;
pub mod style;
pub mod text;
pub mod update;

pub use banner::{Banner, UpdateStatus, VERSION};
pub use config::Configuration;
pub use entry::BannerEntry;
pub use style::{paint, status_colorizer, Paint};
pub use text::{bool_text, decimal_text, join_strings};
pub use update::{latest_tag, missing_tag_message, release_url, trim_version_prefix, update_status_for, UpdateCheckError};
