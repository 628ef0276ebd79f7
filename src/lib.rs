//! Request construction and response rendering for a small command-line HTTP client.
mod command;
mod content;
mod error;
mod kv;
mod payload;
mod url;

pub use command::{get_command, post_command, Command};
pub use content::{category_of, plain_body, rule_set_name, ContentCategory};
pub use error::HttpieError;
pub use kv::{parse_kv_pair, KvPair};
pub use payload::build_payload;
pub use url::parse_url;
