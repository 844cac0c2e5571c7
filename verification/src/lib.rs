//! Dictionary lookup library: classifies a query as Chinese or not,
//! extracts phonetic and translation entries from a fetched result page,
//! and formats them into a single text block.

pub mod classify;
pub mod lookup;
pub mod page;
pub mod rows;
pub mod text;

pub use classify::is_chinese;
pub use lookup::LookupOutcome;
pub use lookup::extract_translation;
pub use lookup::missing_query_message;
pub use lookup::render_outcome;
pub use lookup::request_url;
