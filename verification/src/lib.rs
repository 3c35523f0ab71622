//! Request validation, URL derivation and result shaping for a tool that
//! fetches stock quotes from stooq.com.

pub mod dispatch;
pub mod market;
pub mod query;
pub mod url;

pub use dispatch::{handle, respond, FetchOutcome, ToolResult};
pub use market::Market;
pub use query::StockParams;
pub use url::build_stooq_url;
