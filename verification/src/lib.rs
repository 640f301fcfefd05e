//! A typed client for GitHub's search and user-lookup REST endpoints.
//!
//! The crate builds search queries from qualifiers, turns a query into a
//! paginated request, and decodes response bodies into typed values:
//!
//! - `search::query` holds the query builder and the rendering of a query;
//! - `search` holds the search request with its paging, and the result set;
//! - `user` holds the record of a user;
//! - `decode` reads the members of a parsed response;
//! - `json` is the boundary to `serde_json`, which does the parsing;
//! - `text` renders numbers.
//!
//! The crate does no input or output. A search is run through a transport
//! that the caller hands in: a function from a URL to the body that the URL
//! answers with.
//!
//! Every function carries a contract, and Verus proves each of them but those
//! in `json`, which say what `serde_json` does and are taken on trust.

pub mod decode;
pub mod json;
pub mod search;
pub mod text;
pub mod user;

pub use search::ErrorKind;
pub use search::Query;
pub use search::Search;
pub use search::SearchError;
pub use search::SearchResults;
pub use user::User;
