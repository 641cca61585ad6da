//! Core of an MCP server that searches jobs on Indeed.
//!
//! The library makes the requests that go out and says what the replies come to; whoever uses it
//! sends, receives, reads and writes. `server` holds the tools, `indeed` the queries behind them,
//! `manager` the search for a usable access token, and `laws` what holds of every such search.
//! `operations` says of each operation what its results are in terms of its arguments.

pub mod callback;
pub mod form;
pub mod http;
pub mod indeed;
pub mod json;
pub mod laws;
pub mod manager;
pub mod operations;
pub mod pkce;
pub mod registration;
pub mod server;
pub mod text;
pub mod tokens;
