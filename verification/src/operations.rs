//! What the operations of the library do, said of what they are given and what they give back.
//!
//! Each law here speaks of an operation through what its contract promises of a call: whenever the
//! operation may give back a result for some arguments, the result stands to them as the law says.

pub mod queries;
pub mod redirect;
pub mod secrets;
pub mod steps;
pub mod text;
pub mod tokens;
pub mod tools;
