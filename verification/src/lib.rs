//! Session-scoped working-directory context, path resolution and request
//! dispatch for a line-delimited filesystem tool server.
//!
//! Everything here computes on plain values; reading and writing files and
//! streams is left to the program that embeds the library.

pub mod arguments;
pub mod clock;
pub mod dispatch;
pub mod formats;
pub mod globbing;
pub mod json;
pub mod paths;
pub mod persist;
pub mod protocol;
pub mod session;
pub mod sorting;
pub mod state;
pub mod text;
pub mod tools;
