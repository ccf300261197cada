//! Get or set one key of a JSON object that is kept in a file.
//!
//! The library holds the rules: how an operation string is split, when a
//! document is accepted as an object, what a lookup prints and what an
//! assignment writes back. It never touches the file system: callers hand it
//! the text of the file, or `None` where the file does not exist, and carry
//! out the effect it returns.

pub mod access;
pub mod dispatch;
pub mod failure;
pub mod json;
pub mod laws;
pub mod operation;
pub mod store;

pub use access::{get_value, set_value};
pub use dispatch::{run, Effect};
pub use failure::Failure;
pub use operation::{parse_operation, Operation};
pub use store::{load_json_object, save_json_object};
