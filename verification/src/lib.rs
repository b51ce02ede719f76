//! Persistence of a personal-finance transaction collection as one JSON file
//! inside an application data directory.
//!
//! The library never touches the disk itself. It decides what the host has to
//! do next, turns records into the text of the file and back, and names every
//! way in which saving or loading can fail.
//!
//! - [`transaction`]: the record.
//! - [`error`]: the failures and their messages.
//! - [`format`]: the shape of the file, as mathematics.
//! - [`codec`]: records to text and back.
//! - [`store`]: saving and loading as tasks that the host serves.
//! - [`host`] and [`laws`]: a model of the host, and what the operations
//!   achieve on it.
//! - [`json`]: the calls into `serde_json` that are taken on trust.

pub mod codec;
pub mod error;
pub mod format;
pub mod host;
pub mod json;
pub mod laws;
pub mod store;
mod text;
pub mod transaction;

pub use crate::codec::decode;
pub use crate::codec::encode;
pub use crate::error::StoreError;
pub use crate::store::load_transactions;
pub use crate::store::save_transactions;
pub use crate::store::Operation;
pub use crate::store::Reply;
pub use crate::store::Request;
pub use crate::store::Task;
pub use crate::transaction::Transaction;
