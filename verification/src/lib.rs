//! TiKV support for the `bb8` connection pool.
//!
//! Two managers, one for raw and one for transactional connections, decide
//! what a pool needs decided. They do no I/O themselves: see `protocol`.

pub mod endpoints;
pub mod protocol;
pub mod raw;
pub mod transactional;
pub mod trusted;

pub use bb8;
pub use tikv_client::{Config, Error, RawClient, Result as TiKVResult, Timestamp, TransactionClient};

pub use crate::protocol::{ConnectRequest, RawProbe, Step, TransactionalProbe};
pub use crate::raw::TiKVRawConnectionManager;
pub use crate::transactional::TiKVTransactionalConnectionManager;
