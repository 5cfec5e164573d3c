//! Message validators, pull-based stream bridges and log-sink configuration
//! for a trading client binding.
//!
//! Everything here is plain, synchronous logic with machine-checked
//! contracts. Awaiting a producer, opening files and installing the global
//! log subscriber are left to the embedding layer, which feeds the outcomes
//! back into the state machines defined in these modules.

pub mod capture;
pub mod error;
pub mod json;
pub mod level;
pub mod logs;
pub mod pattern;
pub mod payout;
pub mod sink;
pub mod stream;
pub mod text;
pub mod validator;

pub use capture::{StreamLogsIterator, StreamLogsLayer};
pub use error::BinaryErrorJs;
pub use logs::{start_tracing, LogBuilder, Logger};
pub use stream::{RawStreamIterator, StreamIterator};
pub use validator::Validator;
